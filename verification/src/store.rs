//! The lesson store, in memory.
//!
//! Lessons are only ever added, and only their status changes. Ids rise
//! with every lesson added, so reading backwards by id is stable: a lesson
//! added later never turns up behind a lesson that was read already.

use vstd::prelude::*;
use vstd::seq_lib::{to_multiset_build, to_multiset_insert};
use crate::add::stamps;
use crate::clock::Timestamp;
use crate::lesson::Lesson;
use crate::scan::same_text;
use crate::status::{LessonStatus, LessonStatusRange};

verus! {

/// Why the store did not do what it was asked.
#[derive(Clone, Copy, Debug, PartialEq, Eq, Structural)]
pub enum StoreError {
    /// There is no lesson of that id.
    NotFound,
    /// There is no id left for a further lesson.
    OutOfIds,
}

/// A lesson as it is kept: with the spam token of its sender.
#[derive(Debug, PartialEq, Eq)]
pub struct Stored {
    pub lesson: Lesson,
    pub spam_token: String,
}

/// The lessons, oldest first.
pub struct LessonStore {
    rows: Vec<Stored>,
}

/// Ids start above zero and rise from each lesson to the next.
pub open spec fn ascending(rows: Seq<Stored>) -> bool {
    &&& forall|i: int| 0 <= i < rows.len() ==> (#[trigger] rows[i]).lesson.id >= 1
    &&& forall|i: int, j: int|
        0 <= i < j < rows.len() ==> (#[trigger] rows[i]).lesson.id < (#[trigger] rows[j]).lesson.id
}

/// The id that the next lesson gets.
pub open spec fn next_id(rows: Seq<Stored>) -> int {
    if rows.len() == 0 {
        1
    } else {
        rows.last().lesson.id + 1
    }
}

/// Whether a lesson is one that a reader at `after` under `range` has yet
/// to see.
pub open spec fn in_page(lesson: Lesson, range: LessonStatusRange, after: Option<i32>) -> bool {
    range.admits(lesson.status) && (after matches Some(a) ==> lesson.id < a)
}

/// The lesson that a reader at `after` under `range` sees next: the last of
/// `rows` that is yet to be seen.
pub open spec fn page(rows: Seq<Stored>, range: LessonStatusRange, after: Option<i32>) -> Option<
    Lesson,
>
    decreases rows.len(),
{
    if rows.len() == 0 {
        None
    } else if in_page(rows.last().lesson, range, after) {
        Some(rows.last().lesson)
    } else {
        page(rows.drop_last(), range, after)
    }
}

/// When the lessons with the spam token `token` made after `since` were
/// made, oldest first.
pub open spec fn recent(rows: Seq<Stored>, token: Seq<char>, since: int) -> Seq<int>
    decreases rows.len(),
{
    if rows.len() == 0 {
        Seq::empty()
    } else {
        let before = recent(rows.drop_last(), token, since);
        let row = rows.last();
        if row.spam_token@ == token && row.lesson.created_at@ > since {
            before.push(row.lesson.created_at@)
        } else {
            before
        }
    }
}

/// No time is followed by a later one.
pub open spec fn newest_first(times: Seq<int>) -> bool {
    forall|i: int, j: int| 0 <= i < j < times.len() ==> times[i] >= times[j]
}

/// How many of the lessons have the status `status`.
pub open spec fn count_of(rows: Seq<Stored>, status: LessonStatus) -> nat
    decreases rows.len(),
{
    if rows.len() == 0 {
        0
    } else {
        let before = count_of(rows.drop_last(), status);
        if rows.last().lesson.status == status {
            before + 1
        } else {
            before
        }
    }
}

/// The position of the lesson with the id `id`.
pub open spec fn holds_at(rows: Seq<Stored>, id: i32, i: int) -> bool {
    0 <= i < rows.len() && rows[i].lesson.id == id
}

/// With rising ids, the id of a lesson is at least its place in the line.
pub proof fn lemma_ids_count(rows: Seq<Stored>, i: int)
    requires
        ascending(rows),
        0 <= i < rows.len(),
    ensures
        rows[i].lesson.id >= i + 1,
    decreases i,
{
    if i > 0 {
        lemma_ids_count(rows, i - 1);
        assert(rows[i - 1].lesson.id < rows[i].lesson.id);
    }
}

/// What [`page`] picks is yet to be seen and is the newest such lesson;
/// where it picks nothing, every lesson has been seen.
pub proof fn lemma_page_is_newest(rows: Seq<Stored>, range: LessonStatusRange, after: Option<i32>)
    requires
        ascending(rows),
    ensures
        match page(rows, range, after) {
            Some(lesson) => {
                &&& in_page(lesson, range, after)
                &&& exists|i: int| 0 <= i < rows.len() && #[trigger] rows[i].lesson == lesson
                &&& forall|j: int|
                    0 <= j < rows.len() && in_page(#[trigger] rows[j].lesson, range, after)
                        ==> rows[j].lesson.id <= lesson.id
            },
            None => forall|j: int|
                0 <= j < rows.len() ==> !in_page(#[trigger] rows[j].lesson, range, after),
        },
    decreases rows.len(),
{
    if rows.len() > 0 {
        let last = rows.len() - 1;
        if in_page(rows.last().lesson, range, after) {
            assert(rows[last].lesson == rows.last().lesson);
            assert forall|j: int|
                0 <= j < rows.len() && in_page(
                    #[trigger] rows[j].lesson,
                    range,
                    after,
                ) implies rows[j].lesson.id <= rows.last().lesson.id by {
                if j < last {
                    assert(rows[j].lesson.id < rows[last].lesson.id);
                }
            }
        } else {
            let init = rows.drop_last();
            assert(ascending(init)) by {
                assert forall|i: int| 0 <= i < init.len() implies (#[trigger] init[i]).lesson.id
                    >= 1 by {
                    assert(init[i] == rows[i]);
                }
                assert forall|i: int, j: int| 0 <= i < j < init.len() implies (
                #[trigger] init[i]).lesson.id < (#[trigger] init[j]).lesson.id by {
                    assert(init[i] == rows[i] && init[j] == rows[j]);
                }
            }
            lemma_page_is_newest(init, range, after);
            match page(init, range, after) {
                Some(lesson) => {
                    let i = choose|i: int| 0 <= i < init.len() && #[trigger] init[i].lesson == lesson;
                    assert(rows[i].lesson == lesson);
                    assert forall|j: int|
                        0 <= j < rows.len() && in_page(
                            #[trigger] rows[j].lesson,
                            range,
                            after,
                        ) implies rows[j].lesson.id <= lesson.id by {
                        assert(j < last);
                        assert(init[j] == rows[j]);
                    }
                },
                None => {
                    assert forall|j: int| 0 <= j < rows.len() implies !in_page(
                        #[trigger] rows[j].lesson,
                        range,
                        after,
                    ) by {
                        if j < last {
                            assert(init[j] == rows[j]);
                        }
                    }
                },
            }
        }
    }
}

/// A lesson added later does not change what a reader sees next who has
/// got as far as `after`, if the lesson's id is not below `after`.
pub proof fn lemma_append_keeps_page(
    rows: Seq<Stored>,
    added: Stored,
    range: LessonStatusRange,
    after: i32,
)
    requires
        added.lesson.id >= after,
    ensures
        page(rows.push(added), range, Some(after)) == page(rows, range, Some(after)),
{
    assert(rows.push(added).drop_last() =~= rows);
}

impl LessonStore {
    /// The lessons kept, oldest first.
    pub closed spec fn rows(&self) -> Seq<Stored> {
        self.rows@
    }

    /// The ids of the lessons rise; see [`ascending`].
    pub open spec fn wf(&self) -> bool {
        ascending(self.rows())
    }

    /// A store without lessons.
    pub fn new() -> (s: Self)
        ensures
            s.wf(),
            s.rows().len() == 0,
    {
        LessonStore { rows: Vec::new() }
    }

    /// How many lessons the store holds.
    pub fn len(&self) -> (n: usize)
        ensures
            n == self.rows().len(),
    {
        self.rows.len()
    }

    /// Adds a lesson made at `now`, with the status that lessons start
    /// with and the next id. Fails, and adds nothing, only where no id is
    /// left.
    pub fn append(&mut self, text: &str, spam_token: &str, now: Timestamp) -> (r: Result<
        (),
        StoreError,
    >)
        requires
            old(self).wf(),
        ensures
            final(self).wf(),
            match r {
                Ok(_) => {
                    &&& next_id(old(self).rows()) <= i32::MAX
                    &&& final(self).rows().len() == old(self).rows().len() + 1
                    &&& final(self).rows().drop_last() == old(self).rows()
                    &&& final(self).rows().last().spam_token@ == spam_token@
                    &&& final(self).rows().last().lesson.id == next_id(old(self).rows())
                    &&& final(self).rows().last().lesson.text@ == text@
                    &&& final(self).rows().last().lesson.status == LessonStatus::Approved
                    &&& final(self).rows().last().lesson.created_at == now
                },
                Err(e) => {
                    &&& e == StoreError::OutOfIds
                    &&& next_id(old(self).rows()) > i32::MAX
                    &&& final(self).rows() == old(self).rows()
                },
            },
    {
        let n = self.rows.len();
        let id: i32 = if n == 0 {
            1
        } else {
            let last = self.rows[n - 1].lesson.id;
            if last == i32::MAX {
                return Err(StoreError::OutOfIds);
            }
            last + 1
        };
        let lesson = Lesson::new(id, text.to_owned(), LessonStatus::default(), now);
        self.rows.push(Stored { lesson, spam_token: spam_token.to_owned() });
        proof {
            assert(self.rows@.drop_last() =~= old(self).rows@);
            assert forall|i: int, j: int| 0 <= i < j < self.rows@.len() implies (
            #[trigger] self.rows@[i]).lesson.id < (#[trigger] self.rows@[j]).lesson.id by {
                if j == n {
                    assert(self.rows@[i] == old(self).rows@[i]);
                    if i < n - 1 {
                        assert(old(self).rows@[i].lesson.id < old(self).rows@[n - 1].lesson.id);
                    }
                } else {
                    assert(self.rows@[i] == old(self).rows@[i]);
                    assert(self.rows@[j] == old(self).rows@[j]);
                }
            }
            assert forall|i: int| 0 <= i < self.rows@.len() implies (
            #[trigger] self.rows@[i]).lesson.id >= 1 by {
                if i < n {
                    assert(self.rows@[i] == old(self).rows@[i]);
                }
            }
        }
        Ok(())
    }

    /// When the sender with the spam token `spam_token` made lessons after
    /// `since`: every such time, the newest first.
    pub fn count_recent(&self, spam_token: &str, since: i128) -> (times: Vec<Timestamp>)
        ensures
            newest_first(stamps(times@)),
            stamps(times@).to_multiset() == recent(self.rows(), spam_token@, since as int).to_multiset(),
    {
        let mut times: Vec<Timestamp> = Vec::new();
        let mut i: usize = 0;
        proof {
            assert(self.rows@.take(0) =~= Seq::<Stored>::empty());
            assert(stamps(times@) =~= Seq::<int>::empty());
        }
        while i < self.rows.len()
            invariant
                0 <= i <= self.rows.len(),
                newest_first(stamps(times@)),
                stamps(times@).to_multiset() == recent(
                    self.rows@.take(i as int),
                    spam_token@,
                    since as int,
                ).to_multiset(),
            decreases self.rows.len() - i,
        {
            let row = &self.rows[i];
            let at: Timestamp = row.lesson.created_at;
            proof {
                assert(self.rows@.take(i + 1).drop_last() =~= self.rows@.take(i as int));
                assert(self.rows@.take(i + 1).last() == self.rows@[i as int]);
            }
            if same_text(row.spam_token.as_str(), spam_token) && at.unix_nanos() > since {
                let mut p: usize = 0;
                while p < times.len() && times[p].unix_nanos() >= at.unix_nanos()
                    invariant
                        0 <= p <= times.len(),
                        forall|k: int| 0 <= k < p ==> stamps(times@)[k] >= at@,
                    decreases times.len() - p,
                {
                    p = p + 1;
                }
                let ghost before = stamps(times@);
                times.insert(p, at);
                proof {
                    assert(stamps(times@) =~= before.insert(p as int, at@));
                    to_multiset_insert(before, p as int, at@);
                    to_multiset_build(
                        recent(self.rows@.take(i as int), spam_token@, since as int),
                        at@,
                    );
                    assert forall|a: int, b: int| 0 <= a < b < stamps(times@).len() implies stamps(
                        times@,
                    )[a] >= stamps(times@)[b] by {
                        before.insert_ensures(p as int, at@);
                        if b < p {
                            assert(before[a] >= before[b]);
                        } else if b == p {
                        } else if a < p {
                            assert(before[a] >= before[b - 1]);
                        } else if a == p {
                            assert(before[p as int] < at@);
                            if b - 1 > p {
                                assert(before[p as int] >= before[b - 1]);
                            }
                        } else {
                            assert(before[a - 1] >= before[b - 1]);
                        }
                    }
                }
            }
            i = i + 1;
        }
        proof {
            assert(self.rows@.take(i as int) =~= self.rows@);
        }
        times
    }

    /// The lesson that a reader at `after` under `range` sees next: of the
    /// lessons that the filter admits and whose id lies below `after`, the
    /// one with the highest id. `None` where there is no such lesson.
    pub fn next(&self, range: LessonStatusRange, after: Option<i32>) -> (r: Option<Lesson>)
        requires
            self.wf(),
        ensures
            r == page(self.rows(), range, after),
            match r {
                Some(lesson) => {
                    &&& in_page(lesson, range, after)
                    &&& exists|i: int|
                        0 <= i < self.rows().len() && #[trigger] self.rows()[i].lesson == lesson
                    &&& forall|j: int|
                        0 <= j < self.rows().len() && in_page(
                            #[trigger] self.rows()[j].lesson,
                            range,
                            after,
                        ) ==> self.rows()[j].lesson.id <= lesson.id
                },
                None => forall|j: int|
                    0 <= j < self.rows().len() ==> !in_page(
                        #[trigger] self.rows()[j].lesson,
                        range,
                        after,
                    ),
            },
    {
        let mut i: usize = self.rows.len();
        proof {
            assert(self.rows@.take(i as int) =~= self.rows@);
        }
        while i > 0
            invariant
                0 <= i <= self.rows.len(),
                ascending(self.rows@),
                page(self.rows@, range, after) == page(self.rows@.take(i as int), range, after),
            decreases i,
        {
            i = i - 1;
            let lesson = &self.rows[i].lesson;
            proof {
                assert(self.rows@.take(i + 1).drop_last() =~= self.rows@.take(i as int));
                assert(self.rows@.take(i + 1).last() == self.rows@[i as int]);
            }
            let below = match after {
                Some(a) => lesson.id < a,
                None => true,
            };
            if range.contains(lesson.status) && below {
                proof {
                    lemma_page_is_newest(self.rows@, range, after);
                }
                return Some(lesson.duplicate());
            }
        }
        proof {
            lemma_page_is_newest(self.rows@, range, after);
        }
        None
    }

    /// Gives the lesson `id` the status `status` and returns the lesson as
    /// it then is. Nothing else changes. Fails where there is no such
    /// lesson.
    pub fn set_status(&mut self, id: i32, status: LessonStatus) -> (r: Result<Lesson, StoreError>)
        requires
            old(self).wf(),
        ensures
            final(self).wf(),
            final(self).rows().len() == old(self).rows().len(),
            match r {
                Ok(lesson) => exists|i: int|
                    {
                        &&& #[trigger] holds_at(old(self).rows(), id, i)
                        &&& lesson == Lesson { status, ..old(self).rows()[i].lesson }
                        &&& final(self).rows() == old(self).rows().update(
                            i,
                            Stored { lesson, spam_token: old(self).rows()[i].spam_token },
                        )
                    },
                Err(e) => {
                    &&& e == StoreError::NotFound
                    &&& forall|i: int| !holds_at(old(self).rows(), id, i)
                    &&& final(self).rows() == old(self).rows()
                },
            },
    {
        let mut i: usize = 0;
        while i < self.rows.len()
            invariant
                0 <= i <= self.rows.len(),
                self.rows@ == old(self).rows@,
                ascending(old(self).rows@),
                forall|k: int| 0 <= k < i ==> !holds_at(self.rows@, id, k),
            decreases self.rows.len() - i,
        {
            if self.rows[i].lesson.id == id {
                let was = self.rows.remove(i);
                let lesson = Lesson::new(was.lesson.id, was.lesson.text, status, was.lesson.created_at);
                let copy = lesson.duplicate();
                self.rows.insert(i, Stored { lesson, spam_token: was.spam_token });
                proof {
                    let before = old(self).rows@;
                    let now = self.rows@;
                    assert(holds_at(before, id, i as int));
                    assert(now =~= before.update(
                        i as int,
                        Stored { lesson: copy, spam_token: before[i as int].spam_token },
                    ));
                    assert forall|a: int| 0 <= a < now.len() implies (#[trigger] now[a]).lesson.id
                        == before[a].lesson.id by {}
                    assert forall|a: int, b: int| 0 <= a < b < now.len() implies (
                    #[trigger] now[a]).lesson.id < (#[trigger] now[b]).lesson.id by {
                        assert(before[a].lesson.id < before[b].lesson.id);
                    }
                    assert forall|a: int| 0 <= a < now.len() implies (#[trigger] now[a]).lesson.id
                        >= 1 by {
                        assert(before[a].lesson.id >= 1);
                    }
                    assert(copy == Lesson { status, ..before[i as int].lesson });
                    assert(self.rows() == old(self).rows().update(
                        i as int,
                        Stored { lesson: copy, spam_token: old(self).rows()[i as int].spam_token },
                    ));
                    assert(holds_at(old(self).rows(), id, i as int));
                }
                return Ok(copy);
            }
            i = i + 1;
        }
        proof {
            assert forall|k: int| !holds_at(old(self).rows(), id, k) by {
                if 0 <= k < self.rows@.len() {
                    assert(!holds_at(self.rows@, id, k));
                }
            }
        }
        Err(StoreError::NotFound)
    }

    /// How many lessons are new and how many are rejected.
    pub fn moderation_counts(&self) -> (counts: (i64, i64))
        requires
            self.wf(),
        ensures
            counts.0 == count_of(self.rows(), LessonStatus::New),
            counts.1 == count_of(self.rows(), LessonStatus::Rejected),
    {
        let mut new: i64 = 0;
        let mut rejected: i64 = 0;
        let mut i: usize = 0;
        proof {
            assert(self.rows@.take(0) =~= Seq::<Stored>::empty());
            if self.rows@.len() > 0 {
                lemma_ids_count(self.rows@, self.rows@.len() - 1);
            }
        }
        while i < self.rows.len()
            invariant
                0 <= i <= self.rows.len(),
                self.rows.len() <= i32::MAX,
                new == count_of(self.rows@.take(i as int), LessonStatus::New),
                rejected == count_of(self.rows@.take(i as int), LessonStatus::Rejected),
                0 <= new <= i,
                0 <= rejected <= i,
            decreases self.rows.len() - i,
        {
            proof {
                assert(self.rows@.take(i + 1).drop_last() =~= self.rows@.take(i as int));
                assert(self.rows@.take(i + 1).last() == self.rows@[i as int]);
            }
            let status = self.rows[i].lesson.status;
            if status == LessonStatus::New {
                new = new + 1;
            }
            if status == LessonStatus::Rejected {
                rejected = rejected + 1;
            }
            i = i + 1;
        }
        proof {
            assert(self.rows@.take(i as int) =~= self.rows@);
        }
        (new, rejected)
    }
}

} // verus!
