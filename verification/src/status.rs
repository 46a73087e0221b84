//! Lesson statuses, their fixed order, and the ranges moderators filter by.
//!
//! Any status may follow any other: moderation is a reversible
//! classification, so there is no table of allowed transitions. The order
//! `Rejected < New < Approved < Best` serves filtering only.

use vstd::prelude::*;
use crate::scan::{chars_of, is_space, space_free, word_is};

verus! {

/// Moderation status of a lesson.
#[derive(Clone, Copy, Debug, PartialEq, Eq, Structural)]
pub enum LessonStatus {
    Rejected,
    New,
    Approved,
    Best,
}

/// A filter over the status order, as moderators and readers pick it.
#[derive(Clone, Copy, Debug, PartialEq, Eq, Structural)]
pub enum LessonStatusRange {
    Rejected,
    New,
    Approved,
    Best,
    All,
}

impl Default for LessonStatus {
    /// A new lesson is public at once; moderators demote what should not be.
    fn default() -> (s: Self)
        ensures
            s == LessonStatus::Approved,
    {
        LessonStatus::Approved
    }
}

impl Default for LessonStatusRange {
    fn default() -> (r: Self)
        ensures
            r == LessonStatusRange::Approved,
    {
        LessonStatusRange::Approved
    }
}

impl LessonStatus {
    /// Position in the order `Rejected < New < Approved < Best`.
    pub open spec fn rank(self) -> nat {
        match self {
            LessonStatus::Rejected => 0,
            LessonStatus::New => 1,
            LessonStatus::Approved => 2,
            LessonStatus::Best => 3,
        }
    }

    /// The lowercase name of the status.
    pub open spec fn name(self) -> Seq<char> {
        match self {
            LessonStatus::Rejected => "rejected"@,
            LessonStatus::New => "new"@,
            LessonStatus::Approved => "approved"@,
            LessonStatus::Best => "best"@,
        }
    }

    /// The status that `s` names; names are matched exactly.
    pub open spec fn named(s: Seq<char>) -> Option<LessonStatus> {
        if s == "rejected"@ {
            Some(LessonStatus::Rejected)
        } else if s == "new"@ {
            Some(LessonStatus::New)
        } else if s == "approved"@ {
            Some(LessonStatus::Approved)
        } else if s == "best"@ {
            Some(LessonStatus::Best)
        } else {
            None
        }
    }

    /// Computes [`Self::rank`].
    pub fn order(self) -> (r: u8)
        ensures
            r as nat == self.rank(),
    {
        match self {
            LessonStatus::Rejected => 0,
            LessonStatus::New => 1,
            LessonStatus::Approved => 2,
            LessonStatus::Best => 3,
        }
    }

    /// The name of the status, as it stands in commands.
    pub fn as_ref(&self) -> (name: &'static str)
        ensures
            name@ == self.name(),
    {
        match self {
            LessonStatus::Rejected => "rejected",
            LessonStatus::New => "new",
            LessonStatus::Approved => "approved",
            LessonStatus::Best => "best",
        }
    }

    /// The status that the word names, if any.
    pub fn from_word(word: &Vec<char>) -> (r: Option<Self>)
        ensures
            r == Self::named(word@),
    {
        if word_is(word, "rejected") {
            Some(LessonStatus::Rejected)
        } else if word_is(word, "new") {
            Some(LessonStatus::New)
        } else if word_is(word, "approved") {
            Some(LessonStatus::Approved)
        } else if word_is(word, "best") {
            Some(LessonStatus::Best)
        } else {
            None
        }
    }

    /// The status that `s` names, if any.
    pub fn from_str(s: &str) -> (r: Option<Self>)
        ensures
            r == Self::named(s@),
    {
        Self::from_word(&chars_of(s))
    }

    /// A name is one word, and names its status and no other.
    pub proof fn lemma_name(self)
        ensures
            Self::named(self.name()) == Some(self),
            self.name().len() > 0,
            space_free(self.name()),
    {
        reveal_strlit("rejected");
        reveal_strlit("new");
        reveal_strlit("approved");
        reveal_strlit("best");
        let n = self.name();
        assert("rejected"@.len() == 8 && "new"@.len() == 3 && "approved"@.len() == 8 && "best"@.len()
            == 4);
        assert("rejected"@[0] == 'r' && "approved"@[0] == 'a');
        assert forall|i: int| 0 <= i < n.len() implies !is_space(#[trigger] n[i]) by {}
    }
}

impl LessonStatusRange {
    /// The lowest and the highest status of the range, both included.
    pub open spec fn bounds(self) -> (LessonStatus, LessonStatus) {
        match self {
            LessonStatusRange::Rejected => (LessonStatus::Rejected, LessonStatus::Rejected),
            LessonStatusRange::New => (LessonStatus::New, LessonStatus::New),
            LessonStatusRange::Approved => (LessonStatus::Approved, LessonStatus::Best),
            LessonStatusRange::Best => (LessonStatus::Best, LessonStatus::Best),
            LessonStatusRange::All => (LessonStatus::New, LessonStatus::Best),
        }
    }

    /// Whether a lesson of that status passes the filter.
    pub open spec fn admits(self, status: LessonStatus) -> bool {
        self.bounds().0.rank() <= status.rank() <= self.bounds().1.rank()
    }

    /// The lowercase name of the range.
    pub open spec fn name(self) -> Seq<char> {
        match self {
            LessonStatusRange::Rejected => "rejected"@,
            LessonStatusRange::New => "new"@,
            LessonStatusRange::Approved => "approved"@,
            LessonStatusRange::Best => "best"@,
            LessonStatusRange::All => "all"@,
        }
    }

    /// The range that `s` names; names are matched exactly.
    pub open spec fn named(s: Seq<char>) -> Option<LessonStatusRange> {
        if s == "rejected"@ {
            Some(LessonStatusRange::Rejected)
        } else if s == "new"@ {
            Some(LessonStatusRange::New)
        } else if s == "approved"@ {
            Some(LessonStatusRange::Approved)
        } else if s == "best"@ {
            Some(LessonStatusRange::Best)
        } else if s == "all"@ {
            Some(LessonStatusRange::All)
        } else {
            None
        }
    }

    /// The bounds of the range; the lower never lies above the upper.
    pub fn range(self) -> (r: (LessonStatus, LessonStatus))
        ensures
            r == self.bounds(),
            r.0.rank() <= r.1.rank(),
    {
        match self {
            LessonStatusRange::Rejected => (LessonStatus::Rejected, LessonStatus::Rejected),
            LessonStatusRange::New => (LessonStatus::New, LessonStatus::New),
            LessonStatusRange::Approved => (LessonStatus::Approved, LessonStatus::Best),
            LessonStatusRange::Best => (LessonStatus::Best, LessonStatus::Best),
            LessonStatusRange::All => (LessonStatus::New, LessonStatus::Best),
        }
    }

    /// Whether a lesson of that status passes the filter.
    pub fn contains(self, status: LessonStatus) -> (b: bool)
        ensures
            b == self.admits(status),
    {
        let (low, high) = self.range();
        low.order() <= status.order() && status.order() <= high.order()
    }

    /// The name of the range, as it stands in commands.
    pub fn as_ref(&self) -> (name: &'static str)
        ensures
            name@ == self.name(),
    {
        match self {
            LessonStatusRange::Rejected => "rejected",
            LessonStatusRange::New => "new",
            LessonStatusRange::Approved => "approved",
            LessonStatusRange::Best => "best",
            LessonStatusRange::All => "all",
        }
    }

    /// The range that the word names, if any.
    pub fn from_word(word: &Vec<char>) -> (r: Option<Self>)
        ensures
            r == Self::named(word@),
    {
        if word_is(word, "rejected") {
            Some(LessonStatusRange::Rejected)
        } else if word_is(word, "new") {
            Some(LessonStatusRange::New)
        } else if word_is(word, "approved") {
            Some(LessonStatusRange::Approved)
        } else if word_is(word, "best") {
            Some(LessonStatusRange::Best)
        } else if word_is(word, "all") {
            Some(LessonStatusRange::All)
        } else {
            None
        }
    }

    /// The range that `s` names, if any.
    pub fn from_str(s: &str) -> (r: Option<Self>)
        ensures
            r == Self::named(s@),
    {
        Self::from_word(&chars_of(s))
    }

    /// The lower bound of every range lies at or below its upper bound.
    pub proof fn lemma_bounds_in_order(self)
        ensures
            self.bounds().0.rank() <= self.bounds().1.rank(),
            self.admits(self.bounds().0),
            self.admits(self.bounds().1),
    {
    }

    /// A name is one word, and names its range and no other.
    pub proof fn lemma_name(self)
        ensures
            Self::named(self.name()) == Some(self),
            self.name().len() > 0,
            space_free(self.name()),
    {
        reveal_strlit("rejected");
        reveal_strlit("new");
        reveal_strlit("approved");
        reveal_strlit("best");
        reveal_strlit("all");
        let n = self.name();
        assert("rejected"@.len() == 8 && "new"@.len() == 3 && "approved"@.len() == 8 && "best"@.len()
            == 4 && "all"@.len() == 3);
        assert("rejected"@[0] == 'r' && "approved"@[0] == 'a' && "new"@[0] == 'n' && "all"@[0]
            == 'a');
        assert forall|i: int| 0 <= i < n.len() implies !is_space(#[trigger] n[i]) by {}
    }
}

} // verus!
