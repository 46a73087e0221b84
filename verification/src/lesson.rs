//! A lesson as a reader or a moderator sees it: its text and the buttons
//! under it.

use vstd::prelude::*;
use vstd::string::*;
use crate::clock::{abs_diff, span_parts, Timestamp};
use crate::command::{encode_read, encode_set, LessonReadOptions, SetLessonStatus};
use crate::decimal::{push_decimal, render_int};
use crate::keyboard::{row_view, Button, Keyboard};
use crate::scan::{first_two_words, leading_words};
use crate::status::{LessonStatus, LessonStatusRange};
use crate::text::{Lang, Text};

verus! {

/// A moderated text.
#[derive(Debug, PartialEq, Eq)]
pub struct Lesson {
    pub id: i32,
    pub text: String,
    pub status: LessonStatus,
    pub created_at: Timestamp,
}

/// What `humantime::format_duration` writes for a span of `secs` seconds
/// and `nanos` nanoseconds: its units from years down to nanoseconds, those
/// that are zero left out, with blanks between them.
pub uninterp spec fn humantime_text(secs: u64, nanos: u32) -> Seq<char>;

/// `humantime::format_duration`, written out: the text depends on the span
/// alone.
#[verifier::external_body]
fn format_duration(secs: u64, nanos: u32) -> (text: String)
    requires
        nanos < 1_000_000_000,
    ensures
        text@ == humantime_text(secs, nanos),
{
    humantime::format_duration(std::time::Duration::new(secs, nanos)).to_string()
}

/// How long ago `created` was at `now`, by its two largest units.
pub open spec fn ago_text(now: int, created: int) -> Seq<char> {
    let span = span_parts(abs_diff(now, created));
    first_two_words(humantime_text(span.0, span.1))
}

/// How long ago `created` was at `now`; see [`ago_text`].
pub fn timeago_at(now: &Timestamp, created: &Timestamp) -> (text: String)
    ensures
        text@ == ago_text(now@, created@),
{
    let (secs, nanos) = now.distance(created);
    let full = format_duration(secs, nanos);
    leading_words(full.as_str())
}

/// How long ago `created` was, by the wall clock.
pub fn timeago(created: &Timestamp) -> (text: String)
    ensures
        exists|now: int| text@ == ago_text(now, created@),
{
    let now = Timestamp::now();
    let text = timeago_at(&now, created);
    assert(text@ == ago_text(now@, created@));
    text
}

/// The button that gives a lesson the status `to`, or nothing where the
/// lesson has that status already.
pub open spec fn status_button(
    range: LessonStatusRange,
    id: i32,
    current: LessonStatus,
    to: LessonStatus,
    label: Seq<char>,
) -> Seq<(Seq<char>, Seq<char>)> {
    if current == to {
        Seq::empty()
    } else {
        seq![(label, encode_set(range, id, to))]
    }
}

/// The buttons under a lesson, in one row: first the next lesson under the
/// same filter, last the help; for a moderator between them a button for
/// each of `Approved`, `Rejected` and `Best` that the lesson is not.
pub open spec fn lesson_row(
    text: &Text,
    id: i32,
    status: LessonStatus,
    range: LessonStatusRange,
    lang: Lang,
    is_moderator: bool,
) -> Seq<(Seq<char>, Seq<char>)> {
    let next = seq![(text.next_lesson.text(lang), encode_read(range, Some(id)))];
    let help = seq![(text.help.text(lang), "/help"@)];
    if is_moderator {
        next + status_button(range, id, status, LessonStatus::Approved, "\u{1F44D} Approve"@)
            + status_button(range, id, status, LessonStatus::Rejected, "\u{1F44E} Reject"@)
            + status_button(range, id, status, LessonStatus::Best, "\u{1F3C6} Mark best"@) + help
    } else {
        next + help
    }
}

/// What is shown of a lesson: its text, and for a moderator a line with its
/// id, its status and its age.
pub open spec fn lesson_message(
    text: Seq<char>,
    id: i32,
    status: LessonStatus,
    ago: Seq<char>,
    is_moderator: bool,
) -> Seq<char> {
    if is_moderator {
        text + "\n\nid: "@ + render_int(id as int) + ", status: "@ + status.name() + ", created: "@
            + ago + " ago"@
    } else {
        text
    }
}

impl Lesson {
    pub fn new(id: i32, text: String, status: LessonStatus, created_at: Timestamp) -> (l: Self)
        ensures
            l.id == id,
            l.text == text,
            l.status == status,
            l.created_at == created_at,
    {
        Lesson { id, text, status, created_at }
    }

    /// A copy of the lesson.
    pub fn duplicate(&self) -> (l: Self)
        ensures
            l == *self,
    {
        Lesson {
            id: self.id,
            text: self.text.clone(),
            status: self.status,
            created_at: self.created_at,
        }
    }

    /// Appends the button for the status `to`; see [`status_button`].
    fn push_status_button(
        &self,
        line: &mut Vec<Button>,
        range: LessonStatusRange,
        to: LessonStatus,
        label: &str,
    )
        ensures
            row_view(final(line)@) == row_view(old(line)@) + status_button(
                range,
                self.id,
                self.status,
                to,
                label@,
            ),
    {
        if self.status != to {
            line.push(
                Button::callback(
                    label.to_owned(),
                    SetLessonStatus::new(range, self.id, to).to_command(),
                ),
            );
        }
        assert(row_view(line@) =~= row_view(old(line)@) + status_button(
            range,
            self.id,
            self.status,
            to,
            label@,
        ));
    }

    /// The keyboard under the lesson: one row, see [`lesson_row`].
    pub fn keyboard(
        &self,
        text: &Text,
        status_range: LessonStatusRange,
        lang: Lang,
        is_moderator: bool,
    ) -> (k: Keyboard)
        ensures
            k@ == seq![lesson_row(text, self.id, self.status, status_range, lang, is_moderator)],
    {
        let mut line: Vec<Button> = Vec::new();
        line.push(
            Button::callback(
                text.next_lesson.to(lang).to_owned(),
                LessonReadOptions::new(status_range, Some(self.id)).to_command(),
            ),
        );
        assert(row_view(line@) =~= seq![
            (text.next_lesson.text(lang), encode_read(status_range, Some(self.id))),
        ]);
        if is_moderator {
            self.push_status_button(
                &mut line,
                status_range,
                LessonStatus::Approved,
                "\u{1F44D} Approve",
            );
            self.push_status_button(
                &mut line,
                status_range,
                LessonStatus::Rejected,
                "\u{1F44E} Reject",
            );
            self.push_status_button(
                &mut line,
                status_range,
                LessonStatus::Best,
                "\u{1F3C6} Mark best",
            );
        }
        let ghost before = row_view(line@);
        line.push(Button::callback(text.help.to(lang).to_owned(), "/help".to_owned()));
        assert(row_view(line@) =~= before + seq![(text.help.text(lang), "/help"@)]);
        let ghost row = row_view(line@);
        let mut rows: Vec<Vec<Button>> = Vec::new();
        rows.push(line);
        let k = Keyboard::new(rows);
        assert(k@ =~= seq![row]);
        k
    }

    /// What is shown of the lesson at `now`; see [`lesson_message`].
    pub fn message_at(&self, is_moderator: bool, now: &Timestamp) -> (m: String)
        ensures
            m@ == lesson_message(
                self.text@,
                self.id,
                self.status,
                ago_text(now@, self.created_at@),
                is_moderator,
            ),
    {
        let mut m = self.text.clone();
        if is_moderator {
            let ago = timeago_at(now, &self.created_at);
            m.append("\n\nid: ");
            push_decimal(&mut m, self.id as i64);
            m.append(", status: ");
            m.append(self.status.as_ref());
            m.append(", created: ");
            m.append(ago.as_str());
            m.append(" ago");
        }
        m
    }

    /// What is shown of the lesson, its age taken by the wall clock.
    pub fn message(&self, is_moderator: bool) -> (m: String)
        ensures
            exists|now: int|
                m@ == lesson_message(
                    self.text@,
                    self.id,
                    self.status,
                    ago_text(now, self.created_at@),
                    is_moderator,
                ),
    {
        let now = Timestamp::now();
        let m = self.message_at(is_moderator, &now);
        assert(m@ == lesson_message(
            self.text@,
            self.id,
            self.status,
            ago_text(now@, self.created_at@),
            is_moderator,
        ));
        m
    }
}

} // verus!
