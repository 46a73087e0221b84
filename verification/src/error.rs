//! What went wrong, named by the operation that failed and what it was
//! asked, and how a failure is written down with its causes.

use vstd::prelude::*;
use vstd::string::*;
use crate::decimal::{push_decimal, render_int};
use crate::status::LessonStatus;

verus! {

/// A failure of the bot: the operation and its key parameters. The cause
/// is kept by whoever ran the operation.
#[derive(Clone, Copy, Debug, PartialEq, Eq)]
pub enum Error {
    /// Reading the next lesson at or above a status, behind a lesson.
    ReadNextLesson(LessonStatus, Option<i32>),
    /// Reading a lesson for moderation.
    GetLessonModeration(i32),
    /// Giving a lesson a status.
    SetLessonStatus(i32, LessonStatus),
    /// Reading the next lesson to moderate.
    NextLessonModeration,
    /// Setting up logging to the journal.
    InitSystemdLogging,
    /// Connecting to the database.
    CreatePgPool,
    /// Bringing the database up to date.
    Migrate,
}

/// The name of a status as it stands in a description.
pub open spec fn status_label(status: LessonStatus) -> Seq<char> {
    match status {
        LessonStatus::Rejected => "Rejected"@,
        LessonStatus::New => "New"@,
        LessonStatus::Approved => "Approved"@,
        LessonStatus::Best => "Best"@,
    }
}

/// A lesson id that may be missing, as it stands in a description.
pub open spec fn optional_id(id: Option<i32>) -> Seq<char> {
    match id {
        Some(id) => "Some("@ + render_int(id as int) + ")"@,
        None => "None"@,
    }
}

/// The one-line description of a failure.
pub open spec fn description(e: Error) -> Seq<char> {
    match e {
        Error::ReadNextLesson(status, prev) => "Lesson::get("@ + status_label(status) + ", "@
            + optional_id(prev) + ")"@,
        Error::GetLessonModeration(id) => "LessonModeration::get("@ + render_int(id as int) + ")"@,
        Error::SetLessonStatus(id, status) => "SetLessonStatus::set("@ + render_int(id as int)
            + ", "@ + status_label(status) + ")"@,
        Error::NextLessonModeration => "LessonModeration::next"@,
        Error::InitSystemdLogging => "Systemd logging init"@,
        Error::CreatePgPool => "Create pg pool"@,
        Error::Migrate => "Migrate"@,
    }
}

/// The causes of a failure, each on a line of its own, indented.
pub open spec fn cause_lines(causes: Seq<String>) -> Seq<char>
    decreases causes.len(),
{
    if causes.len() == 0 {
        Seq::empty()
    } else {
        cause_lines(causes.drop_last()) + "\n  "@ + causes.last()@
    }
}

/// A failure with its causes: the message, and under the heading
/// `Caused by:` the causes, outermost first. Without causes, the message
/// alone.
pub open spec fn chain_text(message: Seq<char>, causes: Seq<String>) -> Seq<char> {
    if causes.len() == 0 {
        message
    } else {
        message + "\nCaused by:"@ + cause_lines(causes)
    }
}

/// The name of a status as it stands in a description.
fn status_text(status: LessonStatus) -> (t: &'static str)
    ensures
        t@ == status_label(status),
{
    match status {
        LessonStatus::Rejected => "Rejected",
        LessonStatus::New => "New",
        LessonStatus::Approved => "Approved",
        LessonStatus::Best => "Best",
    }
}

impl Error {
    /// The one-line description of the failure; see [`description`].
    pub fn describe(&self) -> (text: String)
        ensures
            text@ == description(*self),
    {
        match self {
            Error::ReadNextLesson(status, prev) => {
                let mut text = String::from_str("Lesson::get(");
                text.append(status_text(*status));
                text.append(", ");
                match prev {
                    Some(id) => {
                        text.append("Some(");
                        push_decimal(&mut text, *id as i64);
                        text.append(")");
                        assert(text@ =~= "Lesson::get("@ + status_label(*status) + ", "@
                            + optional_id(*prev));
                    },
                    None => {
                        text.append("None");
                    },
                }
                text.append(")");
                text
            },
            Error::GetLessonModeration(id) => {
                let mut text = String::from_str("LessonModeration::get(");
                push_decimal(&mut text, *id as i64);
                text.append(")");
                text
            },
            Error::SetLessonStatus(id, status) => {
                let mut text = String::from_str("SetLessonStatus::set(");
                push_decimal(&mut text, *id as i64);
                text.append(", ");
                text.append(status_text(*status));
                text.append(")");
                text
            },
            Error::NextLessonModeration => String::from_str("LessonModeration::next"),
            Error::InitSystemdLogging => String::from_str("Systemd logging init"),
            Error::CreatePgPool => String::from_str("Create pg pool"),
            Error::Migrate => String::from_str("Migrate"),
        }
    }
}

/// Writes a failure down with its causes; see [`chain_text`]. `message`
/// is the failure's own text and `causes` are the texts of what caused it,
/// the nearest cause first.
pub fn error_chain(message: &str, causes: &Vec<String>) -> (text: String)
    ensures
        text@ == chain_text(message@, causes@),
{
    let mut text = message.to_owned();
    if causes.len() > 0 {
        text.append("\nCaused by:");
    }
    let mut i: usize = 0;
    proof {
        assert(causes@.take(0) =~= Seq::<String>::empty());
        assert(text@ =~= text@ + cause_lines(causes@.take(0)));
    }
    let ghost head = text@;
    while i < causes.len()
        invariant
            0 <= i <= causes.len(),
            text@ == head + cause_lines(causes@.take(i as int)),
        decreases causes.len() - i,
    {
        proof {
            assert(causes@.take(i + 1).drop_last() =~= causes@.take(i as int));
            assert(causes@.take(i + 1).last() == causes@[i as int]);
        }
        text.append("\n  ");
        text.append(causes[i].as_str());
        proof {
            assert(text@ =~= head + cause_lines(causes@.take(i + 1)));
        }
        i = i + 1;
    }
    proof {
        assert(causes@.take(i as int) =~= causes@);
        if causes@.len() == 0 {
            assert(head + cause_lines(causes@) =~= head);
        }
    }
    text
}

} // verus!
