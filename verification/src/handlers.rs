//! What the bot does with a message, a command and a pressed button.
//!
//! Every function here decides and builds; none of them sends or stores.
//! The caller performs the step it is handed and comes back with what the
//! store answered.

use vstd::prelude::*;
use vstd::string::*;
use crate::clock::Timestamp;
use crate::command::{decode_read, decode_set, LessonReadOptions, SetLessonStatus};
use crate::config::Config;
use crate::lesson::{ago_text, lesson_message, lesson_row, Lesson};
use crate::replier::{user_of_chat, EditText, ParseMode, Replier, Reply};
use crate::scan::{chars_of, starts_with, word_is};
use crate::text::{Text, Translations};

verus! {

/// What to do with a message.
#[derive(Debug, PartialEq, Eq)]
pub enum MessageStep {
    /// It is a command: hand its text to [`handle_command`].
    Command,
    /// It is a lesson of this user: pass it on to flood control.
    AddLesson(i64),
    /// Send this and be done.
    Send(Reply),
}

/// What to do with a command.
#[derive(Debug, PartialEq, Eq)]
pub enum CommandStep {
    /// Send this with the start menu under it.
    SendMenu(Reply),
    /// Send this.
    Send(Reply),
    /// Fetch the lesson the cursor points at and answer with
    /// [`LessonReadOptions::reply`].
    View(LessonReadOptions),
}

/// What to do with a pressed button.
#[derive(Debug, PartialEq, Eq)]
pub enum CallbackStep {
    /// The press carries no command or belongs to no message: do nothing.
    Ignore,
    /// Change the status, answer with [`SetLessonStatus::reply`], then
    /// acknowledge as the answer says.
    SetStatus(SetLessonStatus),
    /// The user may not moderate: acknowledge, and no more.
    Forbidden,
    /// Hand the command to [`handle_command`], then acknowledge.
    Command,
    /// The press carries no command of the bot: acknowledge, and no more.
    Unknown,
}

/// How a pressed button is acknowledged.
#[derive(Debug, PartialEq, Eq)]
pub enum Acknowledgement {
    /// Not at all.
    Skip,
    /// Without a text.
    Silent,
    /// With a short text.
    Text(String),
}

/// What to do once the store was asked for the next lesson.
#[derive(Debug, PartialEq, Eq)]
pub enum ReadStep {
    /// Send this.
    Send(Reply),
    /// Send this with the start menu under it.
    SendMenu(Reply),
}

/// What to do once the store was asked to change a status.
#[derive(Debug, PartialEq, Eq)]
pub enum SetStep {
    /// Put this in the place of the message the button was under.
    Edit(EditText),
    /// Send this.
    Send(Reply),
}

/// Whether a text is a command: whether it begins with a slash.
pub open spec fn is_command(text: Seq<char>) -> bool {
    "/"@.is_prefix_of(text)
}

/// The text shown for a failure inside the bot.
pub fn internal_error(texts: &Text) -> (t: &Translations)
    ensures
        *t == texts.internal_error,
{
    &texts.internal_error
}

/// Decides what to do with a message.
///
/// `text` is the text of the message, if it is a text message. A text that
/// begins with a slash is a command. Any other text is a lesson, which the
/// bot takes in private chats only.
pub fn message_handler(repl: &Replier, texts: &Text, text: Option<&str>) -> (step: MessageStep)
    ensures
        match text {
            None => step matches MessageStep::Send(r) && r.says(
                repl,
                texts.text_only.text(repl.lang),
            ),
            Some(t) => if is_command(t@) {
                step == MessageStep::Command
            } else {
                match user_of_chat(repl.chat_id) {
                    Some(user) => step == MessageStep::AddLesson(user),
                    None => step matches MessageStep::Send(r) && r.says(
                        repl,
                        "The bot works in private chats only"@,
                    ),
                }
            },
        },
{
    match text {
        Some(t) => {
            if starts_with(&chars_of(t), "/") {
                MessageStep::Command
            } else {
                match repl.user_id() {
                    Some(user_id) => MessageStep::AddLesson(user_id),
                    None => MessageStep::Send(
                        repl.send_text("The bot works in private chats only"),
                    ),
                }
            }
        },
        None => MessageStep::Send(repl.send_text(&texts.text_only)),
    }
}

/// Decides what to do with a command.
///
/// `/start` and `/help` show the help, as HTML, over the start menu; `/add`
/// explains how to add a lesson; a read command opens a feed. Anything else
/// is answered as an unknown command.
pub fn handle_command(repl: &Replier, texts: &Text, text: &str) -> (step: CommandStep)
    ensures
        if text@ == "/start"@ || text@ == "/help"@ {
            &&& step matches CommandStep::SendMenu(r)
            &&& r.chat_id == repl.chat_id
            &&& r.text@ == texts.help_message.text(repl.lang)
            &&& r.disable_web_page_preview
            &&& r.parse_mode == Some(ParseMode::Html)
            &&& r.reply_markup is None
        } else if text@ == "/add"@ {
            step matches CommandStep::Send(r) && r.says(
                repl,
                texts.add_lesson_message.text(repl.lang),
            )
        } else {
            match decode_read(text@) {
                Some(cursor) => step matches CommandStep::View(o) && o@ == cursor,
                None => step matches CommandStep::Send(r) && r.says(
                    repl,
                    texts.unknown_command.text(repl.lang),
                ),
            }
        },
{
    let line = chars_of(text);
    if word_is(&line, "/start") || word_is(&line, "/help") {
        CommandStep::SendMenu(repl.send_html(&texts.help_message))
    } else if word_is(&line, "/add") {
        CommandStep::Send(repl.send_text(&texts.add_lesson_message))
    } else {
        match LessonReadOptions::from_command(text) {
            Some(opts) => CommandStep::View(opts),
            None => CommandStep::Send(repl.send_text(&texts.unknown_command)),
        }
    }
}

/// Decides what to do with a pressed button.
///
/// `data` is the command the button carries and `repl` the message it was
/// under; without either nothing is done. A status change is for
/// moderators only. Any other text that begins with a slash is treated as a
/// command typed in.
pub fn callback_handler(repl: Option<&Replier>, conf: &Config, data: Option<&str>) -> (step:
    CallbackStep)
    ensures
        match (data, repl) {
            (Some(cmd), Some(repl)) => match decode_set(cmd@) {
                Some(request) => if user_of_chat(repl.chat_id) matches Some(u)
                    && conf.moderators@.contains(u) {
                    step matches CallbackStep::SetStatus(s) && s@ == request
                } else {
                    step == CallbackStep::Forbidden
                },
                None => if is_command(cmd@) {
                    step == CallbackStep::Command
                } else {
                    step == CallbackStep::Unknown
                },
            },
            _ => step == CallbackStep::Ignore,
        },
{
    match (data, repl) {
        (Some(cmd), Some(repl)) => {
            match SetLessonStatus::from_command(cmd) {
                Some(opts) => {
                    if repl.is_moderator(conf) {
                        CallbackStep::SetStatus(opts)
                    } else {
                        CallbackStep::Forbidden
                    }
                },
                None => {
                    if starts_with(&chars_of(cmd), "/") {
                        CallbackStep::Command
                    } else {
                        CallbackStep::Unknown
                    }
                },
            }
        },
        _ => CallbackStep::Ignore,
    }
}

impl CallbackStep {
    /// How the press is acknowledged, where the step itself settles that.
    ///
    /// A status change does not: whether it is acknowledged as done is for
    /// the store's answer to say, so the result is `None` and the
    /// acknowledgement is that of [`SetStep::acknowledgement`].
    pub fn acknowledgement(&self) -> (a: Option<Acknowledgement>)
        ensures
            match *self {
                CallbackStep::Ignore => a == Some(Acknowledgement::Skip),
                CallbackStep::SetStatus(_) => a is None,
                CallbackStep::Forbidden => a matches Some(Acknowledgement::Text(t)) && t@
                    == "Forbidden"@,
                CallbackStep::Command => a == Some(Acknowledgement::Silent),
                CallbackStep::Unknown => a matches Some(Acknowledgement::Text(t)) && t@
                    == "Unknown callback query"@,
            },
    {
        match self {
            CallbackStep::Ignore => Some(Acknowledgement::Skip),
            CallbackStep::SetStatus(_) => None,
            CallbackStep::Forbidden => Some(Acknowledgement::Text("Forbidden".to_owned())),
            CallbackStep::Command => Some(Acknowledgement::Silent),
            CallbackStep::Unknown => Some(
                Acknowledgement::Text("Unknown callback query".to_owned()),
            ),
        }
    }
}

impl SetStep {
    /// How the press that asked for a status change is acknowledged.
    ///
    /// A change that was made is acknowledged as made. A change that failed
    /// is acknowledged without a text: the message with the internal-error
    /// text is all that the moderator is shown of it.
    pub fn acknowledgement(&self) -> (a: Acknowledgement)
        ensures
            match *self {
                SetStep::Edit(_) => a matches Acknowledgement::Text(t) && t@
                    == "Lesson status updated"@,
                SetStep::Send(_) => a == Acknowledgement::Silent,
            },
    {
        match self {
            SetStep::Edit(_) => Acknowledgement::Text("Lesson status updated".to_owned()),
            SetStep::Send(_) => Acknowledgement::Silent,
        }
    }
}

impl LessonReadOptions {
    /// Answers a read command with what the store found at `now`.
    ///
    /// A lesson is shown with its keyboard. Where the feed has no further
    /// lesson the reader is told so, over the start menu. A failure of the
    /// store is answered with the internal-error text.
    pub fn reply<E>(
        &self,
        repl: &Replier,
        conf: &Config,
        texts: &Text,
        found: &Result<Option<Lesson>, E>,
        now: &Timestamp,
    ) -> (step: ReadStep)
        ensures
            match *found {
                Ok(Some(lesson)) => {
                    let moderates = user_of_chat(repl.chat_id) matches Some(u)
                        && conf.moderators@.contains(u);
                    step matches ReadStep::Send(r) && r.shows(
                        repl,
                        lesson_message(
                            lesson.text@,
                            lesson.id,
                            lesson.status,
                            ago_text(now@, lesson.created_at@),
                            moderates,
                        ),
                        seq![
                            lesson_row(
                                texts,
                                lesson.id,
                                lesson.status,
                                self@.0,
                                repl.lang,
                                moderates,
                            ),
                        ],
                    )
                },
                Ok(None) => step matches ReadStep::SendMenu(r) && r.says(
                    repl,
                    texts.no_more_lessons.text(repl.lang),
                ),
                Err(_) => step matches ReadStep::Send(r) && r.says(
                    repl,
                    texts.internal_error.text(repl.lang),
                ),
            },
    {
        match found {
            Ok(Some(lesson)) => {
                let moderates = repl.is_moderator(conf);
                ReadStep::Send(
                    repl.send_text(lesson.message_at(moderates, now)).reply_markup(
                        lesson.keyboard(texts, self.status_range(), repl.lang, moderates),
                    ),
                )
            },
            Ok(None) => ReadStep::SendMenu(repl.send_text(texts.no_more_lessons.to(repl.lang))),
            Err(_) => ReadStep::Send(repl.send_text(internal_error(texts))),
        }
    }
}

impl SetLessonStatus {
    /// Answers a status change with what the store gave back at `now`.
    ///
    /// The lesson as it now is takes the place of the message the button
    /// was under. A failure of the store is answered with the
    /// internal-error text.
    pub fn reply<E>(
        &self,
        repl: &Replier,
        conf: &Config,
        texts: &Text,
        updated: &Result<Lesson, E>,
        now: &Timestamp,
    ) -> (step: SetStep)
        ensures
            match *updated {
                Ok(lesson) => {
                    let moderates = user_of_chat(repl.chat_id) matches Some(u)
                        && conf.moderators@.contains(u);
                    &&& step matches SetStep::Edit(e)
                    &&& e.chat_id == repl.chat_id
                    &&& e.message_id == repl.message_id
                    &&& e.text@ == lesson_message(
                        lesson.text@,
                        lesson.id,
                        lesson.status,
                        ago_text(now@, lesson.created_at@),
                        moderates,
                    )
                    &&& e.reply_markup matches Some(k)
                    &&& k@ == seq![
                        lesson_row(
                            texts,
                            lesson.id,
                            lesson.status,
                            self@.0,
                            repl.lang,
                            moderates,
                        ),
                    ]
                },
                Err(_) => step matches SetStep::Send(r) && r.says(
                    repl,
                    texts.internal_error.text(repl.lang),
                ),
            },
    {
        match updated {
            Ok(lesson) => {
                let moderates = repl.is_moderator(conf);
                SetStep::Edit(
                    repl.edit_text(lesson.message_at(moderates, now)).reply_markup(
                        lesson.keyboard(texts, self.status_range(), repl.lang, moderates),
                    ),
                )
            },
            Err(_) => SetStep::Send(repl.send_text(internal_error(texts))),
        }
    }
}

} // verus!
