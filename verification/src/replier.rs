//! The conversation a reply goes to, and replies as values: what to send is
//! decided here, sending it is left to the transport.

use vstd::prelude::*;
use vstd::string::*;
use crate::config::Config;
use crate::keyboard::Keyboard;
use crate::text::{Lang, Translate};

verus! {

/// How the transport is to read a text.
#[derive(Clone, Copy, Debug, PartialEq, Eq, Structural)]
pub enum ParseMode {
    Html,
}

/// A message to send.
#[derive(Debug, PartialEq, Eq)]
pub struct Reply {
    pub chat_id: i64,
    pub text: String,
    pub disable_web_page_preview: bool,
    pub parse_mode: Option<ParseMode>,
    pub reply_markup: Option<Keyboard>,
}

/// A new text for a message sent earlier.
#[derive(Debug, PartialEq, Eq)]
pub struct EditText {
    pub chat_id: i64,
    pub message_id: i32,
    pub text: String,
    pub reply_markup: Option<Keyboard>,
}

/// The message that is answered: its id, its chat and the sender's language.
#[derive(Clone, Copy, Debug, PartialEq, Eq)]
pub struct Replier {
    pub message_id: i32,
    pub chat_id: i64,
    pub lang: Lang,
}

/// The lowest id that stands for any chat.
pub const MIN_CHAT_ID: i64 = -1997852516352;

/// The highest id of a user; the ids of users start at zero.
pub const MAX_USER_ID: i64 = 1099511627775;

/// The user behind a chat id, where the chat is a private one.
pub open spec fn user_of_chat(chat_id: i64) -> Option<i64> {
    if 0 <= chat_id <= MAX_USER_ID {
        Some(chat_id)
    } else {
        None
    }
}

/// `ChatId::is_user` of teloxide: whether the id is that of a user rather
/// than of a group or a channel. Ids of users are those from zero up; the
/// call fails on an id outside the ranges of all three, which `requires`
/// leaves out.
#[verifier::external_body]
fn chat_is_user(chat_id: i64) -> (b: bool)
    requires
        MIN_CHAT_ID <= chat_id <= MAX_USER_ID,
    ensures
        b == (0 <= chat_id),
{
    teloxide::types::ChatId(chat_id).is_user()
}

impl Reply {
    /// Whether this is the plain message `text` to the chat of `repl`: no
    /// keyboard, no parse mode, link previews switched off.
    pub open spec fn says(&self, repl: &Replier, text: Seq<char>) -> bool {
        &&& self.chat_id == repl.chat_id
        &&& self.text@ == text
        &&& self.disable_web_page_preview
        &&& self.parse_mode is None
        &&& self.reply_markup is None
    }

    /// Whether this is the message `text` to the chat of `repl` with the
    /// keyboard `keyboard` under it: no parse mode, link previews switched
    /// off.
    pub open spec fn shows(
        &self,
        repl: &Replier,
        text: Seq<char>,
        keyboard: Seq<Seq<(Seq<char>, Seq<char>)>>,
    ) -> bool {
        &&& self.chat_id == repl.chat_id
        &&& self.text@ == text
        &&& self.disable_web_page_preview
        &&& self.parse_mode is None
        &&& self.reply_markup matches Some(k) && k@ == keyboard
    }

    /// Puts a keyboard under the message.
    pub fn reply_markup(self, keyboard: Keyboard) -> (r: Self)
        ensures
            r.reply_markup == Some(keyboard),
            r.chat_id == self.chat_id,
            r.text == self.text,
            r.disable_web_page_preview == self.disable_web_page_preview,
            r.parse_mode == self.parse_mode,
    {
        Reply {
            chat_id: self.chat_id,
            text: self.text,
            disable_web_page_preview: self.disable_web_page_preview,
            parse_mode: self.parse_mode,
            reply_markup: Some(keyboard),
        }
    }

    /// Says how the text is to be read.
    pub fn parse_mode(self, mode: ParseMode) -> (r: Self)
        ensures
            r.parse_mode == Some(mode),
            r.chat_id == self.chat_id,
            r.text == self.text,
            r.disable_web_page_preview == self.disable_web_page_preview,
            r.reply_markup == self.reply_markup,
    {
        Reply {
            chat_id: self.chat_id,
            text: self.text,
            disable_web_page_preview: self.disable_web_page_preview,
            parse_mode: Some(mode),
            reply_markup: self.reply_markup,
        }
    }
}

impl EditText {
    /// Puts a keyboard under the message.
    pub fn reply_markup(self, keyboard: Keyboard) -> (r: Self)
        ensures
            r.reply_markup == Some(keyboard),
            r.chat_id == self.chat_id,
            r.message_id == self.message_id,
            r.text == self.text,
    {
        EditText {
            chat_id: self.chat_id,
            message_id: self.message_id,
            text: self.text,
            reply_markup: Some(keyboard),
        }
    }
}

impl Replier {
    /// Answers a message; `language_code` is its sender's, if there is a
    /// sender and one with a language.
    pub fn from_message(message_id: i32, chat_id: i64, language_code: Option<&str>) -> (r: Self)
        ensures
            r.message_id == message_id,
            r.chat_id == chat_id,
            r.lang == Lang::of_sender(
                match language_code {
                    Some(c) => Some(c@),
                    None => None,
                },
            ),
    {
        Replier { message_id, chat_id, lang: Lang::from_language_code(language_code) }
    }

    /// Answers a pressed button: `message` holds the id and the chat of the
    /// message the button was under, if the transport still knows it, and
    /// `language_code` is that of the user who pressed.
    pub fn from_callback_query(message: Option<(i32, i64)>, language_code: Option<&str>) -> (r:
        Option<Self>)
        ensures
            match message {
                Some(m) => r == Some(
                    Replier {
                        message_id: m.0,
                        chat_id: m.1,
                        lang: Lang::of_sender(
                            match language_code {
                                Some(c) => Some(c@),
                                None => None,
                            },
                        ),
                    },
                ),
                None => r is None,
            },
    {
        match message {
            Some((message_id, chat_id)) => {
                let mut repl = Replier { message_id, chat_id, lang: Lang::default() };
                repl.lang = Lang::from_language_code(language_code);
                Some(repl)
            },
            None => None,
        }
    }

    /// The user, where the chat is a private one.
    pub fn user_id(&self) -> (u: Option<i64>)
        ensures
            u == user_of_chat(self.chat_id),
    {
        if MIN_CHAT_ID <= self.chat_id && self.chat_id <= MAX_USER_ID && chat_is_user(
            self.chat_id,
        ) {
            Some(self.chat_id)
        } else {
            None
        }
    }

    /// Whether the chat is a private one with a moderator.
    pub fn is_moderator(&self, conf: &Config) -> (b: bool)
        ensures
            b == match user_of_chat(self.chat_id) {
                Some(u) => conf.moderators@.contains(u),
                None => false,
            },
    {
        match self.user_id() {
            Some(u) => conf.is_moderator(u),
            None => false,
        }
    }

    /// A message to the chat, in the sender's language, with link previews
    /// switched off.
    pub fn send_text<T: Translate>(&self, text: T) -> (r: Reply)
        ensures
            r.says(self, text.rendering(self.lang)),
    {
        Reply {
            chat_id: self.chat_id,
            text: text.translate(self.lang),
            disable_web_page_preview: true,
            parse_mode: None,
            reply_markup: None,
        }
    }

    /// As [`Self::send_text`], the text to be read as HTML.
    pub fn send_html<T: Translate>(&self, html: T) -> (r: Reply)
        ensures
            r.chat_id == self.chat_id,
            r.text@ == html.rendering(self.lang),
            r.disable_web_page_preview,
            r.parse_mode == Some(ParseMode::Html),
            r.reply_markup is None,
    {
        let html = html.translate(self.lang);
        self.send_text(html).parse_mode(ParseMode::Html)
    }

    /// A new text for the message that is answered.
    pub fn edit_text(&self, text: String) -> (e: EditText)
        ensures
            e.chat_id == self.chat_id,
            e.message_id == self.message_id,
            e.text == text,
            e.reply_markup is None,
    {
        EditText { chat_id: self.chat_id, message_id: self.message_id, text, reply_markup: None }
    }
}

} // verus!
