//! Interface languages and the translated texts of the bot.

use vstd::prelude::*;
use vstd::std_specs::convert::FromSpecImpl;
use vstd::string::*;
use crate::scan::{chars_of, word_is};

verus! {

/// A language the bot speaks.
#[derive(Clone, Copy, Debug, PartialEq, Eq, Structural)]
pub enum Lang {
    En,
    Ru,
    Ua,
}

/// One text in every language.
pub struct Translations {
    en: String,
    ru: String,
    ua: String,
}

/// Every text the bot shows.
pub struct Text {
    pub add_lesson: Translations,
    pub add_lesson_message: Translations,
    pub flood: Translations,
    pub help: Translations,
    pub help_message: Translations,
    pub internal_error: Translations,
    pub lesson_not_found: Translations,
    pub lesson_saved: Translations,
    pub no_more_lessons: Translations,
    pub read_all: Translations,
    pub read_approved: Translations,
    pub read_best: Translations,
    pub next_lesson: Translations,
    pub text_only: Translations,
    pub unknown_command: Translations,
}

/// What can be shown to a user who reads a given language.
pub trait Translate: Sized {
    /// The text that `self` stands for in `lang`.
    spec fn rendering(self, lang: Lang) -> Seq<char>;

    fn translate(self, lang: Lang) -> (s: String)
        ensures
            s@ == self.rendering(lang),
    ;
}

impl Default for Lang {
    fn default() -> (lang: Self)
        ensures
            lang == Lang::En,
    {
        Lang::En
    }
}

impl Lang {
    /// The language that a language code of a chat client selects: `en`,
    /// `ru`, and `uk` for Ukrainian; English for every other code.
    pub open spec fn of_code(code: Seq<char>) -> Lang {
        if code == "ru"@ {
            Lang::Ru
        } else if code == "uk"@ {
            Lang::Ua
        } else {
            Lang::En
        }
    }

    /// The language of a sender, who may have told no language code.
    pub open spec fn of_sender(code: Option<Seq<char>>) -> Lang {
        match code {
            Some(code) => Self::of_code(code),
            None => Lang::En,
        }
    }

    /// The language of a sender, who may have told no language code.
    pub fn from_language_code(code: Option<&str>) -> (lang: Self)
        ensures
            lang == Self::of_sender(
                match code {
                    Some(c) => Some(c@),
                    None => None,
                },
            ),
    {
        match code {
            Some(c) => Lang::from(c),
            None => Lang::default(),
        }
    }
}

impl<'a> From<&'a str> for Lang {
    fn from(value: &'a str) -> (lang: Self) {
        let code = chars_of(value);
        if word_is(&code, "ru") {
            Lang::Ru
        } else if word_is(&code, "uk") {
            Lang::Ua
        } else {
            Lang::En
        }
    }
}

impl<'a> FromSpecImpl<&'a str> for Lang {
    open spec fn obeys_from_spec() -> bool {
        true
    }

    open spec fn from_spec(value: &'a str) -> Self {
        Lang::of_code(value@)
    }
}

impl From<String> for Lang {
    fn from(value: String) -> (lang: Self) {
        let code = chars_of(value.as_str());
        if word_is(&code, "ru") {
            Lang::Ru
        } else if word_is(&code, "uk") {
            Lang::Ua
        } else {
            Lang::En
        }
    }
}

impl FromSpecImpl<String> for Lang {
    open spec fn obeys_from_spec() -> bool {
        true
    }

    open spec fn from_spec(value: String) -> Self {
        Lang::of_code(value@)
    }
}

impl Translations {
    pub fn new(en: String, ru: String, ua: String) -> (t: Self)
        ensures
            t.text(Lang::En) == en@,
            t.text(Lang::Ru) == ru@,
            t.text(Lang::Ua) == ua@,
    {
        Translations { en, ru, ua }
    }

    /// The text in `lang`.
    pub closed spec fn text(&self, lang: Lang) -> Seq<char> {
        match lang {
            Lang::En => self.en@,
            Lang::Ru => self.ru@,
            Lang::Ua => self.ua@,
        }
    }

    /// The text in `lang`.
    pub fn to(&self, lang: Lang) -> (s: &str)
        ensures
            s@ == self.text(lang),
    {
        match lang {
            Lang::En => self.en.as_str(),
            Lang::Ru => self.ru.as_str(),
            Lang::Ua => self.ua.as_str(),
        }
    }

    /// The text in the default language.
    pub fn to_default(&self) -> (s: &str)
        ensures
            s@ == self.text(Lang::En),
    {
        self.to(Lang::default())
    }
}

impl<'a> Translate for &'a Translations {
    open spec fn rendering(self, lang: Lang) -> Seq<char> {
        self.text(lang)
    }

    fn translate(self, lang: Lang) -> (s: String) {
        self.to(lang).to_owned()
    }
}

impl<'a> Translate for &'a str {
    /// Plain text reads the same in every language.
    open spec fn rendering(self, lang: Lang) -> Seq<char> {
        self@
    }

    fn translate(self, lang: Lang) -> (s: String) {
        self.to_owned()
    }
}

impl Translate for String {
    /// Plain text reads the same in every language.
    open spec fn rendering(self, lang: Lang) -> Seq<char> {
        self@
    }

    fn translate(self, lang: Lang) -> (s: String) {
        self
    }
}

} // verus!
