//! Commands carried by callback buttons: a read cursor and a status change,
//! each written as a short line of words and read back from it.
//!
//! The line is the whole state of the conversation: nothing about a reader's
//! position is kept anywhere else.

use vstd::prelude::*;
use vstd::string::*;
use crate::decimal::{
    lemma_parse_render,
    lemma_render_is_word,
    parse_i32,
    parse_i32_spec,
    push_decimal,
    render_int,
};
use crate::scan::{
    chars_of,
    lemma_words_then_space,
    lemma_words_then_word,
    space_free,
    split_words,
    starts_with,
    word_views,
    words,
};
use crate::status::{LessonStatus, LessonStatusRange};

verus! {

/// Where a reader stands: the filter, and the lesson shown last, if any.
#[derive(Debug, PartialEq, Eq)]
pub struct LessonReadOptions {
    status_range: LessonStatusRange,
    prev_lesson: Option<i32>,
}

/// A moderator's request to give a lesson another status.
#[derive(Debug, PartialEq, Eq)]
pub struct SetLessonStatus {
    /// The filter the moderator is reading under; it only travels along, so
    /// that the reply can offer the next lesson of the same kind.
    status_range: LessonStatusRange,
    lesson_id: i32,
    status: LessonStatus,
}

/// The line of a read command for the given filter and position.
pub open spec fn encode_read(range: LessonStatusRange, prev: Option<i32>) -> Seq<char> {
    let head = "/view"@ + " "@ + range.name();
    match prev {
        Some(id) => head + " "@ + render_int(id as int),
        None => head,
    }
}

/// What a line means as a read command.
///
/// The line must begin with the command's name. Its second word, if there
/// is one, names the filter, which is `Approved` otherwise; its third word,
/// if there is one, is the lesson shown last. Further words are not looked at.
pub open spec fn decode_read(line: Seq<char>) -> Option<(LessonStatusRange, Option<i32>)> {
    let w = words(line);
    if !"/view"@.is_prefix_of(line) {
        None
    } else if w.len() <= 1 {
        Some((LessonStatusRange::Approved, None))
    } else {
        match LessonStatusRange::named(w[1]) {
            None => None,
            Some(range) => if w.len() == 2 {
                Some((range, None))
            } else {
                match parse_i32_spec(w[2]) {
                    None => None,
                    Some(id) => Some((range, Some(id))),
                }
            },
        }
    }
}

/// The line of a status change.
pub open spec fn encode_set(range: LessonStatusRange, id: i32, status: LessonStatus) -> Seq<
    char,
> {
    "/set-lesson-status"@ + " "@ + range.name() + " "@ + render_int(id as int) + " "@
        + status.name()
}

/// What a line means as a status change.
///
/// The line must begin with the command's name and hold four words or more:
/// after the first, the filter, the lesson and the new status.
pub open spec fn decode_set(line: Seq<char>) -> Option<(LessonStatusRange, i32, LessonStatus)> {
    let w = words(line);
    if !"/set-lesson-status"@.is_prefix_of(line) || w.len() < 4 {
        None
    } else {
        match (LessonStatusRange::named(w[1]), parse_i32_spec(w[2]), LessonStatus::named(w[3])) {
            (Some(range), Some(id), Some(status)) => Some((range, id, status)),
            _ => None,
        }
    }
}

impl View for LessonReadOptions {
    type V = (LessonStatusRange, Option<i32>);

    closed spec fn view(&self) -> (LessonStatusRange, Option<i32>) {
        (self.status_range, self.prev_lesson)
    }
}

impl View for SetLessonStatus {
    type V = (LessonStatusRange, i32, LessonStatus);

    closed spec fn view(&self) -> (LessonStatusRange, i32, LessonStatus) {
        (self.status_range, self.lesson_id, self.status)
    }
}

impl Default for LessonReadOptions {
    /// The start of the public feed.
    fn default() -> (o: Self)
        ensures
            o@ == (LessonStatusRange::Approved, None::<i32>),
    {
        LessonReadOptions { status_range: LessonStatusRange::Approved, prev_lesson: None }
    }
}

impl LessonReadOptions {
    pub fn new(status_range: LessonStatusRange, prev_lesson: Option<i32>) -> (o: Self)
        ensures
            o@ == (status_range, prev_lesson),
    {
        LessonReadOptions { status_range, prev_lesson }
    }

    /// The filter of the cursor.
    pub fn status_range(&self) -> (r: LessonStatusRange)
        ensures
            r == self@.0,
    {
        self.status_range
    }

    /// The lesson shown last, if any.
    pub fn previous(&self) -> (p: Option<i32>)
        ensures
            p == self@.1,
    {
        self.prev_lesson
    }

    /// Reads a read command. `None` means that the line is no such command.
    pub fn from_command(cmd: &str) -> (r: Option<Self>)
        ensures
            match r {
                Some(o) => decode_read(cmd@) == Some(o@),
                None => decode_read(cmd@) is None,
            },
    {
        let line = chars_of(cmd);
        if !starts_with(&line, "/view") {
            return None;
        }
        let parts = split_words(&line);
        proof {
            assert(word_views(parts@).len() == parts@.len());
        }
        let status_range = if parts.len() > 1 {
            assert(word_views(parts@)[1] == parts@[1]@);
            match LessonStatusRange::from_word(&parts[1]) {
                Some(range) => range,
                None => {
                    return None;
                },
            }
        } else {
            LessonStatusRange::default()
        };
        let prev_lesson = if parts.len() > 2 {
            assert(word_views(parts@)[2] == parts@[2]@);
            match parse_i32(&parts[2]) {
                Some(id) => Some(id),
                None => {
                    return None;
                },
            }
        } else {
            None
        };
        Some(LessonReadOptions { status_range, prev_lesson })
    }

    /// Writes the cursor as a read command.
    pub fn to_command(&self) -> (cmd: String)
        ensures
            cmd@ == encode_read(self@.0, self@.1),
    {
        let mut cmd = String::from_str("/view");
        cmd.append(" ");
        cmd.append(self.status_range.as_ref());
        if let Some(prev) = self.prev_lesson {
            cmd.append(" ");
            push_decimal(&mut cmd, prev as i64);
        }
        cmd
    }

    /// Moves the cursor behind the lesson `id`.
    pub fn prev_lesson(&mut self, id: i32) -> (r: &Self)
        ensures
            final(self)@ == (old(self)@.0, Some(id)),
            r@ == final(self)@,
    {
        self.prev_lesson = Some(id);
        self
    }
}

impl SetLessonStatus {
    pub fn new(status_range: LessonStatusRange, lesson_id: i32, status: LessonStatus) -> (s: Self)
        ensures
            s@ == (status_range, lesson_id, status),
    {
        SetLessonStatus { status_range, lesson_id, status }
    }

    /// The filter the moderator reads under.
    pub fn status_range(&self) -> (r: LessonStatusRange)
        ensures
            r == self@.0,
    {
        self.status_range
    }

    /// The lesson to change.
    pub fn lesson_id(&self) -> (id: i32)
        ensures
            id == self@.1,
    {
        self.lesson_id
    }

    /// The status to give it.
    pub fn status(&self) -> (s: LessonStatus)
        ensures
            s == self@.2,
    {
        self.status
    }

    /// Reads a status change. `None` means that the line is no such command.
    pub fn from_command(cmd: &str) -> (r: Option<Self>)
        ensures
            match r {
                Some(s) => decode_set(cmd@) == Some(s@),
                None => decode_set(cmd@) is None,
            },
    {
        let line = chars_of(cmd);
        if !starts_with(&line, "/set-lesson-status") {
            return None;
        }
        let parts = split_words(&line);
        proof {
            assert(word_views(parts@).len() == parts@.len());
        }
        if parts.len() < 2 {
            return None;
        }
        assert(word_views(parts@)[1] == parts@[1]@);
        let status_range = match LessonStatusRange::from_word(&parts[1]) {
            Some(range) => range,
            None => {
                return None;
            },
        };
        if parts.len() < 3 {
            return None;
        }
        assert(word_views(parts@)[2] == parts@[2]@);
        let lesson_id = match parse_i32(&parts[2]) {
            Some(id) => id,
            None => {
                return None;
            },
        };
        if parts.len() < 4 {
            return None;
        }
        assert(word_views(parts@)[3] == parts@[3]@);
        let status = match LessonStatus::from_word(&parts[3]) {
            Some(status) => status,
            None => {
                return None;
            },
        };
        Some(SetLessonStatus { status_range, lesson_id, status })
    }

    /// Writes the request as a command.
    pub fn to_command(&self) -> (cmd: String)
        ensures
            cmd@ == encode_set(self@.0, self@.1, self@.2),
    {
        let mut cmd = String::from_str("/set-lesson-status");
        cmd.append(" ");
        cmd.append(self.status_range.as_ref());
        cmd.append(" ");
        push_decimal(&mut cmd, self.lesson_id as i64);
        cmd.append(" ");
        cmd.append(self.status.as_ref());
        cmd
    }
}

/// A word written behind a text and one blank is the next word of the whole.
proof fn lemma_words_blank_word(s: Seq<char>, t: Seq<char>)
    requires
        t.len() > 0,
        space_free(t),
    ensures
        words(s + " "@ + t) == words(s).push(t),
{
    reveal_strlit(" ");
    assert(s + " "@ =~= s.push(' '));
    lemma_words_then_space(s, ' ');
    lemma_words_then_word(s + " "@, t);
}

/// The name of a command is its own first and only word.
proof fn lemma_words_of_name(name: Seq<char>)
    requires
        name.len() > 0,
        space_free(name),
    ensures
        words(name) == seq![name],
{
    lemma_words_then_word(Seq::empty(), name);
    assert(Seq::<char>::empty() + name =~= name);
    assert(words(Seq::<char>::empty()).push(name) =~= seq![name]);
}

/// Reading a written read command gives the cursor back.
pub proof fn lemma_read_round_trip(range: LessonStatusRange, prev: Option<i32>)
    ensures
        decode_read(encode_read(range, prev)) == Some((range, prev)),
{
    reveal_strlit("/view");
    let name = "/view"@;
    let line = encode_read(range, prev);
    let head = name + " "@ + range.name();
    assert(space_free(name));
    range.lemma_name();
    lemma_words_of_name(name);
    lemma_words_blank_word(name, range.name());
    assert(words(head) =~= seq![name, range.name()]);
    match prev {
        None => {
            assert(name =~= line.subrange(0, name.len() as int));
        },
        Some(id) => {
            let number = render_int(id as int);
            lemma_render_is_word(id as int);
            lemma_parse_render(id as int);
            lemma_words_blank_word(head, number);
            assert(words(line) =~= seq![name, range.name(), number]);
            assert(name =~= line.subrange(0, name.len() as int));
        },
    }
}

/// Reading a written status change gives the request back.
pub proof fn lemma_set_round_trip(range: LessonStatusRange, id: i32, status: LessonStatus)
    ensures
        decode_set(encode_set(range, id, status)) == Some((range, id, status)),
{
    reveal_strlit("/set-lesson-status");
    let name = "/set-lesson-status"@;
    let number = render_int(id as int);
    let line = encode_set(range, id, status);
    assert(space_free(name));
    range.lemma_name();
    status.lemma_name();
    lemma_render_is_word(id as int);
    lemma_parse_render(id as int);
    lemma_words_of_name(name);
    lemma_words_blank_word(name, range.name());
    lemma_words_blank_word(name + " "@ + range.name(), number);
    lemma_words_blank_word(name + " "@ + range.name() + " "@ + number, status.name());
    assert(words(line) =~= seq![name, range.name(), number, status.name()]);
    assert(name =~= line.subrange(0, name.len() as int));
}

/// A line is no read command if it begins otherwise, names no filter where
/// the filter stands, or holds no `i32` where the lesson stands.
pub proof fn lemma_read_rejects(line: Seq<char>)
    ensures
        !"/view"@.is_prefix_of(line) ==> decode_read(line) is None,
        words(line).len() >= 2 && LessonStatusRange::named(words(line)[1]) is None ==> decode_read(
            line,
        ) is None,
        words(line).len() >= 3 && parse_i32_spec(words(line)[2]) is None ==> decode_read(line)
            is None,
{
}

/// A line is no status change if it begins otherwise, holds fewer than four
/// words, or holds a word that is not what should stand in its place.
pub proof fn lemma_set_rejects(line: Seq<char>)
    ensures
        !"/set-lesson-status"@.is_prefix_of(line) ==> decode_set(line) is None,
        words(line).len() < 4 ==> decode_set(line) is None,
        words(line).len() >= 4 && (LessonStatusRange::named(words(line)[1]) is None
            || parse_i32_spec(words(line)[2]) is None || LessonStatus::named(words(line)[3])
            is None) ==> decode_set(line) is None,
{
}

/// Text that is not an optional sign and then digits is no lesson id.
pub proof fn lemma_id_rejects(word: Seq<char>, i: int)
    requires
        0 <= i < word.len(),
        !('0' <= word[i] <= '9'),
        i > 0 || (word[0] != '-' && word[0] != '+'),
    ensures
        parse_i32_spec(word) is None,
{
    let signed = word.len() > 0 && (word[0] == '-' || word[0] == '+');
    if signed {
        let body = word.subrange(1, word.len() as int);
        assert(body[i - 1] == word[i]);
    }
}

} // verus!
