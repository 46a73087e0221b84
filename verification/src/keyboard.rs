//! Inline keyboards: rows of buttons, each with a label and the command it
//! sends back when pressed.

use vstd::prelude::*;
use vstd::string::*;
use crate::command::{encode_read, LessonReadOptions};
use crate::decimal::{push_decimal, render_int};
use crate::status::LessonStatusRange;
use crate::text::{Lang, Text};

verus! {

/// A button that sends `data` back when it is pressed.
#[derive(Debug, PartialEq, Eq)]
pub struct Button {
    pub label: String,
    pub data: String,
}

/// Rows of buttons under a message.
#[derive(Debug, PartialEq, Eq)]
pub struct Keyboard {
    pub rows: Vec<Vec<Button>>,
}

impl View for Button {
    type V = (Seq<char>, Seq<char>);

    open spec fn view(&self) -> (Seq<char>, Seq<char>) {
        (self.label@, self.data@)
    }
}

/// The buttons of a row, each as its label and its command.
pub open spec fn row_view(row: Seq<Button>) -> Seq<(Seq<char>, Seq<char>)> {
    Seq::new(row.len(), |i: int| row[i]@)
}

impl View for Keyboard {
    type V = Seq<Seq<(Seq<char>, Seq<char>)>>;

    open spec fn view(&self) -> Seq<Seq<(Seq<char>, Seq<char>)>> {
        Seq::new(self.rows@.len(), |i: int| row_view(self.rows@[i]@))
    }
}

impl Button {
    pub fn callback(label: String, data: String) -> (b: Self)
        ensures
            b@ == (label@, data@),
    {
        Button { label, data }
    }
}

impl Keyboard {
    pub fn new(rows: Vec<Vec<Button>>) -> (k: Self)
        ensures
            k.rows == rows,
    {
        Keyboard { rows }
    }
}

/// The label of a moderation queue: its title and, in brackets, how many
/// lessons wait in it.
pub open spec fn queue_label(title: Seq<char>, count: i64) -> Seq<char> {
    title + " ("@ + render_int(count as int) + ")"@
}

/// The counts shown on the moderation queues: those found or, where
/// counting failed, minus one for each.
pub open spec fn shown_counts(counts: Option<(i64, i64)>) -> (i64, i64) {
    match counts {
        Some(c) => c,
        None => (-1i64, -1i64),
    }
}

/// The start menu.
///
/// Its first row opens the three public feeds, its last row leads to adding
/// a lesson and to the help. A moderator gets a row between them with the
/// queues of new and of rejected lessons: `counts` holds how many lessons
/// each queue has, or `None` where they could not be counted.
pub open spec fn start_menu(
    text: &Text,
    lang: Lang,
    is_moderator: bool,
    counts: Option<(i64, i64)>,
) -> Seq<Seq<(Seq<char>, Seq<char>)>> {
    let feeds = seq![
        (text.read_best.text(lang), encode_read(LessonStatusRange::Best, None)),
        (text.read_approved.text(lang), encode_read(LessonStatusRange::Approved, None)),
        (text.read_all.text(lang), encode_read(LessonStatusRange::All, None)),
    ];
    let queues = seq![
        (
            queue_label("Moderate New"@, shown_counts(counts).0),
            encode_read(LessonStatusRange::New, None),
        ),
        (
            queue_label("Moderate Rejected"@, shown_counts(counts).1),
            encode_read(LessonStatusRange::Rejected, None),
        ),
    ];
    let service = seq![(text.add_lesson.text(lang), "/add"@), (text.help.text(lang), "/help"@)];
    if is_moderator {
        seq![feeds, queues, service]
    } else {
        seq![feeds, service]
    }
}

/// A button that opens a feed at its start.
fn feed_button(label: &str, range: LessonStatusRange) -> (b: Button)
    ensures
        b@ == (label@, encode_read(range, None)),
{
    Button::callback(label.to_owned(), LessonReadOptions::new(range, None).to_command())
}

/// A button that opens a moderation queue.
fn queue_button(title: &str, count: i64, range: LessonStatusRange) -> (b: Button)
    ensures
        b@ == (queue_label(title@, count), encode_read(range, None)),
{
    let mut label = title.to_owned();
    label.append(" (");
    push_decimal(&mut label, count);
    label.append(")");
    Button::callback(label, LessonReadOptions::new(range, None).to_command())
}

/// Builds the start menu; see [`start_menu`].
pub fn start_keyboard(text: &Text, lang: Lang, is_moderator: bool, counts: Option<(i64, i64)>) -> (k:
    Keyboard)
    ensures
        k@ == start_menu(text, lang, is_moderator, counts),
{
    let mut feeds: Vec<Button> = Vec::new();
    feeds.push(feed_button(text.read_best.to(lang), LessonStatusRange::Best));
    feeds.push(feed_button(text.read_approved.to(lang), LessonStatusRange::Approved));
    feeds.push(feed_button(text.read_all.to(lang), LessonStatusRange::All));
    let ghost feeds_view = row_view(feeds@);
    let mut rows: Vec<Vec<Button>> = Vec::new();
    rows.push(feeds);
    let ghost mut queues_view: Seq<(Seq<char>, Seq<char>)> = Seq::empty();
    if is_moderator {
        let (new, rejected) = match counts {
            Some(c) => c,
            None => (-1, -1),
        };
        let mut queues: Vec<Button> = Vec::new();
        queues.push(queue_button("Moderate New", new, LessonStatusRange::New));
        queues.push(queue_button("Moderate Rejected", rejected, LessonStatusRange::Rejected));
        proof {
            queues_view = row_view(queues@);
        }
        rows.push(queues);
    }
    let mut service: Vec<Button> = Vec::new();
    service.push(Button::callback(text.add_lesson.to(lang).to_owned(), "/add".to_owned()));
    service.push(Button::callback(text.help.to(lang).to_owned(), "/help".to_owned()));
    let ghost service_view = row_view(service@);
    rows.push(service);
    let k = Keyboard::new(rows);
    proof {
        let menu = start_menu(text, lang, is_moderator, counts);
        assert(feeds_view =~= menu[0]);
        assert(service_view =~= menu[menu.len() - 1]);
        if is_moderator {
            assert(queues_view =~= menu[1]);
        }
        assert(k@ =~= menu);
    }
    k
}

} // verus!
