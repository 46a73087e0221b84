use std::time::Duration;
use war_lessons_bot::add::{add_lesson, fill_in, is_flood, saved_reply, window_start, AddStep};
use war_lessons_bot::clock::Timestamp;
use war_lessons_bot::config::Config;
use war_lessons_bot::replier::Replier;
use war_lessons_bot::store::LessonStore;
use war_lessons_bot::text::{Lang, Text, Translations};

const SECOND: i128 = 1_000_000_000;

fn at(seconds: i128) -> Timestamp {
    Timestamp::from_unix_nanos(seconds * SECOND).unwrap()
}

fn conf(limit: usize, window: Duration) -> Config {
    Config {
        database_url: String::new(),
        teloxide_token: String::new(),
        spam_token_lifetime: Duration::from_secs(3600),
        rate_limit_messages: limit,
        rate_limit_duration: window,
        journal_logging: false,
        moderators: vec![],
    }
}

fn tr(name: &str) -> Translations {
    Translations::new(format!("{name} en"), format!("{name} ru"), format!("{name} ua"))
}

fn texts() -> Text {
    Text {
        add_lesson: tr("add_lesson"),
        add_lesson_message: tr("add_lesson_message"),
        flood: Translations::new(
            "Wait {} seconds".to_string(),
            "Подождите {} секунд".to_string(),
            "{}{} {".to_string(),
        ),
        help: tr("help"),
        help_message: tr("help_message"),
        internal_error: tr("internal_error"),
        lesson_not_found: tr("lesson_not_found"),
        lesson_saved: tr("lesson_saved"),
        no_more_lessons: tr("no_more_lessons"),
        read_all: tr("read_all"),
        read_approved: tr("read_approved"),
        read_best: tr("read_best"),
        next_lesson: tr("next_lesson"),
        text_only: tr("text_only"),
        unknown_command: tr("unknown_command"),
    }
}

#[test]
fn fourth_lesson_in_the_window_is_throttled_for_thirty_seconds() {
    let conf = conf(3, Duration::from_secs(60));
    let mut store = LessonStore::new();
    store.append("first", "one", at(0)).unwrap();
    store.append("second", "one", at(10)).unwrap();
    store.append("third", "one", at(20)).unwrap();
    let now = at(30);
    let since = window_start(&conf, &now).unwrap();
    assert_eq!(since, -30 * SECOND);

    let times = store.count_recent("one", since);
    assert_eq!(times, vec![at(20), at(10), at(0)]);
    assert_eq!(is_flood(&conf, &now, &times), Some(30));

    let others = store.count_recent("two", since);
    assert!(others.is_empty());
    assert_eq!(is_flood(&conf, &now, &others), None);
}

#[test]
fn limit_zero_always_admits() {
    let conf = conf(0, Duration::from_secs(60));
    let now = at(30);
    assert_eq!(window_start(&conf, &now), None);
    assert_eq!(is_flood(&conf, &now, &vec![]), None);
    assert_eq!(is_flood(&conf, &now, &vec![at(29), at(28), at(27), at(26)]), None);
}

#[test]
fn fewer_than_the_limit_are_admitted_and_the_limit_itself_is_not() {
    let conf = conf(3, Duration::from_secs(60));
    let now = at(100);
    assert_eq!(is_flood(&conf, &now, &vec![]), None);
    assert_eq!(is_flood(&conf, &now, &vec![at(90)]), None);
    assert_eq!(is_flood(&conf, &now, &vec![at(90), at(80)]), None);
    // since = 40; the oldest is 10 s into the window
    assert_eq!(is_flood(&conf, &now, &vec![at(90), at(80), at(50)]), Some(10));
    assert_eq!(is_flood(&conf, &now, &vec![at(95), at(90), at(80), at(41)]), Some(1));
}

#[test]
fn the_wait_counts_from_the_oldest_whatever_the_order() {
    let conf = conf(2, Duration::from_secs(60));
    let now = at(100);
    assert_eq!(is_flood(&conf, &now, &vec![at(50), at(90), at(70)]), Some(10));
    assert_eq!(is_flood(&conf, &now, &vec![at(90), at(70), at(50)]), Some(10));
}

#[test]
fn a_begun_second_counts_as_a_whole_one() {
    let conf = conf(1, Duration::from_secs(60));
    let now = at(100);
    let just_in = Timestamp::from_unix_nanos(40 * SECOND + 1).unwrap();
    assert_eq!(is_flood(&conf, &now, &vec![just_in]), Some(1));
    let half = Timestamp::from_unix_nanos(40 * SECOND + 500_000_000).unwrap();
    assert_eq!(is_flood(&conf, &now, &vec![half]), Some(1));
    let more = Timestamp::from_unix_nanos(41 * SECOND + 1).unwrap();
    assert_eq!(is_flood(&conf, &now, &vec![more]), Some(2));
    assert_eq!(is_flood(&conf, &now, &vec![at(40)]), Some(0));
}

#[test]
fn a_time_before_the_window_gives_its_distance_too() {
    let conf = conf(1, Duration::from_secs(60));
    let now = at(100);
    assert_eq!(is_flood(&conf, &now, &vec![at(35)]), Some(5));
    let before = Timestamp::from_unix_nanos(39 * SECOND + 999_999_999).unwrap();
    assert_eq!(is_flood(&conf, &now, &vec![before]), Some(1));
}

#[test]
fn a_window_with_a_fraction_of_a_second() {
    let conf = conf(1, Duration::from_millis(1500));
    let now = at(10);
    assert_eq!(window_start(&conf, &now), Some(8 * SECOND + 500_000_000));
    assert_eq!(is_flood(&conf, &now, &vec![at(9)]), Some(1));
    assert_eq!(is_flood(&conf, &now, &vec![at(10)]), Some(2));
}

#[test]
fn the_longest_window_and_the_farthest_times_do_not_overflow() {
    let conf = conf(1, Duration::MAX);
    let earliest = Timestamp::from_unix_nanos(-9_223_372_036_854_775_808_000_000_000).unwrap();
    let latest = Timestamp::from_unix_nanos(9_223_372_036_854_775_807_999_999_999).unwrap();
    let since = window_start(&conf, &earliest).unwrap();
    assert_eq!(
        since,
        -9_223_372_036_854_775_808_000_000_000 - 18_446_744_073_709_551_615_999_999_999
    );
    let wait = is_flood(&conf, &earliest, &vec![latest]).unwrap();
    let expected: u128 = (9_223_372_036_854_775_807_999_999_999u128
        + 9_223_372_036_854_775_808_000_000_000u128
        + 18_446_744_073_709_551_615_999_999_999u128
        + 999_999_999)
        / 1_000_000_000;
    assert_eq!(wait as u128, expected.min(usize::MAX as u128));
}

#[test]
fn templates_are_filled_as_the_standard_library_replaces() {
    for template in ["", "{}", "Wait {} s", "{}{}", "{{}}", "{ }", "}{", "a{", "{", "{}{", "é{}é"] {
        for value in ["", "7", "120", "{}"] {
            assert_eq!(fill_in(template, value), template.replace("{}", value));
        }
    }
}

#[test]
fn add_lesson_decides_by_the_flood_check() {
    let texts = texts();
    let repl = Replier::from_message(5, 77, Some("en"));
    assert_eq!(add_lesson::<()>(&repl, &texts, &Ok(None)), AddStep::Save);
    match add_lesson::<()>(&repl, &texts, &Ok(Some(30))) {
        AddStep::Send(reply) => {
            assert_eq!(reply.text, "Wait 30 seconds");
            assert_eq!(reply.chat_id, 77);
            assert!(reply.disable_web_page_preview);
            assert_eq!(reply.parse_mode, None);
            assert_eq!(reply.reply_markup, None);
        }
        other => panic!("{:?}", other),
    }
    match add_lesson::<()>(&repl, &texts, &Ok(Some(0))) {
        AddStep::Send(reply) => assert_eq!(reply.text, "Wait 0 seconds"),
        other => panic!("{:?}", other),
    }
    match add_lesson(&repl, &texts, &Err("store down")) {
        AddStep::Send(reply) => assert_eq!(reply.text, "internal_error en"),
        other => panic!("{:?}", other),
    }
    let ukrainian = Replier::from_message(5, 77, Some("uk"));
    match add_lesson::<()>(&ukrainian, &texts, &Ok(Some(usize::MAX))) {
        AddStep::Send(reply) => {
            assert_eq!(reply.text, format!("{0}{0} {{", usize::MAX));
        }
        other => panic!("{:?}", other),
    }
    assert_eq!(ukrainian.lang, Lang::Ua);
}

#[test]
fn saved_reply_tells_how_saving_went() {
    let texts = texts();
    let repl = Replier::from_message(5, 77, Some("ru"));
    assert_eq!(saved_reply::<()>(&repl, &texts, &Ok(())).text, "lesson_saved ru");
    assert_eq!(saved_reply(&repl, &texts, &Err(1)).text, "internal_error ru");
}
