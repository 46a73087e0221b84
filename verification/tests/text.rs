use std::time::Duration;
use war_lessons_bot::clock::{span_nanos, Timestamp};
use war_lessons_bot::config::Config;
use war_lessons_bot::error::{error_chain, Error};
use war_lessons_bot::keyboard::{Button, Keyboard};
use war_lessons_bot::replier::{ParseMode, Replier};
use war_lessons_bot::status::LessonStatus;
use war_lessons_bot::text::{Lang, Translate, Translations};

#[test]
fn translations_give_the_text_of_the_language() {
    let t = Translations::new("Hello".to_string(), "Привет".to_string(), "Привіт".to_string());
    assert_eq!(t.to(Lang::En), "Hello");
    assert_eq!(t.to(Lang::Ru), "Привет");
    assert_eq!(t.to(Lang::Ua), "Привіт");
    assert_eq!(t.to_default(), "Hello");
    assert_eq!((&t).translate(Lang::Ua), "Привіт");
}

#[test]
fn plain_text_reads_the_same_in_every_language() {
    assert_eq!("plain".translate(Lang::Ru), "plain");
    assert_eq!("plain".to_string().translate(Lang::Ua), "plain");
}

#[test]
fn languages_come_from_language_codes() {
    assert_eq!(Lang::default(), Lang::En);
    assert_eq!(Lang::from("en"), Lang::En);
    assert_eq!(Lang::from("ru"), Lang::Ru);
    assert_eq!(Lang::from("uk"), Lang::Ua);
    assert_eq!(Lang::from("ua"), Lang::En);
    assert_eq!(Lang::from("RU"), Lang::En);
    assert_eq!(Lang::from("de"), Lang::En);
    assert_eq!(Lang::from(""), Lang::En);
    assert_eq!(Lang::from("ru".to_string()), Lang::Ru);
    assert_eq!(Lang::from("uk".to_string()), Lang::Ua);
    assert_eq!(Lang::from("ru-RU".to_string()), Lang::En);
    assert_eq!(Lang::from_language_code(Some("uk")), Lang::Ua);
    assert_eq!(Lang::from_language_code(Some("fr")), Lang::En);
    assert_eq!(Lang::from_language_code(None), Lang::En);
}

#[test]
fn a_replier_knows_users_from_groups() {
    assert_eq!(Replier::from_message(1, 0, None).user_id(), Some(0));
    assert_eq!(Replier::from_message(1, 77, None).user_id(), Some(77));
    assert_eq!(Replier::from_message(1, 5298363099, None).user_id(), Some(5298363099));
    assert_eq!(
        Replier::from_message(1, 1099511627775, None).user_id(),
        Some(1099511627775)
    );
    assert_eq!(Replier::from_message(1, 1099511627776, None).user_id(), None);
    assert_eq!(Replier::from_message(1, -1, None).user_id(), None);
    assert_eq!(Replier::from_message(1, -1000000000000, None).user_id(), None);
    assert_eq!(Replier::from_message(1, -1000000000001, None).user_id(), None);
    assert_eq!(Replier::from_message(1, -1997852516352, None).user_id(), None);
    assert_eq!(Replier::from_message(1, -1997852516353, None).user_id(), None);
    assert_eq!(Replier::from_message(1, i64::MIN, None).user_id(), None);
    assert_eq!(Replier::from_message(1, i64::MAX, None).user_id(), None);
}

#[test]
fn a_replier_is_made_from_a_message_or_a_pressed_button() {
    let repl = Replier::from_message(4, 77, Some("ru"));
    assert_eq!(repl, Replier { message_id: 4, chat_id: 77, lang: Lang::Ru });
    assert_eq!(
        Replier::from_callback_query(Some((4, 77)), Some("uk")),
        Some(Replier { message_id: 4, chat_id: 77, lang: Lang::Ua })
    );
    assert_eq!(
        Replier::from_callback_query(Some((4, 77)), None),
        Some(Replier { message_id: 4, chat_id: 77, lang: Lang::En })
    );
    assert_eq!(Replier::from_callback_query(None, Some("uk")), None);
}

#[test]
fn moderators_are_the_users_on_the_list() {
    let conf = Config {
        database_url: String::new(),
        teloxide_token: String::new(),
        spam_token_lifetime: Duration::from_secs(1),
        rate_limit_messages: 0,
        rate_limit_duration: Duration::from_secs(1),
        journal_logging: true,
        moderators: vec![5, 77, -9],
    };
    assert!(conf.is_moderator(5));
    assert!(conf.is_moderator(77));
    assert!(conf.is_moderator(-9));
    assert!(!conf.is_moderator(6));
    assert!(Replier::from_message(1, 77, None).is_moderator(&conf));
    assert!(!Replier::from_message(1, 78, None).is_moderator(&conf));
    // a group is no user, whatever its id
    assert!(!Replier::from_message(1, -9, None).is_moderator(&conf));
    let nobody = Config { moderators: vec![], ..conf };
    assert!(!nobody.is_moderator(5));
    assert!(!Replier::from_message(1, 5, None).is_moderator(&nobody));
}

#[test]
fn replies_are_built_step_by_step() {
    let repl = Replier::from_message(4, 77, Some("ru"));
    let t = Translations::new("Hello".to_string(), "Привет".to_string(), "Привіт".to_string());
    let reply = repl.send_text(&t);
    assert_eq!(reply.chat_id, 77);
    assert_eq!(reply.text, "Привет");
    assert!(reply.disable_web_page_preview);
    assert_eq!(reply.parse_mode, None);
    assert_eq!(reply.reply_markup, None);

    let html = repl.send_html("<b>bold</b>");
    assert_eq!(html.text, "<b>bold</b>");
    assert_eq!(html.parse_mode, Some(ParseMode::Html));
    assert!(html.disable_web_page_preview);

    let keyboard = || {
        Keyboard::new(vec![vec![Button::callback("label".to_string(), "/help".to_string())]])
    };
    let with = repl.send_text("x").reply_markup(keyboard());
    assert_eq!(with.reply_markup, Some(keyboard()));
    assert_eq!(with.text, "x");
    assert!(with.disable_web_page_preview);

    let edit = repl.edit_text("new".to_string());
    assert_eq!(edit.chat_id, 77);
    assert_eq!(edit.message_id, 4);
    assert_eq!(edit.text, "new");
    assert_eq!(edit.reply_markup, None);
    let edit = edit.reply_markup(keyboard());
    assert_eq!(edit.reply_markup, Some(keyboard()));
    assert_eq!(edit.message_id, 4);
}

#[test]
fn failures_are_described_by_operation_and_parameters() {
    assert_eq!(
        Error::ReadNextLesson(LessonStatus::Approved, Some(3)).describe(),
        "Lesson::get(Approved, Some(3))"
    );
    assert_eq!(
        Error::ReadNextLesson(LessonStatus::New, None).describe(),
        "Lesson::get(New, None)"
    );
    assert_eq!(
        Error::ReadNextLesson(LessonStatus::Best, Some(-12)).describe(),
        format!("Lesson::get({:?}, {:?})", LessonStatus::Best, Some(-12))
    );
    assert_eq!(Error::GetLessonModeration(7).describe(), "LessonModeration::get(7)");
    assert_eq!(
        Error::SetLessonStatus(7, LessonStatus::Rejected).describe(),
        "SetLessonStatus::set(7, Rejected)"
    );
    assert_eq!(Error::NextLessonModeration.describe(), "LessonModeration::next");
    assert_eq!(Error::InitSystemdLogging.describe(), "Systemd logging init");
    assert_eq!(Error::CreatePgPool.describe(), "Create pg pool");
    assert_eq!(Error::Migrate.describe(), "Migrate");
}

#[test]
fn a_failure_is_written_with_its_causes() {
    assert_eq!(error_chain("Migrate", &vec![]), "Migrate");
    assert_eq!(
        error_chain("Create pg pool", &vec!["connection refused".to_string()]),
        "Create pg pool\nCaused by:\n  connection refused"
    );
    assert_eq!(
        error_chain("a", &vec!["b".to_string(), "c".to_string(), String::new()]),
        "a\nCaused by:\n  b\n  c\n  "
    );
}

#[test]
fn timestamps_hold_what_an_i64_of_seconds_can_reach() {
    assert_eq!(Timestamp::from_unix_nanos(0).unwrap().unix_nanos(), 0);
    assert_eq!(Timestamp::from_unix_nanos(-5).unwrap().unix_nanos(), -5);
    let low = -9_223_372_036_854_775_808_000_000_000i128;
    let high = 9_223_372_036_854_775_807_999_999_999i128;
    assert_eq!(Timestamp::from_unix_nanos(low).unwrap().unix_nanos(), low);
    assert_eq!(Timestamp::from_unix_nanos(high).unwrap().unix_nanos(), high);
    assert_eq!(Timestamp::from_unix_nanos(low - 1), None);
    assert_eq!(Timestamp::from_unix_nanos(high + 1), None);
    assert_eq!(Timestamp::from_unix_nanos(i128::MAX), None);
    assert_eq!(Timestamp::from_unix_nanos(i128::MIN), None);
}

#[test]
fn distance_is_seconds_and_nanoseconds_either_way() {
    let a = Timestamp::from_unix_nanos(1_500_000_000).unwrap();
    let b = Timestamp::from_unix_nanos(-2_000_000_001).unwrap();
    assert_eq!(a.distance(&b), (3, 500_000_001));
    assert_eq!(b.distance(&a), (3, 500_000_001));
    assert_eq!(a.distance(&a), (0, 0));
    let low = Timestamp::from_unix_nanos(-9_223_372_036_854_775_808_000_000_000).unwrap();
    let high = Timestamp::from_unix_nanos(9_223_372_036_854_775_807_999_999_999).unwrap();
    assert_eq!(low.distance(&high), (u64::MAX, 999_999_999));
}

#[test]
fn spans_are_counted_in_nanoseconds() {
    assert_eq!(span_nanos(&Duration::ZERO), 0);
    assert_eq!(span_nanos(&Duration::from_secs(60)), 60_000_000_000);
    assert_eq!(span_nanos(&Duration::new(2, 7)), 2_000_000_007);
    assert_eq!(span_nanos(&Duration::MAX), Duration::MAX.as_nanos());
}

#[test]
fn the_clock_moves_on() {
    let first = Timestamp::now();
    let second = Timestamp::now();
    assert!(second.unix_nanos() >= first.unix_nanos());
}
