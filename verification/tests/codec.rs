use war_lessons_bot::command::{LessonReadOptions, SetLessonStatus};
use war_lessons_bot::decimal::parse_i32;
use war_lessons_bot::scan::{chars_of, is_whitespace, leading_words, split_words};
use war_lessons_bot::status::{LessonStatus, LessonStatusRange};

const RANGES: [LessonStatusRange; 5] = [
    LessonStatusRange::Rejected,
    LessonStatusRange::New,
    LessonStatusRange::Approved,
    LessonStatusRange::Best,
    LessonStatusRange::All,
];

const STATUSES: [LessonStatus; 4] = [
    LessonStatus::Rejected,
    LessonStatus::New,
    LessonStatus::Approved,
    LessonStatus::Best,
];

const IDS: [i32; 9] = [i32::MIN, -35, -1, 0, 1, 9, 10, 2147483646, i32::MAX];

#[test]
fn read_commands_round_trip() {
    for range in RANGES {
        let start = LessonReadOptions::new(range, None);
        assert_eq!(LessonReadOptions::from_command(&start.to_command()), Some(start));
        for id in IDS {
            let cursor = LessonReadOptions::new(range, Some(id));
            assert_eq!(LessonReadOptions::from_command(&cursor.to_command()), Some(cursor));
        }
    }
}

#[test]
fn status_changes_round_trip() {
    for range in RANGES {
        for status in STATUSES {
            for id in IDS {
                let request = SetLessonStatus::new(range, id, status);
                assert_eq!(SetLessonStatus::from_command(&request.to_command()), Some(request));
            }
        }
    }
}

#[test]
fn commands_are_written_as_words() {
    assert_eq!(
        LessonReadOptions::new(LessonStatusRange::All, None).to_command(),
        "/view all"
    );
    assert_eq!(
        LessonReadOptions::new(LessonStatusRange::Rejected, Some(-7)).to_command(),
        "/view rejected -7"
    );
    assert_eq!(
        LessonReadOptions::new(LessonStatusRange::New, Some(i32::MIN)).to_command(),
        "/view new -2147483648"
    );
    assert_eq!(
        SetLessonStatus::new(LessonStatusRange::Approved, 1, LessonStatus::Best).to_command(),
        "/set-lesson-status approved 1 best"
    );
    assert_eq!(
        SetLessonStatus::new(LessonStatusRange::All, 2147483647, LessonStatus::Rejected)
            .to_command(),
        "/set-lesson-status all 2147483647 rejected"
    );
}

#[test]
fn read_command_rejects_malformed_lines() {
    assert!(LessonReadOptions::from_command("").is_none());
    assert!(LessonReadOptions::from_command("view best").is_none());
    assert!(LessonReadOptions::from_command(" /view best").is_none());
    assert!(LessonReadOptions::from_command("/vie").is_none());
    assert!(LessonReadOptions::from_command("/view Best").is_none());
    assert!(LessonReadOptions::from_command("/view BEST").is_none());
    assert!(LessonReadOptions::from_command("/view best 3.5").is_none());
    assert!(LessonReadOptions::from_command("/view best 3x").is_none());
    assert!(LessonReadOptions::from_command("/view best -").is_none());
    assert!(LessonReadOptions::from_command("/view best +").is_none());
    assert!(LessonReadOptions::from_command("/view best 2147483648").is_none());
    assert!(LessonReadOptions::from_command("/view best -2147483649").is_none());
    assert!(LessonReadOptions::from_command("/view best 99999999999999999999999").is_none());
    assert!(LessonReadOptions::from_command("/view 3").is_none());
}

#[test]
fn read_command_accepts_what_the_grammar_allows() {
    assert_eq!(
        LessonReadOptions::from_command("/view   best \t 3  "),
        Some(LessonReadOptions::new(LessonStatusRange::Best, Some(3)))
    );
    assert_eq!(
        LessonReadOptions::from_command("/view best +3"),
        Some(LessonReadOptions::new(LessonStatusRange::Best, Some(3)))
    );
    assert_eq!(
        LessonReadOptions::from_command("/view best 0003"),
        Some(LessonReadOptions::new(LessonStatusRange::Best, Some(3)))
    );
    assert_eq!(
        LessonReadOptions::from_command("/view best -0"),
        Some(LessonReadOptions::new(LessonStatusRange::Best, Some(0)))
    );
    assert_eq!(
        LessonReadOptions::from_command("/view best 3 and more"),
        Some(LessonReadOptions::new(LessonStatusRange::Best, Some(3)))
    );
    assert_eq!(
        LessonReadOptions::from_command("/view\u{3000}all\u{a0}-2147483648"),
        Some(LessonReadOptions::new(LessonStatusRange::All, Some(i32::MIN)))
    );
    // Only the beginning of the first word is looked at.
    assert_eq!(
        LessonReadOptions::from_command("/viewer new"),
        Some(LessonReadOptions::new(LessonStatusRange::New, None))
    );
    assert_eq!(
        LessonReadOptions::from_command("/view "),
        Some(LessonReadOptions::default())
    );
}

#[test]
fn status_change_rejects_malformed_lines() {
    assert!(SetLessonStatus::from_command("").is_none());
    assert!(SetLessonStatus::from_command("/view best 3").is_none());
    assert!(SetLessonStatus::from_command("/set-lesson-status approved").is_none());
    assert!(SetLessonStatus::from_command("/set-lesson-status approved 1").is_none());
    assert!(SetLessonStatus::from_command("/set-lesson-status approved 1 all").is_none());
    assert!(SetLessonStatus::from_command("/set-lesson-status approved 1 Best").is_none());
    assert!(SetLessonStatus::from_command("/set-lesson-status approved one best").is_none());
    assert!(SetLessonStatus::from_command("/set-lesson-status approved 1.0 best").is_none());
    assert!(SetLessonStatus::from_command("/set-lesson-status every 1 best").is_none());
    assert!(SetLessonStatus::from_command("/set-lesson-status approved 4294967296 best").is_none());
    assert!(SetLessonStatus::from_command("set-lesson-status approved 1 best").is_none());
}

#[test]
fn status_change_accepts_every_range_and_status() {
    assert_eq!(
        SetLessonStatus::from_command("/set-lesson-status all -5 rejected extra"),
        Some(SetLessonStatus::new(LessonStatusRange::All, -5, LessonStatus::Rejected))
    );
    assert_eq!(
        SetLessonStatus::from_command("/set-lesson-status\tnew\t7\tnew"),
        Some(SetLessonStatus::new(LessonStatusRange::New, 7, LessonStatus::New))
    );
}

#[test]
fn accessors_give_the_parts() {
    let cursor = LessonReadOptions::new(LessonStatusRange::Best, Some(4));
    assert_eq!(cursor.status_range(), LessonStatusRange::Best);
    assert_eq!(cursor.previous(), Some(4));
    let request = SetLessonStatus::new(LessonStatusRange::All, 9, LessonStatus::New);
    assert_eq!(request.status_range(), LessonStatusRange::All);
    assert_eq!(request.lesson_id(), 9);
    assert_eq!(request.status(), LessonStatus::New);
}

#[test]
fn prev_lesson_moves_the_cursor() {
    let mut cursor = LessonReadOptions::new(LessonStatusRange::Best, None);
    assert_eq!(cursor.prev_lesson(12).to_command(), "/view best 12");
    assert_eq!(cursor, LessonReadOptions::new(LessonStatusRange::Best, Some(12)));
    cursor.prev_lesson(3);
    assert_eq!(cursor, LessonReadOptions::new(LessonStatusRange::Best, Some(3)));
}

#[test]
fn whitespace_is_what_the_standard_library_says() {
    let mut c = 0u32;
    while c <= 0x10FFFF {
        if let Some(ch) = char::from_u32(c) {
            assert_eq!(is_whitespace(ch), ch.is_whitespace(), "U+{:04X}", c);
        }
        c += 1;
    }
}

#[test]
fn words_are_split_as_the_standard_library_splits() {
    for text in [
        "",
        " ",
        "a",
        " a",
        "a ",
        "  /view   best \t 3\n",
        "one\u{2003}two\u{85}three",
        "2h 37m 5s",
        "\u{1F44D} Approve",
    ] {
        let got: Vec<String> = split_words(&chars_of(text))
            .iter()
            .map(|w| w.iter().collect())
            .collect();
        let expected: Vec<String> = text.split_whitespace().map(String::from).collect();
        assert_eq!(got, expected, "{:?}", text);
    }
}

#[test]
fn leading_words_keeps_two() {
    assert_eq!(leading_words(""), "");
    assert_eq!(leading_words("  "), "");
    assert_eq!(leading_words("32ms"), "32ms");
    assert_eq!(leading_words("2h 37m"), "2h 37m");
    assert_eq!(leading_words(" 1year   2months 3days 4h"), "1year 2months");
}

#[test]
fn integers_are_read_as_the_standard_library_reads() {
    for text in [
        "", "-", "+", "0", "-0", "+0", "00", "7", "+7", "-7", "12a", "a12", "1 2", " 1", "1 ",
        "--1", "+-1", "2147483647", "2147483648", "-2147483648", "-2147483649", "0002147483647",
        "99999999999999999999", "-99999999999999999999", "1_000", "0x10", "١٢",
    ] {
        assert_eq!(parse_i32(&chars_of(text)), text.parse::<i32>().ok(), "{:?}", text);
    }
}
