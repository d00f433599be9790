use worumtop::command::{argument_of, interpret, interpret_message, is_white_space_char, Command, Intent};
use worumtop::select::SelectionRequest;
use worumtop::site::Window;

fn second_field(message: &str) -> Option<String> {
    let fields: Vec<&str> = message.trim().split(" ").collect();
    if fields.len() > 1 {
        Some(fields[1].to_string())
    } else {
        None
    }
}

#[test]
fn the_argument_is_the_second_field_of_the_message() {
    assert_eq!(argument_of("/top 3"), Some("3".to_string()));
    assert_eq!(argument_of("/top 3 4"), Some("3".to_string()));
    assert_eq!(argument_of("/week five"), Some("five".to_string()));
}

#[test]
fn a_message_without_space_has_no_argument() {
    assert_eq!(argument_of("/top"), None);
    assert_eq!(argument_of(""), None);
    assert_eq!(argument_of("   "), None);
    assert_eq!(argument_of("  /top\n"), None);
}

#[test]
fn white_space_around_the_message_does_not_count() {
    assert_eq!(argument_of("  /top 2  "), Some("2".to_string()));
    assert_eq!(argument_of("\t/top 2\r\n"), Some("2".to_string()));
    assert_eq!(argument_of("\u{a0}/top 2\u{3000}"), Some("2".to_string()));
}

#[test]
fn two_spaces_in_a_row_enclose_an_empty_argument() {
    assert_eq!(argument_of("/top  3"), Some(String::new()));
    assert_eq!(argument_of("/top \t3"), Some("\t3".to_string()));
}

#[test]
fn white_space_is_what_unicode_says_it_is() {
    for code in 0u32..0x11000 {
        if let Some(c) = char::from_u32(code) {
            assert_eq!(is_white_space_char(c), c.is_whitespace(), "for U+{:04X}", code);
        }
    }
    assert!(!is_white_space_char('\u{10ffff}'));
}

#[test]
fn argument_of_agrees_with_trim_and_split() {
    let messages = [
        "", " ", "  ", "/top", "/top 1", "/top 1 2", " /top 1", "/top 1 ", "/top  1", "/top\t1",
        "\n/top 5\n", "a b c d", " a  b ", "\u{2003}/top 3\u{2003}", "/top \u{2003}", "\u{442} \u{435}",
        "x \u{1f600} y", " \u{a0} ",
    ];
    for message in messages {
        assert_eq!(argument_of(message), second_field(message), "for {:?}", message);
    }
}

#[test]
fn each_ranked_command_has_its_window() {
    for (command, window) in [
        (Command::RankedToday, Window::Day),
        (Command::RankedThisWeek, Window::Week),
        (Command::RankedThisMonth, Window::Month),
        (Command::RankedAllTime, Window::AllTime),
    ] {
        assert_eq!(
            interpret(command, Some("3")),
            Intent::Select(SelectionRequest::RankedTopN { window, n: 3 })
        );
        assert_eq!(
            interpret(command, None),
            Intent::Select(SelectionRequest::RankedTopN { window, n: 1 })
        );
    }
}

#[test]
fn the_count_of_a_command_is_clamped_and_defaults_to_one() {
    let ranked = |n: usize| Intent::Select(SelectionRequest::RankedTopN { window: Window::Day, n });
    assert_eq!(interpret(Command::RankedToday, Some("0")), ranked(1));
    assert_eq!(interpret(Command::RankedToday, Some("5")), ranked(5));
    assert_eq!(interpret(Command::RankedToday, Some("6")), ranked(5));
    assert_eq!(interpret(Command::RankedToday, Some("many")), ranked(1));
    assert_eq!(interpret(Command::RankedToday, Some("")), ranked(1));
}

#[test]
fn the_other_commands_read_no_argument() {
    assert_eq!(interpret(Command::RandomRubric, Some("3")), Intent::Select(SelectionRequest::RandomFromRubric));
    assert_eq!(interpret(Command::RandomRubric, None), Intent::Select(SelectionRequest::RandomFromRubric));
    assert_eq!(interpret(Command::Subscribe, Some("3")), Intent::Subscribe);
    assert_eq!(interpret(Command::Subscribe, None), Intent::Subscribe);
}

#[test]
fn a_whole_message_is_interpreted() {
    assert_eq!(
        interpret_message(Command::RankedThisWeek, "/week 4"),
        Intent::Select(SelectionRequest::RankedTopN { window: Window::Week, n: 4 })
    );
    assert_eq!(
        interpret_message(Command::RankedThisWeek, "/week"),
        Intent::Select(SelectionRequest::RankedTopN { window: Window::Week, n: 1 })
    );
    assert_eq!(
        interpret_message(Command::RankedThisWeek, "/week  4"),
        Intent::Select(SelectionRequest::RankedTopN { window: Window::Week, n: 1 })
    );
    assert_eq!(
        interpret_message(Command::RankedAllTime, "  /ever 99  "),
        Intent::Select(SelectionRequest::RankedTopN { window: Window::AllTime, n: 5 })
    );
    assert_eq!(interpret_message(Command::Subscribe, "/subscribe now"), Intent::Subscribe);
}
