use dice_session::error::Error;
use dice_session::input::{handle_input, InputEvent, KeyCode, KeyEvent, KeyEventKind};
use dice_session::layout::Dimensions;
use dice_session::text::{join, push_decimal, same_text, trim};

fn decimal_string(n: u64) -> String {
    let mut s = String::new();
    push_decimal(&mut s, n);
    s
}
use dice_session::user::User;

#[test]
fn handle_input_trims_both_lines() {
    assert_eq!(
        handle_input("alice\n", "  42 \r\n"),
        ("alice".to_string(), "42".to_string())
    );
    assert_eq!(handle_input("\n", ""), (String::new(), String::new()));
    assert_eq!(
        handle_input(" a b \n", "\t\n"),
        ("a b".to_string(), String::new())
    );
}

#[test]
fn trim_agrees_with_std() {
    let samples = [
        "",
        " ",
        "a",
        " a",
        "a ",
        "  a  b  ",
        "\n\t\r x \u{0b}\u{0c}",
        "\u{85}x\u{a0}",
        "\u{1680}x\u{2000}\u{2001}\u{200a}",
        "\u{2028}\u{2029}x\u{202f}\u{205f}\u{3000}",
        "\u{200b}x\u{200b}",
        "\u{feff}x",
        "\u{1c}x\u{1f}",
        " é ",
        "\u{3000}日本\u{3000}語\u{3000}",
        "   ",
    ];
    for s in samples {
        assert_eq!(trim(s), s.trim(), "{:?}", s);
    }
}

#[test]
fn trim_treats_every_character_as_std_does() {
    for code in 0u32..0x3100 {
        if let Some(c) = char::from_u32(code) {
            let s = format!("{}x{}", c, c);
            assert_eq!(trim(&s), s.trim(), "U+{:04X}", code);
        }
    }
}

#[test]
fn decimal_numerals() {
    assert_eq!(decimal_string(0), "0");
    assert_eq!(decimal_string(7), "7");
    assert_eq!(decimal_string(10), "10");
    assert_eq!(decimal_string(17), "17");
    assert_eq!(decimal_string(255), "255");
    assert_eq!(decimal_string(1000), "1000");
    assert_eq!(decimal_string(u64::MAX), "18446744073709551615");
    for n in 0u64..2000 {
        assert_eq!(decimal_string(n), n.to_string());
    }
    let mut s = "n=".to_string();
    push_decimal(&mut s, 404);
    assert_eq!(s, "n=404");
}

#[test]
fn join_puts_the_separator_between_neighbours() {
    let v = |parts: &[&str]| parts.iter().map(|p| p.to_string()).collect::<Vec<String>>();
    assert_eq!(join(&v(&[]), ", "), "");
    assert_eq!(join(&v(&["a"]), ", "), "a");
    assert_eq!(join(&v(&["a", "b"]), ", "), "a, b");
    assert_eq!(join(&v(&["a", "", "c"]), "\n\n"), "a\n\n\n\nc");
    assert_eq!(join(&v(&["", ""]), "-"), "-");
    assert_eq!(join(&v(&["a", "b", "c"]), ""), "abc");
}

#[test]
fn same_text_compares_characters() {
    assert!(same_text("roll", "roll"));
    assert!(same_text("", ""));
    assert!(!same_text("roll", "rol"));
    assert!(!same_text("roll", "Roll"));
}

#[test]
fn pressed_key_counts_presses_only() {
    let press = InputEvent::Key(KeyEvent::press(KeyCode::Enter));
    assert_eq!(press.pressed_key(), Some(KeyCode::Enter));
    let release = InputEvent::Key(KeyEvent { code: KeyCode::Enter, kind: KeyEventKind::Release });
    assert_eq!(release.pressed_key(), None);
    let repeat = InputEvent::Key(KeyEvent { code: KeyCode::Char('a'), kind: KeyEventKind::Repeat });
    assert_eq!(repeat.pressed_key(), None);
    assert_eq!(InputEvent::Other.pressed_key(), None);
}

#[test]
fn error_messages() {
    assert_eq!(Error::Cancelled.message(), "Cancelled");
    assert_eq!(Error::InvalidForm.message(), "Invalid form");
    assert_eq!(Error::MissingToken.message(), "Error obtaining the token");
    assert_eq!(Error::Transport("refused".to_string()).message(), "refused");
    assert_eq!(Error::Io("closed".to_string()).message(), "closed");
    assert_eq!(
        Error::Stream("eof".to_string()).message(),
        "Error streaming events: eof"
    );
    assert_eq!(
        Error::Decode("{}".to_string()).message(),
        "Error decoding event: {}"
    );
}

#[test]
fn only_a_cancellation_is_no_failure() {
    assert!(!Error::Cancelled.is_failure());
    assert!(Error::InvalidForm.is_failure());
    assert!(Error::MissingToken.is_failure());
    assert!(Error::Transport(String::new()).is_failure());
    assert!(Error::Io(String::new()).is_failure());
    assert!(Error::Stream(String::new()).is_failure());
    assert!(Error::Decode(String::new()).is_failure());
    assert!(Error::InvalidForm.is_recoverable());
    assert!(!Error::Cancelled.is_recoverable());
    assert!(!Error::MissingToken.is_recoverable());
    assert!(!Error::Transport(String::new()).is_recoverable());
}

#[test]
fn user_takes_submission_and_grant() {
    let mut user = User::new("alice".to_string(), String::new());
    assert_eq!(user.credential(), "");
    user.enter("tok1".to_string(), "42".to_string());
    assert_eq!(user.username, "alice");
    assert_eq!(user.room, "42");
    assert_eq!(user.credential(), "tok1");
    user.submit("bob".to_string(), "7".to_string());
    assert_eq!(user.username, "bob");
    assert_eq!(user.room, "7");
    assert_eq!(user.credential(), "tok1");
    let user = User::default();
    assert_eq!(user.username, "");
}

#[test]
fn padding_is_half_of_what_is_left() {
    let d = Dimensions { percent_x: 20, percent_y: 15, min_x: 35, min_y: 5 };
    assert_eq!(d.horizontal_padding(), 40);
    assert_eq!(d.vertical_padding(), 42);
    let d = Dimensions { percent_x: 100, percent_y: 0, min_x: 0, min_y: 0 };
    assert_eq!(d.horizontal_padding(), 0);
    assert_eq!(d.vertical_padding(), 50);
}
