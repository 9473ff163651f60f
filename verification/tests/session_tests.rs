use dice_session::error::Error;
use dice_session::input::{InputEvent, KeyCode, KeyEvent, KeyEventKind};
use dice_session::session::{exit_popup, get_keybinds, Command, MessageReceiver, POLL_MILLIS};

fn key(code: KeyCode) -> Option<InputEvent> {
    Some(InputEvent::Key(KeyEvent::press(code)))
}

fn receiver() -> MessageReceiver {
    MessageReceiver::new("42".to_string(), "tok1".to_string())
}

fn confirming() -> MessageReceiver {
    let mut r = receiver();
    assert_eq!(r.handle_events(key(KeyCode::Char('q'))), Command::Idle);
    assert!(r.popup().is_some());
    r
}

#[test]
fn yes_always_ends() {
    for code in [KeyCode::Char('y'), KeyCode::Enter] {
        let mut r = confirming();
        assert_eq!(r.handle_events(key(code)), Command::Idle);
        assert!(!r.is_running());
        assert_eq!(r.finish(), Some(Error::Cancelled));
    }
}

#[test]
fn no_always_returns_to_running() {
    for code in [KeyCode::Char('n'), KeyCode::Esc] {
        let mut r = confirming();
        assert_eq!(r.handle_events(key(code)), Command::Idle);
        assert!(r.is_running());
        assert!(r.popup().is_none());
        assert_eq!(r.finish(), None);
        // running again: the roll key rolls
        assert_eq!(r.handle_events(key(KeyCode::Char('r'))), Command::Roll(100));
    }
}

#[test]
fn no_other_key_changes_the_exit_question() {
    for code in [
        KeyCode::Char('r'),
        KeyCode::Char('q'),
        KeyCode::Char('Y'),
        KeyCode::Char('N'),
        KeyCode::Tab,
        KeyCode::Backspace,
        KeyCode::Other,
    ] {
        let mut r = confirming();
        assert_eq!(r.handle_events(key(code)), Command::Idle);
        assert!(r.is_running());
        assert!(r.popup().is_some());
    }
    let mut r = confirming();
    assert_eq!(r.handle_events(None), Command::Idle);
    assert_eq!(r.handle_events(Some(InputEvent::Other)), Command::Idle);
    let release = InputEvent::Key(KeyEvent { code: KeyCode::Char('y'), kind: KeyEventKind::Release });
    assert_eq!(r.handle_events(Some(release)), Command::Idle);
    assert!(r.popup().is_some());
}

#[test]
fn running_keys() {
    let mut r = receiver();
    assert_eq!(r.handle_events(key(KeyCode::Char('r'))), Command::Roll(100));
    assert!(r.popup().is_none());
    assert_eq!(r.handle_events(key(KeyCode::Char('x'))), Command::Idle);
    assert_eq!(r.handle_events(key(KeyCode::Enter)), Command::Idle);
    assert_eq!(r.handle_events(None), Command::Idle);
    assert!(r.popup().is_none());
    assert_eq!(r.handle_events(key(KeyCode::Esc)), Command::Idle);
    assert!(r.popup().is_some());
}

#[test]
fn ended_is_final() {
    let mut r = confirming();
    r.handle_events(key(KeyCode::Char('y')));
    for code in [KeyCode::Char('n'), KeyCode::Esc, KeyCode::Char('r'), KeyCode::Char('q')] {
        assert_eq!(r.handle_events(key(code)), Command::Idle);
        assert!(!r.is_running());
    }
}

#[test]
fn shows_the_snapshot() {
    let mut r = receiver();
    assert_eq!(r.widget(), "");
    r.refresh(vec!["bob rolled 17".to_string()]);
    assert_eq!(r.widget(), "bob rolled 17");
    r.refresh(vec!["a".to_string(), "b".to_string(), "c".to_string()]);
    assert_eq!(r.widget(), "a\n\nb\n\nc");
    assert_eq!(r.title(), "Room 42");
    assert_eq!(r.credential(), "tok1");
}

#[test]
fn session_texts() {
    assert_eq!(get_keybinds(), "r to roll,  Esc/q to quit");
    let p = exit_popup();
    assert_eq!(p.title, "Confirm Exit");
    assert_eq!(p.text, "Are you sure you want to exit?\n\n\n[Y] Yes   [N] No");
    assert_eq!(
        (p.dimensions.percent_x, p.dimensions.percent_y, p.dimensions.min_x, p.dimensions.min_y),
        (20, 15, 35, 5)
    );
    assert_eq!(POLL_MILLIS, 100);
}
