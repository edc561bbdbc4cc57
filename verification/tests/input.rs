use crossterm::event::KeyModifiers;
use npu_monitor::input::{poll_result, quit_reason, KeyCode, KeyPress, QuitReason, TICK_PERIOD_MS};

fn key(code: KeyCode, modifiers: KeyModifiers) -> KeyPress {
    KeyPress { code, modifiers: modifiers.bits() }
}

#[test]
fn tick_period_is_one_second() {
    assert_eq!(TICK_PERIOD_MS, 1000);
}

#[test]
fn quit_key_quits() {
    assert_eq!(quit_reason(&key(KeyCode::Char('q'), KeyModifiers::NONE)), Some(QuitReason::Quit));
}

#[test]
fn quit_key_quits_whatever_is_held() {
    assert_eq!(quit_reason(&key(KeyCode::Char('q'), KeyModifiers::CONTROL)), Some(QuitReason::Quit));
    assert_eq!(quit_reason(&key(KeyCode::Char('q'), KeyModifiers::ALT)), Some(QuitReason::Quit));
}

#[test]
fn control_c_quits() {
    assert_eq!(quit_reason(&key(KeyCode::Char('c'), KeyModifiers::CONTROL)), Some(QuitReason::Quit));
}

#[test]
fn control_c_quits_with_further_modifiers() {
    let held = KeyModifiers::CONTROL | KeyModifiers::SHIFT | KeyModifiers::ALT;
    assert_eq!(quit_reason(&key(KeyCode::Char('c'), held)), Some(QuitReason::Quit));
    assert_eq!(quit_reason(&KeyPress { code: KeyCode::Char('c'), modifiers: 0xff }), Some(QuitReason::Quit));
}

#[test]
fn plain_c_does_not_quit() {
    assert_eq!(quit_reason(&key(KeyCode::Char('c'), KeyModifiers::NONE)), None);
    assert_eq!(quit_reason(&key(KeyCode::Char('c'), KeyModifiers::SHIFT)), None);
    assert_eq!(quit_reason(&key(KeyCode::Char('c'), KeyModifiers::ALT | KeyModifiers::SUPER)), None);
    assert_eq!(quit_reason(&KeyPress { code: KeyCode::Char('c'), modifiers: 0xfd }), None);
}

#[test]
fn control_is_told_from_every_other_modifier_byte() {
    for modifiers in 0..=255u8 {
        let expected = if modifiers & 0x02 != 0 { Some(QuitReason::Quit) } else { None };
        assert_eq!(quit_reason(&KeyPress { code: KeyCode::Char('c'), modifiers }), expected);
    }
}

#[test]
fn other_keys_do_not_quit() {
    assert_eq!(quit_reason(&key(KeyCode::Char('Q'), KeyModifiers::NONE)), None);
    assert_eq!(quit_reason(&key(KeyCode::Char('C'), KeyModifiers::CONTROL)), None);
    assert_eq!(quit_reason(&key(KeyCode::Char('x'), KeyModifiers::CONTROL)), None);
    assert_eq!(quit_reason(&key(KeyCode::Other, KeyModifiers::CONTROL)), None);
    assert_eq!(quit_reason(&key(KeyCode::Other, KeyModifiers::NONE)), None);
}

#[test]
fn poll_without_a_key_is_no_signal() {
    assert_eq!(poll_result(None), None);
}

#[test]
fn poll_with_a_key_follows_the_key() {
    assert_eq!(poll_result(Some(key(KeyCode::Char('q'), KeyModifiers::NONE))), Some(QuitReason::Quit));
    assert_eq!(poll_result(Some(key(KeyCode::Char('c'), KeyModifiers::CONTROL))), Some(QuitReason::Quit));
    assert_eq!(poll_result(Some(key(KeyCode::Char('a'), KeyModifiers::NONE))), None);
}
