use x11lock::input::{classify_key, AuthFeedback, Input, Key, KeyOutcome, LockState};
use x11lock::keysyms::{
    is_ctrl_alt_key, is_printable_ascii, keycode_to_keysym, KEY_BACKSPACE, KEY_DELETE, KEY_ENTER,
    KEY_ESCAPE, KEY_KP_ENTER, KEY_U, MOD_ALT, MOD_CONTROL, MOD_SHIFT,
};

const CTRL_ALT: u16 = MOD_CONTROL | MOD_ALT;

fn type_text(input: &mut Input, text: &str) {
    for c in text.chars() {
        assert_eq!(input.handle_key_press(c as u32, 0), KeyOutcome::Redraw);
    }
}

#[test]
fn ctrl_alt_needs_both_modifiers_and_the_key() {
    assert!(is_ctrl_alt_key(0xc, 0x75, 0x75));
    assert!(is_ctrl_alt_key(0xffff, 0x75, 0x75));
    assert!(!is_ctrl_alt_key(0x4, 0x75, 0x75));
    assert!(!is_ctrl_alt_key(0x8, 0x75, 0x75));
    assert!(!is_ctrl_alt_key(0xc, 0x76, 0x75));
    assert!(!is_ctrl_alt_key(0, 0x75, 0x75));
}

#[test]
fn printable_ascii_runs_from_space_to_tilde() {
    assert!(!is_printable_ascii(0x1f));
    assert!(is_printable_ascii(0x20));
    assert!(is_printable_ascii(0x41));
    assert!(is_printable_ascii(0x7e));
    assert!(!is_printable_ascii(0x7f));
    assert!(!is_printable_ascii(0xe9));
    assert!(!is_printable_ascii(KEY_ENTER));
}

#[test]
fn shift_selects_the_second_symbol() {
    assert_eq!(keycode_to_keysym(&vec![], 0), 0);
    assert_eq!(keycode_to_keysym(&vec![], MOD_SHIFT), 0);
    assert_eq!(keycode_to_keysym(&vec![0x61], MOD_SHIFT), 0x61);
    assert_eq!(keycode_to_keysym(&vec![0x61, 0x41], 0), 0x61);
    assert_eq!(keycode_to_keysym(&vec![0x61, 0x41], MOD_SHIFT), 0x41);
    assert_eq!(keycode_to_keysym(&vec![0x61, 0x41], MOD_CONTROL), 0x61);
    assert_eq!(keycode_to_keysym(&vec![0x61, 0x41, 0x62], 0x5), 0x41);
}

#[test]
fn keys_mean_what_they_should() {
    assert_eq!(classify_key(KEY_ENTER, 0), Key::Submit);
    assert_eq!(classify_key(KEY_KP_ENTER, CTRL_ALT), Key::Submit);
    assert_eq!(classify_key(KEY_BACKSPACE, 0), Key::Erase);
    assert_eq!(classify_key(KEY_DELETE, 0), Key::Erase);
    assert_eq!(classify_key(KEY_ESCAPE, 0), Key::Wipe);
    assert_eq!(classify_key(KEY_U, CTRL_ALT), Key::Clear);
    assert_eq!(classify_key(KEY_U, MOD_CONTROL), Key::Type('u'));
    assert_eq!(classify_key(KEY_U, MOD_ALT), Key::Type('u'));
    assert_eq!(classify_key(0x55, CTRL_ALT), Key::Type('U'));
    assert_eq!(classify_key(0x7e, 0), Key::Type('~'));
    assert_eq!(classify_key(0x7f, 0), Key::Ignore);
    assert_eq!(classify_key(0xffe1, 0), Key::Ignore);
    assert_eq!(classify_key(0, 0), Key::Ignore);
}

#[test]
fn new_prompt_is_idle() {
    let input = Input::new();
    assert_eq!(input.state(), LockState::Idle);
    assert_eq!(input.auth_feedback(), AuthFeedback::Nothing);
    assert_eq!(input.auth_message(), None);
    assert_eq!(input.password_len(), 0);
}

#[test]
fn typed_text_is_submitted_and_wiped() {
    let mut input = Input::new();
    type_text(&mut input, "s3cret ~!");
    assert_eq!(input.state(), LockState::Typing);
    assert_eq!(input.password_len(), 9);
    assert_eq!(input.handle_key_press(KEY_ENTER, 0), KeyOutcome::Submit);
    assert_eq!(input.password_len(), 9);
    assert_eq!(input.submit(), "s3cret ~!");
    assert_eq!(input.password_len(), 0);
    assert_eq!(input.submit(), "");
}

#[test]
fn backspace_takes_the_last_character_back() {
    let mut input = Input::new();
    type_text(&mut input, "ab");
    assert_eq!(input.handle_key_press(KEY_BACKSPACE, 0), KeyOutcome::Redraw);
    assert_eq!(input.state(), LockState::Typing);
    assert_eq!(input.password_len(), 1);
    type_text(&mut input, "c");
    assert_eq!(input.handle_key_press(KEY_DELETE, 0), KeyOutcome::Redraw);
    assert_eq!(input.submit(), "a");
}

#[test]
fn backspace_to_the_start_is_idle() {
    let mut input = Input::new();
    type_text(&mut input, "a");
    input.handle_key_press(KEY_BACKSPACE, 0);
    assert_eq!(input.state(), LockState::Idle);
    assert_eq!(input.handle_key_press(KEY_BACKSPACE, 0), KeyOutcome::Redraw);
    assert_eq!(input.state(), LockState::Idle);
    assert_eq!(input.password_len(), 0);
}

#[test]
fn escape_and_ctrl_alt_u_clear() {
    for (keysym, modifiers) in [(KEY_ESCAPE, 0), (KEY_U, CTRL_ALT)] {
        let mut input = Input::new();
        type_text(&mut input, "abc");
        assert_eq!(input.handle_key_press(keysym, modifiers), KeyOutcome::Redraw);
        assert_eq!(input.state(), LockState::Idle);
        assert_eq!(input.password_len(), 0);
        assert_eq!(input.submit(), "");
    }
}

#[test]
fn unknown_keys_change_nothing() {
    let mut input = Input::new();
    type_text(&mut input, "abc");
    assert_eq!(input.handle_key_press(0xffe1, 0), KeyOutcome::Ignore);
    assert_eq!(input.handle_key_press(0xe9, 0), KeyOutcome::Ignore);
    assert_eq!(input.state(), LockState::Typing);
    assert_eq!(input.submit(), "abc");
}

#[test]
fn refusal_is_shown_until_the_next_edit() {
    for keysym in [KEY_BACKSPACE, KEY_ESCAPE, 0x61] {
        let mut input = Input::new();
        input.refuse("wrong".to_string());
        assert_eq!(input.state(), LockState::Error);
        assert_eq!(input.auth_feedback(), AuthFeedback::Message);
        assert_eq!(input.auth_message(), Some("wrong"));
        assert_eq!(input.handle_key_press(0xffe1, 0), KeyOutcome::Ignore);
        assert_eq!(input.auth_message(), Some("wrong"));
        assert_eq!(input.handle_key_press(keysym, 0), KeyOutcome::Redraw);
        assert_eq!(input.auth_feedback(), AuthFeedback::Nothing);
        assert_eq!(input.auth_message(), None);
        assert_ne!(input.state(), LockState::Error);
    }
}
