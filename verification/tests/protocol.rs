use x11lock::auth::ConvError;
use x11lock::auth::PasswordConv;
use x11lock::grab::GRAB_SUCCESS;
use x11lock::keysyms::{MOD_ALT, MOD_CONTROL, MOD_SHIFT};
use x11lock::window::{
    EVENT_BUTTON_PRESS, EVENT_BUTTON_RELEASE, EVENT_EXPOSURE, EVENT_KEY_PRESS, EVENT_POINTER_MOTION,
};
use x11rb::protocol::xproto::{EventMask, GrabStatus, KeyButMask};

#[test]
fn event_masks_are_those_of_the_protocol() {
    assert_eq!(EVENT_KEY_PRESS, u32::from(EventMask::KEY_PRESS));
    assert_eq!(EVENT_BUTTON_PRESS, u32::from(EventMask::BUTTON_PRESS));
    assert_eq!(EVENT_BUTTON_RELEASE, u32::from(EventMask::BUTTON_RELEASE));
    assert_eq!(EVENT_POINTER_MOTION, u32::from(EventMask::POINTER_MOTION));
    assert_eq!(EVENT_EXPOSURE, u32::from(EventMask::EXPOSURE));
}

#[test]
fn modifiers_are_those_of_the_protocol() {
    assert_eq!(MOD_SHIFT, u16::from(KeyButMask::SHIFT));
    assert_eq!(MOD_CONTROL, u16::from(KeyButMask::CONTROL));
    assert_eq!(MOD_ALT, u16::from(KeyButMask::MOD1));
}

#[test]
fn grab_status_is_that_of_the_protocol() {
    assert_eq!(GRAB_SUCCESS, u8::from(GrabStatus::SUCCESS));
    assert_ne!(GRAB_SUCCESS, u8::from(GrabStatus::ALREADY_GRABBED));
}

#[test]
fn replies_are_refused_where_c_strings_are() {
    for text in ["", "abc", "\0", "a\0b", "gr\u{fc}n", "\u{100}"] {
        let conv = PasswordConv::new(text.to_string(), text);
        let expected = if text.as_bytes().contains(&0) { Err(ConvError) } else { Ok(text) };
        assert_eq!(conv.prompt_echo_on(), expected);
        assert_eq!(conv.prompt_echo_off(), expected);
    }
}
