use x11lock::auth::AuthResult;
use x11lock::grab::{
    grab_request, Device, GrabAction, GrabEvent, GrabInput, GrabMode, GrabRequest,
};
use x11lock::input::LockState;
use x11lock::locker::{
    poll_timeout, time_until_next_render, Action, Ending, Event, Locker, XEvent,
};
use x11lock::monitor::Monitor;
use x11lock::render::{
    Background, BlitResources, EmptyWallpaper, Extent, ImageSize, Offset, Scale,
};
use x11lock::window::{create_lock_window, XRequest};

const SECOND: u128 = 1_000_000_000;
const EXTENT: Extent = Extent { width: 10, height: 10 };

/// A locker with one window, ready to be drawn.
fn locker() -> Locker {
    let mut locker = Locker::new();
    let monitor = Monitor { x: 0, y: 0, width: 640, height: 480 };
    locker.add_window(5, &create_lock_window(&monitor));
    locker.init_cursor(Some(6));
    let resources = vec![BlitResources { pixmap: 7, gc: 8 }];
    assert_eq!(locker.load_background(&resources, None), Ok(()));
    locker
}

/// A locker that waits for the next report of the server.
fn draining() -> Locker {
    let mut locker = locker();
    assert_eq!(locker.run_loop(), Action::Render);
    assert_eq!(locker.step(Event::Rendered), Some(Action::CheckTermination));
    assert_eq!(locker.step(Event::Termination(false)), Some(Action::MeasureElapsed));
    assert_eq!(locker.step(Event::Elapsed(SECOND)), Some(Action::PollEvent));
    locker
}

fn press(locker: &mut Locker, keysym: u32, modifiers: u16) -> Option<Action> {
    let key = XEvent::KeyPress { keycode: 38, modifiers };
    assert_eq!(locker.step(Event::Pending(Some(key))), Some(Action::QueryMapping(38)));
    locker.step(Event::Mapping(vec![keysym]))
}

fn type_text(locker: &mut Locker, text: &str) {
    for c in text.chars() {
        assert_eq!(press(locker, c as u32, 0), Some(Action::Render));
        assert_eq!(locker.step(Event::Rendered), Some(Action::PollEvent));
    }
}

#[test]
fn right_password_unlocks() {
    let mut locker = draining();
    type_text(&mut locker, "open sesame");
    assert_eq!(locker.input().state(), LockState::Typing);
    assert_eq!(press(&mut locker, 0xff0d, 0), Some(Action::Authenticate));
    assert_eq!(locker.submitted_password(), "open sesame");
    assert_eq!(locker.input().password_len(), 0);
    assert_eq!(
        locker.step(Event::Authenticated(AuthResult::Success)),
        Some(Action::Exit(Ending::Unlocked))
    );
    assert_eq!(locker.submitted_password(), "");
    assert_eq!(locker.step(Event::Rendered), None);
}

#[test]
fn wrong_password_stays_locked() {
    let mut locker = draining();
    type_text(&mut locker, "guess");
    assert_eq!(press(&mut locker, 0xff8d, 0), Some(Action::Authenticate));
    let refusal = AuthResult::Failure("try again".to_string());
    assert_eq!(locker.step(Event::Authenticated(refusal)), Some(Action::Render));
    assert_eq!(locker.submitted_password(), "");
    assert_eq!(locker.input().state(), LockState::Error);
    assert_eq!(locker.fail_text(), Some("try again"));
    assert_eq!(locker.render_frame(0, EXTENT, EXTENT, EXTENT).unwrap().len(), 7);
    assert_eq!(locker.step(Event::Rendered), Some(Action::PollEvent));
    type_text(&mut locker, "x");
    assert_eq!(locker.input().state(), LockState::Typing);
    assert_eq!(locker.fail_text(), None);
    assert_eq!(locker.render_frame(0, EXTENT, EXTENT, EXTENT).unwrap().len(), 7);
}

#[test]
fn empty_password_is_tried_too() {
    let mut locker = draining();
    assert_eq!(press(&mut locker, 0xff0d, 0), Some(Action::Authenticate));
    assert_eq!(locker.submitted_password(), "");
}

#[test]
fn pam_that_cannot_be_asked_ends_the_loop() {
    let mut locker = draining();
    type_text(&mut locker, "secret");
    press(&mut locker, 0xff0d, 0);
    assert_eq!(locker.step(Event::AuthError), Some(Action::Exit(Ending::AuthFailed)));
    assert_eq!(locker.submitted_password(), "");
    assert_eq!(locker.input().password_len(), 0);
}

#[test]
fn shift_is_honoured() {
    let mut locker = draining();
    let key = XEvent::KeyPress { keycode: 38, modifiers: 1 };
    locker.step(Event::Pending(Some(key)));
    assert_eq!(locker.step(Event::Mapping(vec![0x61, 0x41])), Some(Action::Render));
    locker.step(Event::Rendered);
    press(&mut locker, 0xff0d, 0);
    assert_eq!(locker.submitted_password(), "A");
}

#[test]
fn keys_without_symbols_are_ignored() {
    let mut locker = draining();
    let key = XEvent::KeyPress { keycode: 38, modifiers: 0 };
    locker.step(Event::Pending(Some(key)));
    assert_eq!(locker.step(Event::Mapping(vec![])), Some(Action::PollEvent));
    assert_eq!(press(&mut locker, 0xffe1, 0), Some(Action::PollEvent));
    assert_eq!(locker.input().state(), LockState::Idle);
}

#[test]
fn exposure_is_drawn_and_buttons_are_ignored() {
    let mut locker = draining();
    assert_eq!(locker.step(Event::Pending(Some(XEvent::ButtonPress))), Some(Action::PollEvent));
    assert_eq!(locker.step(Event::Pending(Some(XEvent::Other))), Some(Action::PollEvent));
    assert_eq!(locker.step(Event::Pending(Some(XEvent::Expose))), Some(Action::Render));
    assert_eq!(locker.step(Event::Rendered), Some(Action::PollEvent));
}

#[test]
fn signals_end_the_loop() {
    let mut locker = locker();
    locker.run_loop();
    locker.step(Event::Rendered);
    assert_eq!(locker.step(Event::Termination(true)), Some(Action::Exit(Ending::Terminated)));
}

#[test]
fn old_frames_are_drawn_again() {
    let mut locker = locker();
    locker.run_loop();
    locker.step(Event::Rendered);
    locker.step(Event::Termination(false));
    assert_eq!(locker.step(Event::Elapsed(60 * SECOND)), Some(Action::Render));
    assert_eq!(locker.step(Event::Rendered), Some(Action::PollEvent));
    assert_eq!(locker.step(Event::Pending(None)), Some(Action::MeasureElapsed));
    assert_eq!(locker.step(Event::Elapsed(60 * SECOND)), Some(Action::CheckTermination));
}

#[test]
fn loop_waits_when_nothing_is_due() {
    let mut locker = draining();
    assert_eq!(locker.step(Event::Pending(None)), Some(Action::MeasureElapsed));
    assert_eq!(locker.step(Event::Elapsed(SECOND)), Some(Action::MeasureElapsed));
    assert_eq!(locker.step(Event::Elapsed(2 * SECOND + 1)), Some(Action::Wait(57_999)));
    assert_eq!(
        locker.step(Event::Woken { result: 1, interrupted: false }),
        Some(Action::CheckTermination)
    );
}

#[test]
fn frame_that_falls_due_while_measured_is_not_waited_for() {
    let mut locker = draining();
    locker.step(Event::Pending(None));
    assert_eq!(locker.step(Event::Elapsed(60 * SECOND - 1)), Some(Action::MeasureElapsed));
    assert_eq!(locker.step(Event::Elapsed(60 * SECOND + 1)), Some(Action::Wait(0)));
    let woken = Event::Woken { result: 0, interrupted: false };
    assert_eq!(locker.step(woken), Some(Action::CheckTermination));
    assert_eq!(locker.step(Event::Termination(false)), Some(Action::MeasureElapsed));
    assert_eq!(locker.step(Event::Elapsed(60 * SECOND + 2)), Some(Action::Render));
}

#[test]
fn interrupted_waits_go_on_and_failed_ones_do_not() {
    let waiting = || {
        let mut locker = draining();
        locker.step(Event::Pending(None));
        locker.step(Event::Elapsed(0));
        assert_eq!(locker.step(Event::Elapsed(0)), Some(Action::Wait(60_000)));
        locker
    };
    assert_eq!(
        waiting().step(Event::Woken { result: -1, interrupted: true }),
        Some(Action::CheckTermination)
    );
    assert_eq!(
        waiting().step(Event::Woken { result: 0, interrupted: false }),
        Some(Action::CheckTermination)
    );
    assert_eq!(
        waiting().step(Event::Woken { result: -1, interrupted: false }),
        Some(Action::Exit(Ending::WaitFailed))
    );
}

#[test]
fn timeouts() {
    assert_eq!(time_until_next_render(0), Some(60 * SECOND));
    assert_eq!(time_until_next_render(60 * SECOND), Some(0));
    assert_eq!(time_until_next_render(60 * SECOND + 1), None);
    assert_eq!(poll_timeout(0), 60_000);
    assert_eq!(poll_timeout(1), 59_999);
    assert_eq!(poll_timeout(60 * SECOND - 1), 0);
    assert_eq!(poll_timeout(60 * SECOND), 0);
    assert_eq!(poll_timeout(60 * SECOND + 1), 0);
    assert_eq!(poll_timeout(u128::MAX), 0);
}

#[test]
fn events_out_of_order_are_refused() {
    let mut locker = draining();
    type_text(&mut locker, "ab");
    assert_eq!(locker.step(Event::Rendered), None);
    assert_eq!(locker.step(Event::Authenticated(AuthResult::Success)), None);
    assert_eq!(locker.step(Event::Mapping(vec![0x61])), None);
    assert_eq!(locker.step(Event::Elapsed(0)), None);
    assert_eq!(locker.input().password_len(), 2);
    assert_eq!(locker.step(Event::Pending(None)), Some(Action::MeasureElapsed));
}

#[test]
fn locker_without_background_draws_nothing() {
    let mut locker = Locker::new();
    assert_eq!(locker.run_loop(), Action::CheckTermination);
    assert!(locker.render_frame(0, EXTENT, EXTENT, EXTENT).is_none());
    assert_eq!(locker.canvas(0), None);
}

#[test]
fn keys_are_handled_without_background() {
    let mut locker = Locker::new();
    assert_eq!(locker.run_loop(), Action::CheckTermination);
    assert_eq!(locker.step(Event::Termination(false)), Some(Action::MeasureElapsed));
    assert_eq!(locker.step(Event::Elapsed(SECOND)), Some(Action::PollEvent));
    for c in "blind".chars() {
        assert_eq!(press(&mut locker, c as u32, 0), Some(Action::PollEvent));
    }
    assert_eq!(locker.input().password_len(), 5);
    assert_eq!(press(&mut locker, 0xff0d, 0), Some(Action::Authenticate));
    assert_eq!(locker.submitted_password(), "blind");
}

#[test]
fn loop_can_be_started_again() {
    let mut locker = draining();
    type_text(&mut locker, "ab");
    assert_eq!(locker.run_loop(), Action::Render);
    assert_eq!(locker.input().state(), LockState::Typing);
    assert_eq!(locker.input().password_len(), 2);
    assert_eq!(locker.submitted_password(), "");
}

#[test]
fn windows_of_a_locker() {
    let locker = locker();
    assert_eq!(locker.windows().len(), 1);
    assert_eq!(locker.windows()[0].width, 640);
    assert_eq!(locker.cursor(), Some(6));
    assert_eq!(locker.grab_window(99), 5);
    assert_eq!(Locker::new().grab_window(99), 99);
    assert_eq!(
        locker.map_windows(),
        vec![XRequest::MapWindow(5), XRequest::RaiseWindow(5), XRequest::Flush]
    );
    assert_eq!(
        locker.destroy_windows(),
        vec![XRequest::DestroyWindow(5), XRequest::FreeCursor(6), XRequest::Flush]
    );
}

#[test]
fn wallpaper_of_a_locker() {
    let mut locker = locker();
    let resources = vec![BlitResources { pixmap: 1, gc: 2 }];
    let empty = Some(ImageSize { width: 0, height: 0 });
    assert_eq!(locker.load_background(&resources, empty), Err(EmptyWallpaper));
    assert_eq!(locker.canvas(0).unwrap().pixmap, 7);
    let image = Some(ImageSize { width: 64, height: 64 });
    assert_eq!(locker.load_background(&resources, image), Ok(()));
    let canvas = locker.canvas(0).unwrap();
    assert_eq!(canvas.pixmap, 1);
    assert_eq!(
        canvas.background,
        Some(Background {
            scale: Scale { numerator: 640, denominator: 64 },
            offset: Offset { x: 0, y: -10240, denominator: 128 },
        })
    );
    assert!(locker.render_frame(0, EXTENT, EXTENT, EXTENT).is_some());
    assert!(locker.render_frame(1, EXTENT, EXTENT, EXTENT).is_none());
}

#[test]
fn frames_show_one_dot_per_character() {
    let mut locker = draining();
    let before = locker.render_frame(0, EXTENT, EXTENT, EXTENT).unwrap().len();
    type_text(&mut locker, "abcd");
    let one = locker.render_frame(0, EXTENT, EXTENT, EXTENT).unwrap();
    assert_eq!(one.len(), before + 4);
    let mut other = draining();
    type_text(&mut other, "~ !9");
    assert_eq!(one, other.render_frame(0, EXTENT, EXTENT, EXTENT).unwrap());
}

#[test]
fn both_devices_are_grabbed() {
    let (mut grab, action) = GrabInput::grab_input();
    assert_eq!(action, GrabAction::Grab(Device::Keyboard));
    assert_eq!(grab.step(GrabEvent::Rested), None);
    assert_eq!(grab.step(GrabEvent::Reply(0)), Some(GrabAction::Grab(Device::Pointer)));
    assert_eq!(grab.step(GrabEvent::Reply(1)), Some(GrabAction::Sleep(50)));
    assert_eq!(grab.step(GrabEvent::Reply(0)), None);
    assert_eq!(grab.step(GrabEvent::Rested), Some(GrabAction::Grab(Device::Pointer)));
    assert_eq!(grab.step(GrabEvent::Reply(0)), Some(GrabAction::Done));
    assert_eq!(grab.step(GrabEvent::Reply(0)), None);
}

#[test]
fn grab_requests() {
    let keyboard = GrabRequest {
        device: Device::Keyboard,
        owner_events: true,
        window: 5,
        pointer_mode: GrabMode::Async,
        keyboard_mode: GrabMode::Async,
        event_mask: 0,
        confine_to: None,
        cursor: None,
    };
    let pointer = GrabRequest {
        device: Device::Pointer,
        event_mask: 0x4c,
        cursor: Some(6),
        ..keyboard
    };
    assert_eq!(grab_request(Device::Keyboard, 5, Some(6)), keyboard);
    assert_eq!(grab_request(Device::Pointer, 5, Some(6)), pointer);
    assert_eq!(
        grab_request(Device::Pointer, 5, None),
        GrabRequest { cursor: None, ..pointer }
    );
}

#[test]
fn tenth_refusal_is_the_last() {
    for device in [Device::Keyboard, Device::Pointer] {
        let (mut grab, _) = GrabInput::grab_input();
        if device == Device::Pointer {
            grab.step(GrabEvent::Reply(0));
        }
        for _ in 0..9 {
            assert_eq!(grab.step(GrabEvent::Reply(3)), Some(GrabAction::Sleep(50)));
            assert_eq!(grab.step(GrabEvent::Rested), Some(GrabAction::Grab(device)));
        }
        assert_eq!(
            grab.step(GrabEvent::Reply(4)),
            Some(GrabAction::Failed { device, attempts: 10, status: 4 })
        );
        assert_eq!(grab.step(GrabEvent::Rested), None);
    }
}

#[test]
fn tenth_attempt_can_succeed() {
    let (mut grab, _) = GrabInput::grab_input();
    for _ in 0..9 {
        grab.step(GrabEvent::Reply(1));
        grab.step(GrabEvent::Rested);
    }
    assert_eq!(grab.step(GrabEvent::Reply(0)), Some(GrabAction::Grab(Device::Pointer)));
}
