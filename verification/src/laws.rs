//! What holds of the locker as a whole. What each of its operations does, said of
//! what goes in and what comes out, stands in the modules below.
#![allow(unused_imports)]
use vstd::prelude::*;

pub mod frames;
pub mod keys;
pub mod login;
pub mod screen;
pub mod turns;

use crate::auth;
use crate::auth::AuthResult;
use crate::grab;
use crate::grab::{Device, GrabAction, GrabEvent, GrabPhase};
use crate::input;
use crate::input::{InputView, Key, LockState};
use crate::keysyms;
use crate::locker;
use crate::locker::{Action, Ending, Event, LockerView, Phase, Resume, XEvent};
use crate::monitor;
use crate::monitor::{CrtcInfo, ScreenSize};
use crate::render;
use crate::render::{Color, DrawOp, Extent, FrameContent, ImageSize, PromptBox};
use crate::text;
use crate::window;
use crate::window::{LockWindow, XRequest};

verus! {

/// Whatever key is pressed, the prompt stays settled: it shows typing exactly
/// while it holds something, shows a message exactly after a refusal, and holds
/// only printable ASCII.
pub proof fn law_keys_keep_prompt_settled(prompt: InputView, keysym: u32, modifiers: u16)
    requires
        prompt.settled(),
    ensures
        prompt.after_key(input::key_meaning(keysym, modifiers)).settled(),
{
}

/// Erasing takes back the character that was typed last. The prompt is the same
/// as before, but for a refusal that typing took off the screen.
pub proof fn law_erase_undoes_typing(prompt: InputView, c: char)
    ensures
        prompt.after_key(Key::Type(c)).after_key(Key::Erase) == input::prompt(prompt.password),
        prompt.settled() && !(prompt.state is Error) ==> prompt.after_key(Key::Type(c)).after_key(
            Key::Erase,
        ) == prompt,
{
    assert(prompt.password.push(c).drop_last() =~= prompt.password);
}

/// Escape and Ctrl+Alt+U do the same: they empty the prompt and reset its look.
/// Without Control or without Alt the letter is typed.
pub proof fn law_clearing_keys(prompt: InputView, modifiers: u16)
    ensures
        prompt.after_key(input::key_meaning(keysyms::KEY_ESCAPE, modifiers)) == input::prompt(
            Seq::empty(),
        ),
        keysyms::held(modifiers, keysyms::MOD_CONTROL) && keysyms::held(
            modifiers,
            keysyms::MOD_ALT,
        ) ==> prompt.after_key(input::key_meaning(keysyms::KEY_U, modifiers)) == input::prompt(
            Seq::empty(),
        ),
        !(keysyms::held(modifiers, keysyms::MOD_CONTROL) && keysyms::held(
            modifiers,
            keysyms::MOD_ALT,
        )) ==> input::key_meaning(keysyms::KEY_U, modifiers) == Key::Type('u'),
{
}

/// Delete erases as Backspace does, and Enter of the keypad submits as Return
/// does.
pub proof fn law_twin_keys(modifiers: u16)
    ensures
        input::key_meaning(keysyms::KEY_DELETE, modifiers) == input::key_meaning(
            keysyms::KEY_BACKSPACE,
            modifiers,
        ),
        input::key_meaning(keysyms::KEY_KP_ENTER, modifiers) == input::key_meaning(
            keysyms::KEY_ENTER,
            modifiers,
        ),
{
}

/// Whether keys type a text, character by character.
pub open spec fn keys_type(keys: Seq<Key>, text: Seq<char>) -> bool {
    &&& keys.len() == text.len()
    &&& forall|i: int| 0 <= i < text.len() ==> #[trigger] keys[i] == Key::Type(text[i])
}

/// Typing a text appends it to the password.
pub proof fn law_typing_appends(prompt: InputView, keys: Seq<Key>, text: Seq<char>)
    requires
        keys_type(keys, text),
    ensures
        prompt.after_keys(keys).password == prompt.password + text,
        text.len() > 0 ==> prompt.after_keys(keys) == input::prompt(prompt.password + text),
    decreases text.len(),
{
    if text.len() == 0 {
        assert(prompt.password + text =~= prompt.password);
    } else {
        law_typing_appends(prompt, keys.drop_last(), text.drop_last());
        assert(keys.last() == Key::Type(text.last()));
        assert((prompt.password + text.drop_last()).push(text.last()) =~= prompt.password + text);
    }
}

/// Erasing several times takes that many characters off the end, as far as there
/// are any.
pub proof fn law_erasing_shortens(prompt: InputView, times: nat)
    ensures
        prompt.after_keys(Seq::new(times, |i: int| Key::Erase)).password == prompt.password.take(
            if times <= prompt.password.len() {
                prompt.password.len() - times
            } else {
                0
            },
        ),
    decreases times,
{
    let keys = Seq::new(times, |i: int| Key::Erase);
    if times == 0 {
        assert(prompt.password.take(prompt.password.len() as int) =~= prompt.password);
    } else {
        let fewer = (times - 1) as nat;
        law_erasing_shortens(prompt, fewer);
        assert(keys.drop_last() =~= Seq::new(fewer, |i: int| Key::Erase));
        let before = prompt.after_keys(keys.drop_last()).password;
        if before.len() > 0 {
            assert(before.drop_last() =~= prompt.password.take(prompt.password.len() - times));
        }
    }
}

/// The prompt shows one dot for each character that was typed: every character
/// that can be typed is one byte long.
pub proof fn law_one_dot_per_character(prompt: InputView)
    requires
        prompt.sound(),
    ensures
        vstd::utf8::encode_utf8(prompt.password).len() == prompt.password.len(),
{
    assert(vstd::utf8::is_ascii_chars(prompt.password));
    vstd::utf8::is_ascii_chars_encode_utf8(prompt.password);
}

/// A new locker is sound, and starting its loop keeps it so.
pub proof fn law_start_is_sound(locker: LockerView)
    requires
        locker.input == input::prompt(Seq::empty()),
        locker.submitted.len() == 0,
        locker.phase is Created,
    ensures
        locker.sound(),
        locker.draw(Resume::Turn).0.sound(),
{
}

/// Starting the loop keeps a locker sound in every phase but two: while PAM is
/// asked, and once the loop has ended.
pub proof fn law_starting_keeps_locker_sound(locker: LockerView)
    requires
        locker.sound(),
        !(locker.phase is Authenticating),
        !(locker.phase is Finished),
    ensures
        locker.draw(Resume::Turn).0.sound(),
{
}

/// Whatever event comes, a sound locker stays sound, and its windows, their
/// cursor and what they are drawn with stay the same.
pub proof fn law_steps_keep_locker_sound(locker: LockerView, event: Event)
    requires
        locker.sound(),
    ensures
        locker.after(event) matches Some((next, _)) ==> next.sound() && next.windows
            == locker.windows && next.cursor == locker.cursor && next.canvases == locker.canvases,
{
}

/// However long the loop runs, a sound locker stays sound.
pub proof fn law_runs_keep_locker_sound(locker: LockerView, events: Seq<Event>)
    requires
        locker.sound(),
    ensures
        locker.after_all(events).sound(),
        locker.after_all(events).windows == locker.windows,
    decreases events.len(),
{
    if events.len() > 0 {
        law_runs_keep_locker_sound(locker, events.drop_last());
        law_steps_keep_locker_sound(locker.after_all(events.drop_last()), events.last());
    }
}

/// The locker unlocks exactly when PAM, asked about a submitted password, says
/// that the login succeeded.
pub proof fn law_only_success_unlocks(locker: LockerView, event: Event)
    ensures
        (locker.after(event) matches Some((_, action)) && action == Action::Exit(Ending::Unlocked))
            <==> (locker.phase is Authenticating && event == Event::Authenticated(
            AuthResult::Success,
        )),
{
}

/// Besides, the loop ends only when a signal asked for it, when waiting for the
/// server failed without being interrupted, and when PAM could not be asked.
pub proof fn law_endings(locker: LockerView, event: Event)
    ensures
        (locker.after(event) matches Some((_, action)) && action == Action::Exit(
            Ending::Terminated,
        )) <==> (locker.phase is Turning && event == Event::Termination(true)),
        (locker.after(event) matches Some((_, action)) && action == Action::Exit(
            Ending::WaitFailed,
        )) <==> (locker.phase is Waiting && (event matches Event::Woken { result, interrupted }
            && result < 0 && !interrupted)),
        (locker.after(event) matches Some((_, action)) && action == Action::Exit(
            Ending::AuthFailed,
        )) <==> (locker.phase is Authenticating && event is AuthError),
{
}

/// A run in which PAM never grants a login never unlocks the locker: no event of
/// it leads out of the loop that way.
pub proof fn law_no_success_no_unlock(locker: LockerView, events: Seq<Event>, i: int)
    requires
        0 <= i < events.len(),
        forall|k: int|
            0 <= k < events.len() ==> #[trigger] events[k] != Event::Authenticated(
                AuthResult::Success,
            ),
    ensures
        !(locker.after_all(events.take(i)).after(events[i]) matches Some((_, action)) && action
            == Action::Exit(Ending::Unlocked)),
{
    law_only_success_unlocks(locker.after_all(events.take(i)), events[i]);
}

/// A refused login leaves the locker locked: the prompt is empty, shows the
/// reason, and is drawn if it can be.
pub proof fn law_refusal_stays_locked(locker: LockerView, message: String)
    requires
        locker.sound(),
        locker.phase is Authenticating,
    ensures
        locker.after(Event::Authenticated(AuthResult::Failure(message))) matches Some((next, action))
            && !(action is Exit) && next.input.password.len() == 0 && next.input.state is Error
            && render::failure_text(next.input.feedback, next.input.message) == Some(message@) && (
        locker.canvases is Some ==> action is Render),
{
}

/// The loop asks for one action at a time: an event is taken exactly when it
/// answers the action under way, and what follows is under way next.
pub proof fn law_events_answer_actions(locker: LockerView, pending: Action, event: Event)
    requires
        locker::pending_action(locker.phase, pending),
    ensures
        locker.after(event) is Some <==> locker::answers(event, pending),
        locker.after(event) matches Some((next, action)) ==> locker::pending_action(
            next.phase,
            action,
        ),
{
}

/// Enter hands PAM the whole password of the prompt, and leaves none there.
pub proof fn law_enter_submits_password(locker: LockerView, modifiers: u16, mapping: Vec<u32>)
    requires
        locker.phase == (Phase::Resolving { modifiers }),
        keysyms::key_symbol(mapping@, modifiers) == keysyms::KEY_ENTER
            || keysyms::key_symbol(mapping@, modifiers) == keysyms::KEY_KP_ENTER,
    ensures
        locker.after(Event::Mapping(mapping)) matches Some((next, action)) && action
            == Action::Authenticate && next.submitted == locker.input.password
            && next.input.password.len() == 0,
{
}

/// A key that is pressed: its number, the modifiers held, and its symbols.
pub struct Press {
    pub keycode: u8,
    pub modifiers: u16,
    pub mapping: Vec<u32>,
}

impl Press {
    /// What the key asks for.
    pub open spec fn key(self) -> Key {
        input::key_meaning(keysyms::key_symbol(self.mapping@, self.modifiers), self.modifiers)
    }

    /// The events of pressing the key: the report of the server, the symbols of
    /// the key, and the frame that is drawn, if one is.
    pub open spec fn events(self) -> Seq<Event> {
        seq![
            Event::Pending(
                Some(XEvent::KeyPress { keycode: self.keycode, modifiers: self.modifiers }),
            ),
            Event::Mapping(self.mapping),
            Event::Rendered,
        ]
    }
}

/// The events of pressing keys one after the other.
pub open spec fn all_events(presses: Seq<Press>) -> Seq<Event>
    decreases presses.len(),
{
    if presses.len() == 0 {
        Seq::empty()
    } else {
        all_events(presses.drop_last()) + presses.last().events()
    }
}

/// Events can be taken in two parts.
pub proof fn law_runs_compose(locker: LockerView, first: Seq<Event>, second: Seq<Event>)
    ensures
        locker.after_all(first + second) == locker.after_all(first).after_all(second),
    decreases second.len(),
{
    if second.len() == 0 {
        assert(first + second =~= first);
    } else {
        law_runs_compose(locker, first, second.drop_last());
        assert((first + second).drop_last() =~= first + second.drop_last());
    }
}

/// The events of a key press lead to the key being handled, and then past the
/// frame, if one is drawn.
proof fn lemma_press(locker: LockerView, press: Press)
    requires
        locker.phase is Draining,
    ensures
        ({
            let handled = locker.enter(Phase::Resolving { modifiers: press.modifiers }).handle_key(
                press.key(),
            ).0;
            locker.after_all(press.events()) == match handled.after(Event::Rendered) {
                Some((next, _)) => next,
                None => handled,
            }
        }),
{
    let events = press.events();
    let two = events.drop_last();
    let one = two.drop_last();
    assert(one.drop_last().len() == 0);
    assert(locker.after_all(one.drop_last()) == locker);
    assert(one.last() == events[0] && two.last() == events[1]);
    let resolving = locker.enter(Phase::Resolving { modifiers: press.modifiers });
    assert(locker.after_all(one) == resolving);
    assert(resolving.after(events[1]) == Some(resolving.handle_key(press.key())));
    assert(locker.after_all(two) == resolving.handle_key(press.key()).0);
    assert(events.last() == Event::Rendered);
}

/// Pressing a key other than Enter does to the prompt what the key asks for,
/// changes nothing else, and leaves the loop ready for the next report.
pub proof fn law_key_press(locker: LockerView, press: Press)
    requires
        locker.phase is Draining,
        !(press.key() is Submit),
    ensures
        locker.after_all(press.events()) == (LockerView {
            input: locker.input.after_key(press.key()),
            ..locker
        }),
{
    lemma_press(locker, press);
}

/// Whether key presses type a text, character by character.
pub open spec fn presses_type(presses: Seq<Press>, text: Seq<char>) -> bool {
    &&& presses.len() == text.len()
    &&& forall|i: int| 0 <= i < text.len() ==> (#[trigger] presses[i]).key() == Key::Type(text[i])
}

/// What is typed arrives in the prompt, in the order in which it is typed.
pub proof fn law_typed_text_arrives(locker: LockerView, presses: Seq<Press>, text: Seq<char>)
    requires
        locker.phase is Draining,
        presses_type(presses, text),
    ensures
        locker.after_all(all_events(presses)).input.password == locker.input.password + text,
        locker.after_all(all_events(presses)) == (LockerView {
            input: locker.after_all(all_events(presses)).input,
            ..locker
        }),
    decreases text.len(),
{
    if text.len() == 0 {
        assert(locker.input.password + text =~= locker.input.password);
    } else {
        let before = locker.after_all(all_events(presses.drop_last()));
        law_typed_text_arrives(locker, presses.drop_last(), text.drop_last());
        assert(presses.last().key() == Key::Type(text.last()));
        law_runs_compose(locker, all_events(presses.drop_last()), presses.last().events());
        law_key_press(before, presses.last());
        assert((locker.input.password + text.drop_last()).push(text.last())
            =~= locker.input.password + text);
    }
}

/// What is typed into an empty prompt and confirmed with Enter is the password
/// that PAM is asked about, character for character.
pub proof fn law_typed_password_reaches_pam(
    locker: LockerView,
    presses: Seq<Press>,
    text: Seq<char>,
    enter: Press,
)
    requires
        locker.phase is Draining,
        locker.input.password.len() == 0,
        presses_type(presses, text),
        enter.key() is Submit,
    ensures
        locker.after_all(all_events(presses.push(enter))).submitted == text,
        locker.after_all(all_events(presses.push(enter))).phase is Authenticating,
{
    let typed = locker.after_all(all_events(presses));
    law_typed_text_arrives(locker, presses, text);
    assert(locker.input.password + text =~= text);
    assert(presses.push(enter).drop_last() =~= presses);
    law_runs_compose(locker, all_events(presses), enter.events());
    lemma_press(typed, enter);
}

/// Once PAM has answered, or could not be asked, no password is left in the
/// locker.
pub proof fn law_password_is_forgotten(locker: LockerView, event: Event)
    requires
        locker.sound(),
        locker.phase is Authenticating,
    ensures
        locker.after(event) matches Some((next, _)) ==> next.submitted.len() == 0
            && next.input.password.len() == 0,
{
}

/// Only a resolved key and the end of a login change the prompt.
pub proof fn law_prompt_changes(locker: LockerView, event: Event)
    ensures
        locker.after(event) matches Some((next, _)) ==> next.input == locker.input || event
            is Mapping || event is Authenticated,
{
}

/// Every change of the prompt is drawn, except that the password has been
/// submitted.
pub proof fn law_prompt_changes_are_drawn(locker: LockerView, event: Event)
    requires
        locker.canvases is Some,
    ensures
        locker.after(event) matches Some((next, action)) ==> next.input == locker.input
            || action is Render || action is Authenticate,
{
}

/// A frame tells nothing of the password but its length: lockers that differ only
/// in the characters of their passwords look the same.
pub proof fn law_frames_hide_password(
    one: LockerView,
    other: LockerView,
    i: int,
    time: Extent,
    date: Extent,
    message: Extent,
)
    requires
        one.sound(),
        other.sound(),
        one.windows == other.windows,
        one.canvases == other.canvases,
        one.input.state == other.input.state,
        one.input.feedback == other.input.feedback,
        one.input.password.len() == other.input.password.len(),
    ensures
        one.content(i, time, date, message).ops() == other.content(i, time, date, message).ops(),
{
    law_one_dot_per_character(one.input);
    law_one_dot_per_character(other.input);
}

/// What is drawn of the prompt depends on the password only through its length: a
/// box with its border, then one dot for each byte, all alike but for their place,
/// and no text.
pub proof fn law_prompt_hides_password(
    center_x: u16,
    date_bottom: i64,
    state: LockState,
    p: Seq<char>,
    q: Seq<char>,
)
    requires
        vstd::utf8::encode_utf8(p).len() == vstd::utf8::encode_utf8(q).len(),
        vstd::utf8::encode_utf8(p).len() <= usize::MAX,
    ensures
        ({
            let of_p = PromptBox {
                center_x,
                date_bottom,
                state,
                password_len: vstd::utf8::encode_utf8(p).len() as usize,
            };
            let of_q = PromptBox {
                center_x,
                date_bottom,
                state,
                password_len: vstd::utf8::encode_utf8(q).len() as usize,
            };
            &&& of_p.ops() == of_q.ops()
            &&& of_p.ops().len() == 2 + vstd::utf8::encode_utf8(p).len()
            &&& of_p.ops()[0] is FillRect
            &&& of_p.ops()[1] is StrokeRect
            &&& forall|i: int|
                2 <= i < of_p.ops().len() ==> (#[trigger] of_p.ops()[i] matches DrawOp::FillDot {
                    x,
                    y,
                    radius,
                    color,
                } && of_p.dot(0) == (DrawOp::FillDot {
                    x: of_p.dot_x(0) as i128,
                    y,
                    radius,
                    color,
                }))
        }),
{
}

/// The reason of a refusal is always known, so that the default text is never
/// shown; and no message is shown without a refusal.
pub proof fn law_shown_reason(locker: LockerView)
    requires
        locker.sound(),
    ensures
        render::failure_text(locker.input.feedback, locker.input.message) == locker.input.message,
        locker.input.message is Some <==> locker.input.state is Error,
{
}

/// A wait lasts at most a minute, and never past the time at which the frame is
/// due to be drawn again. Unless that time is past already, it comes less than a
/// millisecond after the wait.
pub proof fn law_waits(elapsed: u128)
    ensures
        0 <= locker::wait_millis(elapsed) <= 60_000,
        elapsed <= locker::CLOCK_REDRAW_INTERVAL ==> locker::CLOCK_REDRAW_INTERVAL - 1_000_000
            < elapsed + locker::wait_millis(elapsed) * 1_000_000 <= locker::CLOCK_REDRAW_INTERVAL,
        elapsed > locker::CLOCK_REDRAW_INTERVAL ==> locker::wait_millis(elapsed) == 0,
{
}

/// The loop never waits without a bound: whatever event comes, a wait that follows
/// from it lasts at most a minute.
pub proof fn law_loop_waits_are_bounded(locker: LockerView, event: Event)
    ensures
        locker.after(event) matches Some((_, action)) ==> (action matches Action::Wait(millis)
            ==> 0 <= millis <= 60_000),
{
}

/// After a wait that did not fail the loop looks for a request to end, and then
/// draws the clock again if the frame is a minute old.
pub proof fn law_clock_is_redrawn(locker: LockerView, result: i32, interrupted: bool, elapsed: u128)
    requires
        locker.phase is Waiting,
        locker.canvases is Some,
        result >= 0 || interrupted,
    ensures
        locker.after(Event::Woken { result, interrupted }) matches Some((turning, looking))
            && looking == Action::CheckTermination && (turning.after(
            Event::Termination(false),
        ) matches Some((aging, measuring)) && measuring == Action::MeasureElapsed && (aging.after(
            Event::Elapsed(elapsed),
        ) matches Some((_, action)) && (action is Render <==> elapsed
            >= locker::CLOCK_REDRAW_INTERVAL))),
{
}

/// Once the background is loaded, and something was created on the server for each
/// window, every window can be drawn, with frames of its own size.
pub proof fn law_loaded_windows_can_be_drawn(
    locker: LockerView,
    resources: Seq<render::BlitResources>,
    wallpaper: Option<ImageSize>,
    i: int,
)
    requires
        resources.len() == locker.windows.len(),
        locker.canvases == Some(render::canvases(locker.windows, resources, wallpaper)),
        0 <= i < locker.windows.len(),
    ensures
        locker.can_draw(i),
        locker.canvases->0[i].size == render::frame_extent(locker.windows[i]),
{
}

/// Where grabbing stands once a device was asked for again and again, each time
/// after a wait, and answered with these statuses.
pub open spec fn answered(device: Device, statuses: Seq<u8>) -> GrabPhase
    decreases statuses.len(),
{
    if statuses.len() == 0 {
        GrabPhase::Asked { device, refusals: 0 }
    } else {
        match grab::after_event(
            answered(device, statuses.drop_last()),
            GrabEvent::Reply(statuses.last()),
        ) {
            Some((GrabPhase::Resting { device: d, refusals }, _)) => GrabPhase::Asked {
                device: d,
                refusals,
            },
            Some((phase, _)) => phase,
            None => answered(device, statuses.drop_last()),
        }
    }
}

/// Whether all of these statuses are refusals.
pub open spec fn all_refused(statuses: Seq<u8>) -> bool {
    forall|i: int| 0 <= i < statuses.len() ==> #[trigger] statuses[i] != grab::GRAB_SUCCESS
}

/// Up to the tenth refusal a device is asked for once more; at the tenth, and
/// not before, the locker gives up.
pub proof fn law_ten_attempts(device: Device, statuses: Seq<u8>)
    requires
        all_refused(statuses),
        statuses.len() <= grab::GRAB_RETRY_COUNT,
    ensures
        statuses.len() < grab::GRAB_RETRY_COUNT ==> answered(device, statuses) == (
        GrabPhase::Asked { device, refusals: statuses.len() as u32 }),
        statuses.len() == grab::GRAB_RETRY_COUNT ==> answered(device, statuses) is GivenUp,
    decreases statuses.len(),
{
    if statuses.len() > 0 {
        law_ten_attempts(device, statuses.drop_last());
        assert(statuses.last() != grab::GRAB_SUCCESS);
    }
}

/// A grab that is granted at any of the ten attempts is enough: after the
/// keyboard the pointer is asked for, with as many attempts, and after the
/// pointer the input is grabbed.
pub proof fn law_grant_at_any_attempt(device: Device, refused: Seq<u8>)
    requires
        all_refused(refused),
        refused.len() < grab::GRAB_RETRY_COUNT,
    ensures
        answered(device, refused.push(grab::GRAB_SUCCESS)) == match device {
            Device::Keyboard => GrabPhase::Asked { device: Device::Pointer, refusals: 0 },
            Device::Pointer => GrabPhase::Granted,
        },
{
    law_ten_attempts(device, refused);
    assert(refused.push(grab::GRAB_SUCCESS).drop_last() =~= refused);
}

/// The input counts as grabbed only once the server has granted the pointer,
/// which is asked for only once it has granted the keyboard.
pub proof fn law_no_grab_without_grant(phase: GrabPhase, event: GrabEvent)
    ensures
        grab::after_event(phase, event) matches Some((next, action)) ==> {
            &&& action is Done <==> (phase matches GrabPhase::Asked { device, .. } && device
                is Pointer && event == GrabEvent::Reply(grab::GRAB_SUCCESS))
            &&& action == GrabAction::Grab(Device::Pointer) ==> (phase matches GrabPhase::Asked {
                device,
                ..
            } && device is Keyboard && event == GrabEvent::Reply(grab::GRAB_SUCCESS)) || (
            phase matches GrabPhase::Resting { device, .. } && device is Pointer)
        },
{
}

/// There is always a monitor to cover.
pub proof fn law_some_monitor(screen: ScreenSize, crtcs: Seq<Option<CrtcInfo>>)
    ensures
        monitor::monitors_to_cover(screen, crtcs).len() > 0,
{
}

/// Every CRTC that shows something is covered, and every monitor that comes from
/// a CRTC has an area.
pub proof fn law_active_crtcs_are_covered(crtcs: Seq<Option<CrtcInfo>>, i: int)
    requires
        0 <= i < crtcs.len(),
    ensures
        monitor::active(crtcs[i]) ==> monitor::active_monitors(crtcs).contains(
            monitor::monitor_of(crtcs[i]),
        ),
        forall|k: int|
            0 <= k < monitor::active_monitors(crtcs).len() ==> (
            #[trigger] monitor::active_monitors(crtcs)[k]).width != 0 && monitor::active_monitors(
                crtcs,
            )[k].height != 0,
{
    broadcast use vstd::seq_lib::group_filter_ensures;

    let shows = |crtc: Option<CrtcInfo>| monitor::active(crtc);
    let kept = crtcs.filter(shows);
    if monitor::active(crtcs[i]) {
        assert(shows(crtcs[i]));
        assert(kept.contains(crtcs[i]));
        let k = choose|k: int| 0 <= k < kept.len() && kept[k] == crtcs[i];
        assert(monitor::active_monitors(crtcs)[k] == monitor::monitor_of(crtcs[i]));
    }
    assert forall|k: int| 0 <= k < monitor::active_monitors(crtcs).len() implies (
    #[trigger] monitor::active_monitors(crtcs)[k]).width != 0 && monitor::active_monitors(
        crtcs,
    )[k].height != 0 by {
        assert(shows(kept[k]));
    }
}

/// The scaled wallpaper covers the window in both directions, and fits it exactly
/// in one of them.
pub proof fn law_wallpaper_covers(win: ImageSize, image: ImageSize)
    requires
        render::has_area(image),
    ensures
        ({
            let scale = render::covering(win, image);
            &&& scale.denominator > 0
            &&& scale.numerator * image.width >= win.width * scale.denominator
            &&& scale.numerator * image.height >= win.height * scale.denominator
            &&& scale.numerator * image.width == win.width * scale.denominator
                || scale.numerator * image.height == win.height * scale.denominator
        }),
{
}

/// The scaled wallpaper is centred: what it reaches over the window, or leaves of
/// it, is the same on both sides, and the same above and below. Since it covers the
/// window, it starts at the window's edges or outside of them.
pub proof fn law_wallpaper_is_centred(win: ImageSize, image: ImageSize)
    requires
        render::has_area(image),
    ensures
        ({
            let scale = render::covering(win, image);
            let offset = render::centring(win, image, scale);
            &&& offset.denominator == 2 * scale.denominator
            &&& win.width * offset.denominator - (offset.x + 2 * (image.width * scale.numerator))
                == offset.x
            &&& win.height * offset.denominator - (offset.y + 2 * (image.height
                * scale.numerator)) == offset.y
            &&& offset.x <= 0 && offset.y <= 0
            &&& offset.x == 0 || offset.y == 0
        }),
{
    law_wallpaper_covers(win, image);
    let scale = render::covering(win, image);
    let (w, h, iw, ih) = (win.width as int, win.height as int, image.width as int, image.height as int);
    let (n, d) = (scale.numerator as int, scale.denominator as int);
    assert(iw * n == n * iw && ih * n == n * ih) by (nonlinear_arith);
    assert(w * (2 * d) == 2 * (w * d) && h * (2 * d) == 2 * (h * d)) by (nonlinear_arith);
    render::lemma_centring(win, image, scale);
}

/// The background comes first, over the whole window: the wallpaper, or a plain
/// colour where there is none.
pub proof fn law_background_comes_first(content: FrameContent)
    ensures
        content.ops()[0] == (if content.wallpaper {
            DrawOp::PaintWallpaper
        } else {
            DrawOp::PaintColor { color: Color::Base }
        }),
{
}

/// A frame shows as many dots as the password is long, and no other; the message
/// is the only other step that may be missing.
pub proof fn law_dots(content: FrameContent)
    ensures
        content.ops().len() == 6 + content.password_len + if content.message is Some {
            1int
        } else {
            0
        },
        forall|j: int|
            0 <= j < content.password_len ==> #[trigger] content.ops()[6 + j] == content.prompt_box().dot(j),
        forall|i: int|
            0 <= i < content.ops().len() && (#[trigger] content.ops()[i]) is FillDot ==> 6 <= i < 6
                + content.password_len,
{
}

/// The dots stand in the middle of the window, one spacing apart. Each lies whole
/// between the upper and the lower edge of the box, and sideways inside it with
/// the padding free on both sides.
pub proof fn law_dots_fit_box(prompt: PromptBox, j: int)
    requires
        0 <= j < prompt.password_len,
    ensures
        prompt.dot_x(j) + prompt.dot_x(prompt.password_len - 1 - j) == 2 * prompt.center_x,
        prompt.dot_x(j + 1) - prompt.dot_x(j) == 2 * render::DOT_SPACING,
        prompt.dot(j) matches DrawOp::FillDot { x, y, radius, .. } && x == prompt.dot_x(j)
            && radius == 2 * render::DOT_RADIUS && prompt.rect().y < y - radius && y + radius
            < prompt.rect().y + prompt.rect().height,
        prompt.rect().x + 2 * render::INPUT_PADDING < prompt.dot_x(j) - 2 * render::DOT_RADIUS,
        prompt.dot_x(j) + 2 * render::DOT_RADIUS < prompt.rect().x + prompt.rect().width - 2
            * render::INPUT_PADDING,
{
}

/// From top to bottom come the time, the date, the box and the message, without
/// overlap.
pub proof fn law_vertical_order(content: FrameContent)
    requires
        content.time.height >= 0,
        content.date.height >= 0,
    ensures
        content.time_y() + 2 * content.time.height < content.date_y(),
        content.date_bottom() < content.prompt_box().rect().y,
        content.message_ops().len() > 0 ==> (content.message_ops()[0] matches DrawOp::ShowText {
            y,
            ..
        } && content.prompt_box().rect().y + content.prompt_box().rect().height < y),
{
}

/// The border of the box is red exactly after a refusal.
pub proof fn law_red_means_refused(prompt: PromptBox)
    ensures
        prompt.ops()[1] matches DrawOp::StrokeRect { color, .. } && (color is Red <==> prompt.state
            is Error),
{
}

/// Everything that was shown is taken away again: each window that is mapped is
/// destroyed, and the cursor is freed.
pub proof fn law_teardown_is_complete(windows: Seq<LockWindow>, cursor: Option<u32>, i: int)
    requires
        0 <= i < windows.len(),
    ensures
        window::map_requests(windows).contains(XRequest::MapWindow(windows[i].id)),
        window::map_requests(windows).contains(XRequest::RaiseWindow(windows[i].id)),
        window::destroy_requests(windows, cursor).contains(XRequest::DestroyWindow(windows[i].id)),
        cursor matches Some(id) ==> window::destroy_requests(windows, cursor).contains(
            XRequest::FreeCursor(id),
        ),
        window::destroy_requests(windows, cursor).last() == XRequest::Flush,
{
    assert(window::map_requests(windows)[2 * i] == XRequest::MapWindow(windows[i].id));
    assert(window::map_requests(windows)[2 * i + 1] == XRequest::RaiseWindow(windows[i].id));
    assert(window::destroy_requests(windows, cursor)[i] == XRequest::DestroyWindow(windows[i].id));
    if let Some(id) = cursor {
        assert(window::destroy_requests(windows, cursor)[windows.len() as int]
            == XRequest::FreeCursor(id));
    }
}

/// The pixmap and the graphics context of every window are given back.
pub proof fn law_cleanup_is_complete(canvases: Seq<render::Canvas>, i: int)
    requires
        0 <= i < canvases.len(),
    ensures
        render::free_requests(canvases).contains(XRequest::FreeGc(canvases[i].gc)),
        render::free_requests(canvases).contains(XRequest::FreePixmap(canvases[i].pixmap)),
{
    assert(render::free_requests(canvases)[2 * i] == XRequest::FreeGc(canvases[i].gc));
    assert(render::free_requests(canvases)[2 * i + 1] == XRequest::FreePixmap(canvases[i].pixmap));
}

/// Where PAM says nothing in the conversation, the reason of a refusal is what it
/// says of its error code, and where that is blank too, the error itself.
pub proof fn law_silent_conversation(pam: Seq<char>, description: Seq<char>)
    ensures
        auth::failure_message(text::joined(Seq::empty(), seq![' ']), pam, description) == (
        if text::blank(pam) {
            description
        } else {
            pam
        }),
{
}

/// A conversation in which PAM says only white space counts as one in which it
/// says nothing.
pub proof fn law_blank_conversation(
    messages: Seq<Seq<char>>,
    pam: Seq<char>,
    description: Seq<char>,
)
    requires
        forall|i: int| 0 <= i < messages.len() ==> text::blank(#[trigger] messages[i]),
    ensures
        text::blank(text::joined(messages, seq![' '])),
        auth::failure_message(text::joined(messages, seq![' ']), pam, description)
            == auth::failure_message(Seq::empty(), pam, description),
    decreases messages.len(),
{
    if messages.len() > 1 {
        law_blank_conversation(messages.drop_last(), pam, description);
        assert(text::blank(messages.last()));
        assert(text::blank(seq![' ']));
    }
}

/// A refusal has a reason that can be read, unless PAM's own error cannot.
pub proof fn law_reason_is_readable(conv: Seq<char>, pam: Seq<char>, description: Seq<char>)
    requires
        !text::blank(description),
    ensures
        !text::blank(auth::failure_message(conv, pam, description)),
{
}

} // verus!
