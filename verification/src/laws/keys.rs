//! What pressing a key does, from the symbols of the key to the prompt.
#![allow(unused_imports)]
use vstd::prelude::*;

use crate::input;
use crate::input::{AuthFeedback, Input, InputView, Key, KeyOutcome, LockState};
use crate::keysyms;
use crate::locker::{Action, Event, LockerView, Phase, Resume};

verus! {

/// Shift picks the second symbol of a key that has at least two; in every other
/// case the first one counts. A key without symbols has the symbol 0.
pub proof fn law_shift_picks_second_symbol(mapping: Vec<u32>, state: u16, res: u32)
    requires
        call_ensures(keysyms::keycode_to_keysym, (&mapping, state), res),
    ensures
        mapping@.len() >= 2 && state & 0x1 != 0 ==> res == mapping@[1],
        mapping@.len() >= 2 && state & 0x1 == 0 ==> res == mapping@[0],
        mapping@.len() == 1 ==> res == mapping@[0],
        mapping@.len() == 0 ==> res == 0,
{
}

/// Nothing but Shift and the first two symbols counts: keys that agree in these
/// have the same symbol, whatever else they list and whatever else is held.
pub proof fn law_only_shift_and_two_symbols_count(
    one: Vec<u32>,
    other: Vec<u32>,
    state: u16,
    other_state: u16,
    res: u32,
    other_res: u32,
)
    requires
        call_ensures(keysyms::keycode_to_keysym, (&one, state), res),
        call_ensures(keysyms::keycode_to_keysym, (&other, other_state), other_res),
        one@.len() >= 2,
        other@.len() >= 2,
        one@[0] == other@[0],
        one@[1] == other@[1],
        state & 0x1 == other_state & 0x1,
    ensures
        res == other_res,
{
}

/// Ctrl+Alt with a key means that both are held while the key is pressed.
pub proof fn law_ctrl_alt(state: u16, keysym: u32, expected: u32, res: bool)
    requires
        call_ensures(keysyms::is_ctrl_alt_key, (state, keysym, expected), res),
    ensures
        res <==> state & 0x4 != 0 && state & 0x8 != 0 && keysym == expected,
{
}

/// The printable symbols are those from the space to the tilde.
pub proof fn law_printable(keysym: u32, res: bool)
    requires
        call_ensures(keysyms::is_printable_ascii, (keysym,), res),
    ensures
        res <==> ' ' as u32 <= keysym <= '~' as u32,
{
}

/// What the keys ask for: Return and Enter submit, Backspace and Delete erase,
/// Escape wipes, Ctrl+Alt+U clears, the other printable symbols are typed, and no
/// other key asks for anything.
pub proof fn law_meaning_of_keys(keysym: u32, modifiers: u16, res: Key)
    requires
        call_ensures(input::classify_key, (keysym, modifiers), res),
    ensures
        res is Submit <==> keysym == 0xff0d || keysym == 0xff8d,
        res is Erase <==> keysym == 0xff08 || keysym == 0xffff,
        res is Wipe <==> keysym == 0xff1b,
        res is Clear <==> keysym == 0x75 && modifiers & 0x4 != 0 && modifiers & 0x8 != 0,
        res is Type <==> 0x20 <= keysym <= 0x7e && !(keysym == 0x75 && modifiers & 0x4 != 0
            && modifiers & 0x8 != 0),
        res matches Key::Type(c) ==> c as u32 == keysym,
{
}

/// A new prompt is empty and shows nothing.
pub proof fn law_new_prompt(input: Input)
    requires
        call_ensures(Input::new, (), input),
    ensures
        input@.password.len() == 0,
        input@.state is Idle,
        input@.feedback is Nothing,
        input@.message is None,
{
}

/// A printable symbol that is not Ctrl+Alt+U is typed: it comes behind what the
/// prompt holds, which then shows typing and no refusal.
pub proof fn law_printable_symbol_is_typed(
    input: &mut Input,
    keysym: u32,
    modifiers: u16,
    res: KeyOutcome,
)
    requires
        call_ensures(Input::handle_key_press, (input, keysym, modifiers), res),
        0x20 <= keysym <= 0x7e,
        !(keysym == 0x75 && modifiers & 0x4 != 0 && modifiers & 0x8 != 0),
    ensures
        final(input)@.password.len() == old(input)@.password.len() + 1,
        final(input)@.password.drop_last() == old(input)@.password,
        final(input)@.password.last() as u32 == keysym,
        final(input)@.state is Typing,
        final(input)@.feedback is Nothing,
        final(input)@.message is None,
        res is Redraw,
{
}

/// Backspace and Delete take the last character off, if there is one. The prompt
/// then shows typing exactly if something is left, and no refusal.
pub proof fn law_erasing_symbol(input: &mut Input, keysym: u32, modifiers: u16, res: KeyOutcome)
    requires
        call_ensures(Input::handle_key_press, (input, keysym, modifiers), res),
        keysym == 0xff08 || keysym == 0xffff,
    ensures
        old(input)@.password.len() == 0 ==> final(input)@.password == old(input)@.password,
        old(input)@.password.len() > 0 ==> final(input)@.password.push(
            old(input)@.password.last(),
        ) == old(input)@.password,
        final(input)@.state is Idle <==> old(input)@.password.len() <= 1,
        final(input)@.state is Typing <==> old(input)@.password.len() > 1,
        final(input)@.feedback is Nothing,
        final(input)@.message is None,
        res is Redraw,
{
    if old(input)@.password.len() > 0 {
        assert(old(input)@.password.drop_last().push(old(input)@.password.last())
            =~= old(input)@.password);
    }
}

/// Escape, and Ctrl+Alt+U, leave an empty prompt that shows nothing.
pub proof fn law_clearing_symbol(input: &mut Input, keysym: u32, modifiers: u16, res: KeyOutcome)
    requires
        call_ensures(Input::handle_key_press, (input, keysym, modifiers), res),
        keysym == 0xff1b || (keysym == 0x75 && modifiers & 0x4 != 0 && modifiers & 0x8 != 0),
    ensures
        final(input)@.password.len() == 0,
        final(input)@.state is Idle,
        final(input)@.feedback is Nothing,
        final(input)@.message is None,
        res is Redraw,
{
}

/// Return, Enter and all keys that are not known leave the prompt as it is, and
/// only Return and Enter ask for a login.
pub proof fn law_other_symbols_edit_nothing(
    input: &mut Input,
    keysym: u32,
    modifiers: u16,
    res: KeyOutcome,
)
    requires
        call_ensures(Input::handle_key_press, (input, keysym, modifiers), res),
        !(0x20 <= keysym <= 0x7e),
        keysym != 0xff08,
        keysym != 0xffff,
        keysym != 0xff1b,
    ensures
        final(input)@ == old(input)@,
        res is Submit <==> keysym == 0xff0d || keysym == 0xff8d,
        !(res is Redraw),
{
}

/// Submitting gives the whole password out and leaves none in the prompt, whose
/// look stays.
pub proof fn law_submitting(input: &mut Input, res: String)
    requires
        call_ensures(Input::submit, (input,), res),
    ensures
        res@ == old(input)@.password,
        final(input)@.password.len() == 0,
        final(input)@.state == old(input)@.state,
        final(input)@.feedback == old(input)@.feedback,
        final(input)@.message == old(input)@.message,
{
}

/// A refusal shows its reason and keeps what has been typed.
pub proof fn law_refusing(input: &mut Input, message: String)
    requires
        call_ensures(Input::refuse, (input, message), ()),
    ensures
        final(input)@.state is Error,
        final(input)@.feedback is Message,
        final(input)@.message == Some(message@),
        final(input)@.password == old(input)@.password,
{
}

/// What can be asked of a prompt is what it holds. Of a password that was typed
/// here, the length in bytes is the number of characters.
pub proof fn law_prompt_tells_what_it_holds(
    input: Input,
    state: LockState,
    feedback: AuthFeedback,
    message: Option<&str>,
    len: usize,
)
    requires
        call_ensures(Input::state, (&input,), state),
        call_ensures(Input::auth_feedback, (&input,), feedback),
        call_ensures(Input::auth_message, (&input,), message),
        call_ensures(Input::password_len, (&input,), len),
    ensures
        state == input@.state,
        feedback == input@.feedback,
        message is Some <==> input@.message is Some,
        message matches Some(m) ==> input@.message == Some(m@),
        len == vstd::utf8::encode_utf8(input@.password).len(),
        (forall|i: int|
            0 <= i < input@.password.len() ==> ' ' <= #[trigger] input@.password[i] <= '~') ==> len
            == input@.password.len(),
{
    if forall|i: int|
        0 <= i < input@.password.len() ==> ' ' <= #[trigger] input@.password[i] <= '~' {
        assert(vstd::utf8::is_ascii_chars(input@.password));
        vstd::utf8::is_ascii_chars_encode_utf8(input@.password);
    }
}

/// Pressing a key whose symbol is printable, Ctrl+Alt+U aside, appends the
/// character with that number to the password of the locker. Nothing else changes
/// but the look of the prompt, which is drawn if it can be.
pub proof fn law_pressed_key_is_typed(
    locker: LockerView,
    modifiers: u16,
    mapping: Vec<u32>,
    symbol: u32,
)
    requires
        locker.phase == (Phase::Resolving { modifiers }),
        mapping@.len() >= 1,
        mapping@.len() >= 2 && modifiers & 0x1 != 0 ==> symbol == mapping@[1],
        mapping@.len() < 2 || modifiers & 0x1 == 0 ==> symbol == mapping@[0],
        0x20 <= symbol <= 0x7e,
        !(symbol == 0x75 && modifiers & 0x4 != 0 && modifiers & 0x8 != 0),
    ensures
        locker.after(Event::Mapping(mapping)) matches Some((next, action)) && {
            &&& next.input.password == locker.input.password.push(symbol as char)
            &&& next.input.password.last() as u32 == symbol
            &&& next.input.state is Typing
            &&& next.input.feedback is Nothing
            &&& next.input.message is None
            &&& next == (LockerView { input: next.input, phase: next.phase, ..locker })
            &&& locker.canvases is Some ==> next.phase == Phase::Rendering(Resume::Drain) && action
                == Action::Render
            &&& locker.canvases is None ==> next.phase is Draining && action == Action::PollEvent
        },
{
}

/// Pressing Backspace or Delete takes the last character of the password back, if
/// there is one, and draws the prompt if it can be.
pub proof fn law_pressed_key_erases(
    locker: LockerView,
    modifiers: u16,
    mapping: Vec<u32>,
    symbol: u32,
)
    requires
        locker.phase == (Phase::Resolving { modifiers }),
        mapping@.len() >= 1,
        mapping@.len() >= 2 && modifiers & 0x1 != 0 ==> symbol == mapping@[1],
        mapping@.len() < 2 || modifiers & 0x1 == 0 ==> symbol == mapping@[0],
        symbol == 0xff08 || symbol == 0xffff,
    ensures
        locker.after(Event::Mapping(mapping)) matches Some((next, action)) && {
            &&& locker.input.password.len() == 0 ==> next.input.password == locker.input.password
            &&& locker.input.password.len() > 0 ==> next.input.password
                == locker.input.password.take(locker.input.password.len() - 1)
            &&& next.input.state is Idle <==> locker.input.password.len() <= 1
            &&& next.input.state is Typing <==> locker.input.password.len() > 1
            &&& next.input.feedback is Nothing
            &&& next.input.message is None
            &&& next == (LockerView { input: next.input, phase: next.phase, ..locker })
            &&& locker.canvases is Some ==> next.phase == Phase::Rendering(Resume::Drain) && action
                == Action::Render
            &&& locker.canvases is None ==> next.phase is Draining && action == Action::PollEvent
        },
{
    if locker.input.password.len() > 0 {
        assert(locker.input.password.drop_last() =~= locker.input.password.take(
            locker.input.password.len() - 1,
        ));
    }
}

/// Pressing Escape or Ctrl+Alt+U takes everything back, and draws the prompt if it
/// can be.
pub proof fn law_pressed_key_clears(
    locker: LockerView,
    modifiers: u16,
    mapping: Vec<u32>,
    symbol: u32,
)
    requires
        locker.phase == (Phase::Resolving { modifiers }),
        mapping@.len() >= 1,
        mapping@.len() >= 2 && modifiers & 0x1 != 0 ==> symbol == mapping@[1],
        mapping@.len() < 2 || modifiers & 0x1 == 0 ==> symbol == mapping@[0],
        symbol == 0xff1b || (symbol == 0x75 && modifiers & 0x4 != 0 && modifiers & 0x8 != 0),
    ensures
        locker.after(Event::Mapping(mapping)) matches Some((next, action)) && {
            &&& next.input.password.len() == 0
            &&& next.input.state is Idle
            &&& next.input.feedback is Nothing
            &&& next.input.message is None
            &&& next == (LockerView { input: next.input, phase: next.phase, ..locker })
            &&& locker.canvases is Some ==> next.phase == Phase::Rendering(Resume::Drain) && action
                == Action::Render
            &&& locker.canvases is None ==> next.phase is Draining && action == Action::PollEvent
        },
{
}

/// Pressing Return or Enter hands the password over to PAM. It leaves the prompt,
/// whose look stays, and nothing else changes.
pub proof fn law_pressed_key_submits(
    locker: LockerView,
    modifiers: u16,
    mapping: Vec<u32>,
    symbol: u32,
)
    requires
        locker.phase == (Phase::Resolving { modifiers }),
        mapping@.len() >= 1,
        mapping@.len() >= 2 && modifiers & 0x1 != 0 ==> symbol == mapping@[1],
        mapping@.len() < 2 || modifiers & 0x1 == 0 ==> symbol == mapping@[0],
        symbol == 0xff0d || symbol == 0xff8d,
    ensures
        locker.after(Event::Mapping(mapping)) matches Some((next, action)) && {
            &&& action == Action::Authenticate
            &&& next.phase is Authenticating
            &&& next.submitted == locker.input.password
            &&& next.input == (InputView { password: next.input.password, ..locker.input })
            &&& next.input.password.len() == 0
            &&& next == (LockerView {
                input: next.input,
                submitted: next.submitted,
                phase: next.phase,
                ..locker
            })
        },
{
}

/// Pressing any other key, or one without symbols, changes nothing: the next report
/// of the server is fetched.
pub proof fn law_pressed_key_is_ignored(
    locker: LockerView,
    modifiers: u16,
    mapping: Vec<u32>,
    symbol: u32,
)
    requires
        locker.phase == (Phase::Resolving { modifiers }),
        mapping@.len() >= 2 && modifiers & 0x1 != 0 ==> symbol == mapping@[1],
        mapping@.len() == 1 || (mapping@.len() >= 2 && modifiers & 0x1 == 0) ==> symbol
            == mapping@[0],
        mapping@.len() == 0 || !(0x20 <= symbol <= 0x7e || symbol == 0xff08 || symbol == 0xffff
            || symbol == 0xff1b || symbol == 0xff0d || symbol == 0xff8d),
    ensures
        locker.after(Event::Mapping(mapping)) == Some(
            (LockerView { phase: Phase::Draining, ..locker }, Action::PollEvent),
        ),
{
}

} // verus!
