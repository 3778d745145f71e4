//! What the event loop does at each event.
#![allow(unused_imports)]
use vstd::prelude::*;

use crate::auth::AuthResult;
use crate::input::{Input, InputView};
use crate::locker;
use crate::locker::{Action, Ending, Event, Locker, LockerView, Phase, Resume, XEvent};
use crate::render::{BlitResources, Canvas, Extent, ImageSize};
use crate::window::{LockWindow, WindowRequest};

verus! {

/// A new locker has no windows, an empty prompt and nothing submitted, and its loop
/// has not started.
pub proof fn law_new_locker(locker: Locker)
    requires
        call_ensures(Locker::new, (), locker),
    ensures
        locker@.windows.len() == 0,
        locker@.cursor is None,
        locker@.canvases is None,
        locker@.input.password.len() == 0,
        locker@.input.state is Idle,
        locker@.input.feedback is Nothing,
        locker@.input.message is None,
        locker@.submitted.len() == 0,
        locker@.phase is Created,
{
}

/// A window that is added comes behind the others, with the size it was asked for.
pub proof fn law_added_window(locker: &mut Locker, id: u32, request: WindowRequest)
    requires
        call_ensures(Locker::add_window, (locker, id, &request), ()),
    ensures
        final(locker)@.windows.len() == old(locker)@.windows.len() + 1,
        final(locker)@.windows.drop_last() == old(locker)@.windows,
        final(locker)@.windows.last().id == id,
        final(locker)@.windows.last().width == request.width,
        final(locker)@.windows.last().height == request.height,
        final(locker)@ == (LockerView { windows: final(locker)@.windows, ..old(locker)@ }),
{
}

/// The cursor that is noted is kept, and nothing else changes.
pub proof fn law_noted_cursor(locker: &mut Locker, cursor: Option<u32>)
    requires
        call_ensures(Locker::init_cursor, (locker, cursor), ()),
    ensures
        final(locker)@.cursor == cursor,
        final(locker)@ == (LockerView { cursor: final(locker)@.cursor, ..old(locker)@ }),
{
}

/// What can be asked of a locker is what it holds.
pub proof fn law_locker_tells_what_it_holds(
    locker: Locker,
    windows: &Vec<LockWindow>,
    input: &Input,
    cursor: Option<u32>,
    submitted: &str,
)
    requires
        call_ensures(Locker::windows, (&locker,), windows),
        call_ensures(Locker::input, (&locker,), input),
        call_ensures(Locker::cursor, (&locker,), cursor),
        call_ensures(Locker::submitted_password, (&locker,), submitted),
    ensures
        windows@ == locker@.windows,
        input@ == locker@.input,
        cursor == locker@.cursor,
        submitted@ == locker@.submitted,
{
}

/// The input is grabbed on the first window, and on `root` only where there is no
/// window.
pub proof fn law_grab_window(locker: Locker, root: u32, res: u32)
    requires
        call_ensures(Locker::grab_window, (&locker, root), res),
    ensures
        locker@.windows.len() > 0 ==> res == locker@.windows[0].id,
        locker@.windows.len() == 0 ==> res == root,
{
}

/// The message below the prompt is the reason of the refusal that it shows, a
/// default where none is known, and none where it shows no refusal.
pub proof fn law_message_of_locker(locker: Locker, res: Option<&str>)
    requires
        call_ensures(Locker::fail_text, (&locker,), res),
    ensures
        res is Some <==> locker@.input.feedback is Message,
        res is Some && locker@.input.message is Some ==> res->0@ == locker@.input.message->0,
        res is Some && locker@.input.message is None ==> res->0@ == "Authentication failed"@,
{
}

/// The loop takes an event as `LockerView::after` says, and one that `after` does
/// not know changes nothing.
pub proof fn law_step(locker: &mut Locker, event: Event, res: Option<Action>)
    requires
        call_ensures(Locker::step, (locker, event), res),
    ensures
        res is Some <==> old(locker)@.after(event) is Some,
        old(locker)@.after(event) matches Some((next, action)) ==> final(locker)@ == next && res
            == Some(action),
        res is None ==> final(locker)@ == old(locker)@,
{
}

/// The loop starts with a frame, if one can be drawn, and then with a turn.
pub proof fn law_loop_starts_with_frame(locker: &mut Locker, res: Action)
    requires
        call_ensures(Locker::run_loop, (locker,), res),
    ensures
        old(locker)@.canvases is Some ==> res == Action::Render && final(locker)@.phase
            == Phase::Rendering(Resume::Turn),
        old(locker)@.canvases is None ==> res == Action::CheckTermination && final(locker)@.phase
            is Turning,
        final(locker)@ == (LockerView { phase: final(locker)@.phase, ..old(locker)@ }),
{
}

/// Once a frame is drawn the loop goes on where it was: with a turn, or with the
/// next report.
pub proof fn law_after_frame(locker: LockerView, then: Resume)
    requires
        locker.phase == Phase::Rendering(then),
    ensures
        then is Turn ==> locker.after(Event::Rendered) == Some(
            (LockerView { phase: Phase::Turning, ..locker }, Action::CheckTermination),
        ),
        then is Drain ==> locker.after(Event::Rendered) == Some(
            (LockerView { phase: Phase::Draining, ..locker }, Action::PollEvent),
        ),
{
}

/// A turn ends the loop if a signal asked for it, and otherwise looks at the age of
/// the frame.
pub proof fn law_turn(locker: LockerView)
    requires
        locker.phase is Turning,
    ensures
        locker.after(Event::Termination(true)) == Some(
            (
                LockerView { phase: Phase::Finished, ..locker },
                Action::Exit(Ending::Terminated),
            ),
        ),
        locker.after(Event::Termination(false)) == Some(
            (LockerView { phase: Phase::Aging, ..locker }, Action::MeasureElapsed),
        ),
{
}

/// At a turn a frame that is a minute old is drawn again, if it can be, and a
/// younger one is not. Either way the reports of the server are next.
pub proof fn law_frame_of_a_minute_is_redrawn(locker: LockerView, elapsed: u128)
    requires
        locker.phase is Aging,
    ensures
        elapsed >= 60_000_000_000 && locker.canvases is Some ==> locker.after(
            Event::Elapsed(elapsed),
        ) == Some((LockerView { phase: Phase::Rendering(Resume::Drain), ..locker }, Action::Render)),
        elapsed < 60_000_000_000 || locker.canvases is None ==> locker.after(
            Event::Elapsed(elapsed),
        ) == Some((LockerView { phase: Phase::Draining, ..locker }, Action::PollEvent)),
{
}

/// Of a key that is reported the symbols are looked up; an exposed window is drawn,
/// if it can be; other reports are passed over; and when none is left the age of the
/// frame is looked at.
pub proof fn law_reports(locker: LockerView, keycode: u8, modifiers: u16)
    requires
        locker.phase is Draining,
    ensures
        locker.after(Event::Pending(Some(XEvent::KeyPress { keycode, modifiers }))) == Some(
            (
                LockerView { phase: Phase::Resolving { modifiers }, ..locker },
                Action::QueryMapping(keycode),
            ),
        ),
        locker.canvases is Some ==> locker.after(Event::Pending(Some(XEvent::Expose))) == Some(
            (LockerView { phase: Phase::Rendering(Resume::Drain), ..locker }, Action::Render),
        ),
        locker.canvases is None ==> locker.after(Event::Pending(Some(XEvent::Expose))) == Some(
            (LockerView { phase: Phase::Draining, ..locker }, Action::PollEvent),
        ),
        locker.after(Event::Pending(Some(XEvent::ButtonPress))) == Some(
            (LockerView { phase: Phase::Draining, ..locker }, Action::PollEvent),
        ),
        locker.after(Event::Pending(Some(XEvent::Other))) == Some(
            (LockerView { phase: Phase::Draining, ..locker }, Action::PollEvent),
        ),
        locker.after(Event::Pending(None)) == Some(
            (LockerView { phase: Phase::Settling, ..locker }, Action::MeasureElapsed),
        ),
{
}

/// A granted login ends the loop, and so does PAM that cannot be asked. Either way
/// the password that was tried is forgotten, and the prompt stays as it is.
pub proof fn law_login_ends_loop(locker: LockerView)
    requires
        locker.phase is Authenticating,
    ensures
        locker.after(Event::Authenticated(AuthResult::Success)) == Some(
            (
                LockerView { submitted: Seq::empty(), phase: Phase::Finished, ..locker },
                Action::Exit(Ending::Unlocked),
            ),
        ),
        locker.after(Event::AuthError) == Some(
            (
                LockerView { submitted: Seq::empty(), phase: Phase::Finished, ..locker },
                Action::Exit(Ending::AuthFailed),
            ),
        ),
{
}

/// A refused login shows its reason, draws it if it can be drawn, and goes on with
/// the reports of the server. The password that was tried is forgotten.
pub proof fn law_refused_login(locker: LockerView, message: String)
    requires
        locker.phase is Authenticating,
    ensures
        locker.after(Event::Authenticated(AuthResult::Failure(message))) matches Some((next, action))
            && {
            &&& next.submitted.len() == 0
            &&& next.input.state is Error
            &&& next.input.feedback is Message
            &&& next.input.message == Some(message@)
            &&& next.input.password == locker.input.password
            &&& next == (LockerView {
                input: next.input,
                submitted: next.submitted,
                phase: next.phase,
                ..locker
            })
            &&& locker.canvases is Some ==> next.phase == Phase::Rendering(Resume::Drain) && action
                == Action::Render
            &&& locker.canvases is None ==> next.phase is Draining && action == Action::PollEvent
        },
{
}

/// When all reports are handled the loop gets ready to wait if the frame is less
/// than a minute old, and otherwise starts the next turn at once.
pub proof fn law_settling(locker: LockerView, elapsed: u128)
    requires
        locker.phase is Settling,
    ensures
        elapsed < 60_000_000_000 ==> locker.after(Event::Elapsed(elapsed)) == Some(
            (LockerView { phase: Phase::Timing, ..locker }, Action::MeasureElapsed),
        ),
        elapsed >= 60_000_000_000 ==> locker.after(Event::Elapsed(elapsed)) == Some(
            (LockerView { phase: Phase::Turning, ..locker }, Action::CheckTermination),
        ),
{
}

/// The loop waits until the frame is a minute old, to the millisecond: the wait
/// never ends later than that, and one of a millisecond more would. A frame that is
/// older already is not waited for.
pub proof fn law_wait_ends_when_frame_is_due(locker: LockerView, elapsed: u128)
    requires
        locker.phase is Timing,
    ensures
        locker.after(Event::Elapsed(elapsed)) matches Some((next, action)) && (
        action matches Action::Wait(millis) && {
            &&& millis >= 0
            &&& elapsed <= 60_000_000_000 ==> millis * 1_000_000 + elapsed <= 60_000_000_000 < (
            millis + 1) * 1_000_000 + elapsed
            &&& elapsed > 60_000_000_000 ==> millis == 0
            &&& next == (LockerView { phase: Phase::Waiting, ..locker })
        }),
{
}

/// The clock is redrawn on time: if nothing happens once all reports are handled, the
/// wait ends when the frame is a minute old, or less than a millisecond before.
pub proof fn law_frame_does_not_outlive_minute(locker: LockerView, settled: u128, measured: u128)
    requires
        locker.phase is Settling,
        settled <= measured <= 60_000_000_000,
        settled < 60_000_000_000,
    ensures
        locker.after(Event::Elapsed(settled)) matches Some((timing, _)) && (timing.after(
            Event::Elapsed(measured),
        ) matches Some((_, action)) && (action matches Action::Wait(millis) && 60_000_000_000
            - 1_000_000 < measured + millis * 1_000_000 <= 60_000_000_000)),
{
    law_settling(locker, settled);
    law_wait_ends_when_frame_is_due(LockerView { phase: Phase::Timing, ..locker }, measured);
}

/// A wait ends the loop exactly if it failed and no signal cut it short; otherwise
/// the next turn starts.
pub proof fn law_woken(locker: LockerView, result: i32, interrupted: bool)
    requires
        locker.phase is Waiting,
    ensures
        result < 0 && !interrupted ==> locker.after(Event::Woken { result, interrupted }) == Some(
            (
                LockerView { phase: Phase::Finished, ..locker },
                Action::Exit(Ending::WaitFailed),
            ),
        ),
        result >= 0 || interrupted ==> locker.after(Event::Woken { result, interrupted }) == Some(
            (LockerView { phase: Phase::Turning, ..locker }, Action::CheckTermination),
        ),
{
}

/// In each phase only the event is taken that answers the action under way: none
/// before the loop starts and none after it has ended.
pub proof fn law_events_of_phases(locker: LockerView, event: Event)
    ensures
        locker.after(event) is Some <==> {
            ||| locker.phase is Rendering && event is Rendered
            ||| locker.phase is Turning && event is Termination
            ||| (locker.phase is Aging || locker.phase is Settling || locker.phase is Timing)
                && event is Elapsed
            ||| locker.phase is Draining && event is Pending
            ||| locker.phase is Resolving && event is Mapping
            ||| locker.phase is Authenticating && (event is Authenticated || event is AuthError)
            ||| locker.phase is Waiting && event is Woken
        },
{
}

/// Several events have the effect of each of them in turn, and one that is not taken
/// has none.
pub proof fn law_events_in_turn(locker: LockerView, events: Seq<Event>, event: Event)
    ensures
        locker.after_all(Seq::empty()) == locker,
        locker.after_all(events).after(event) matches Some((next, _)) ==> locker.after_all(
            events.push(event),
        ) == next,
        locker.after_all(events).after(event) is None ==> locker.after_all(events.push(event))
            == locker.after_all(events),
{
    assert(events.push(event).drop_last() =~= events);
}

/// The time that is left until a frame is due and its age make up a minute; a frame
/// that is older has no time left.
pub proof fn law_time_left(elapsed: u128, res: Option<u128>)
    requires
        call_ensures(locker::time_until_next_render, (elapsed,), res),
    ensures
        res is Some <==> elapsed <= 60_000_000_000,
        res matches Some(left) ==> left + elapsed == 60_000_000_000,
{
}

/// The time to wait never reaches past the minute of the frame, and one millisecond
/// more would, unless the minute is past already.
pub proof fn law_timeout(elapsed: u128, res: i32)
    requires
        call_ensures(locker::poll_timeout, (elapsed,), res),
    ensures
        res >= 0,
        elapsed <= 60_000_000_000 ==> res * 1_000_000 + elapsed <= 60_000_000_000 < (res + 1)
            * 1_000_000 + elapsed,
        elapsed > 60_000_000_000 ==> res == 0,
{
}

} // verus!
