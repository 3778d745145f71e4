//! What is covered, shown, grabbed and taken away again.
#![allow(unused_imports)]
use vstd::prelude::*;

use crate::grab;
use crate::grab::{Device, GrabAction, GrabEvent, GrabInput, GrabMode, GrabPhase, GrabRequest};
use crate::locker::Locker;
use crate::monitor;
use crate::monitor::{CrtcInfo, Monitor, ScreenSize};
use crate::render::RenderContext;
use crate::window;
use crate::window::{LockWindow, WindowRequest, XRequest};

verus! {

/// RandR is asked for its CRTCs from version 1.2 on; before that the whole screen is
/// the only monitor.
pub proof fn law_detection_begins(
    screen: ScreenSize,
    major: u32,
    minor: u32,
    res: Option<Vec<Monitor>>,
    lists: bool,
)
    requires
        call_ensures(monitor::begin_detection, (screen, major, minor), res),
        call_ensures(monitor::randr_lists_crtcs, (major, minor), lists),
    ensures
        res is None <==> major >= 2 || (major == 1 && minor >= 2),
        res matches Some(monitors) ==> monitors@.len() == 1 && monitors@[0] == (Monitor {
            x: 0,
            y: 0,
            width: screen.width,
            height: screen.height,
        }),
        lists <==> major >= 2 || (major == 1 && minor >= 2),
{
}

/// The monitor that stands for a whole screen has its size, and starts at its
/// corner.
pub proof fn law_fallback_is_whole_screen(screen: ScreenSize, res: Vec<Monitor>)
    requires
        call_ensures(monitor::fallback_monitor, (screen,), res),
    ensures
        res@.len() == 1,
        res@[0].x == 0,
        res@[0].y == 0,
        res@[0].width == screen.width,
        res@[0].height == screen.height,
{
}

/// How many of the first `n` CRTCs answered with an area and an output.
pub open spec fn shown(crtcs: Seq<Option<CrtcInfo>>, n: int) -> nat
    decreases n,
{
    if n <= 0 {
        0
    } else if crtcs[n - 1] matches Some(info) && info.width != 0 && info.height != 0
        && info.outputs@.len() != 0 {
        shown(crtcs, n - 1) + 1
    } else {
        shown(crtcs, n - 1)
    }
}

/// Where the CRTCs that show something come to stand among the monitors.
proof fn lemma_positions(crtcs: Seq<Option<CrtcInfo>>, n: int)
    requires
        0 <= n <= crtcs.len(),
    ensures
        monitor::active_monitors(crtcs.take(n)).len() == shown(crtcs, n),
        forall|i: int|
            0 <= i < n && monitor::active(crtcs[i]) ==> 0 <= #[trigger] shown(crtcs, i) < shown(
                crtcs,
                n,
            ) && monitor::active_monitors(crtcs.take(n))[shown(crtcs, i) as int]
                == monitor::monitor_of(crtcs[i]),
    decreases n,
{
    reveal(Seq::filter);
    if n > 0 {
        lemma_positions(crtcs, n - 1);
        let next = crtcs.take(n);
        let before = monitor::active_monitors(crtcs.take(n - 1));
        assert(next.drop_last() =~= crtcs.take(n - 1));
        assert(next.last() == crtcs[n - 1]);
        assert(monitor::active_monitors(next) =~= if monitor::active(crtcs[n - 1]) {
            before.push(monitor::monitor_of(crtcs[n - 1]))
        } else {
            before
        });
    }
}

/// Every CRTC that answered with an area and an output has a monitor with exactly
/// its place and its size, behind those of the CRTCs that come before it.
pub proof fn law_crtcs_are_covered_in_order(
    screen: ScreenSize,
    crtcs: Vec<Option<CrtcInfo>>,
    i: int,
    res: Vec<Monitor>,
)
    requires
        call_ensures(monitor::detect_monitors, (screen, &crtcs), res),
        0 <= i < crtcs@.len(),
        crtcs@[i] is Some,
        crtcs@[i]->0.width != 0,
        crtcs@[i]->0.height != 0,
        crtcs@[i]->0.outputs@.len() != 0,
    ensures
        shown(crtcs@, i) < res@.len(),
        res@[shown(crtcs@, i) as int].x == crtcs@[i]->0.x,
        res@[shown(crtcs@, i) as int].y == crtcs@[i]->0.y,
        res@[shown(crtcs@, i) as int].width == crtcs@[i]->0.width,
        res@[shown(crtcs@, i) as int].height == crtcs@[i]->0.height,
{
    lemma_positions(crtcs@, crtcs@.len() as int);
    assert(crtcs@.take(crtcs@.len() as int) =~= crtcs@);
    assert(monitor::active(crtcs@[i]));
}

/// There are as many monitors as CRTCs with an area and an output; where there is
/// no such CRTC, the whole screen is the only monitor.
pub proof fn law_nothing_else_is_covered(
    screen: ScreenSize,
    crtcs: Vec<Option<CrtcInfo>>,
    res: Vec<Monitor>,
)
    requires
        call_ensures(monitor::detect_monitors, (screen, &crtcs), res),
    ensures
        shown(crtcs@, crtcs@.len() as int) > 0 ==> res@.len() == shown(
            crtcs@,
            crtcs@.len() as int,
        ),
        shown(crtcs@, crtcs@.len() as int) == 0 ==> res@.len() == 1 && res@[0] == (Monitor {
            x: 0,
            y: 0,
            width: screen.width,
            height: screen.height,
        }),
{
    lemma_positions(crtcs@, crtcs@.len() as int);
    assert(crtcs@.take(crtcs@.len() as int) =~= crtcs@);
}

/// The window over a monitor lies exactly over it, without a border, in the colour
/// of the background, out of the window manager's reach. It hears of pressed keys,
/// of pressed buttons and of exposure, and of nothing else.
pub proof fn law_window_lies_over_monitor(monitor: Monitor, res: WindowRequest)
    requires
        call_ensures(window::create_lock_window, (&monitor,), res),
    ensures
        res.x == monitor.x,
        res.y == monitor.y,
        res.width == monitor.width,
        res.height == monitor.height,
        res.border_width == 0,
        res.background_pixel == 0x1e1e2e,
        res.override_redirect,
        res.event_mask == 0x1 + 0x4 + 0x8000,
{
}

/// There is one window for each monitor, in the same order and exactly over it.
pub proof fn law_windows_lie_over_monitors(
    monitors: Vec<Monitor>,
    i: int,
    res: Vec<WindowRequest>,
)
    requires
        call_ensures(window::create_windows, (&monitors,), res),
    ensures
        res@.len() == monitors@.len(),
        0 <= i < monitors@.len() ==> {
            &&& res@[i].x == monitors@[i].x
            &&& res@[i].y == monitors@[i].y
            &&& res@[i].width == monitors@[i].width
            &&& res@[i].height == monitors@[i].height
            &&& res@[i].border_width == 0
            &&& res@[i].background_pixel == 0x1e1e2e
            &&& res@[i].override_redirect
            &&& res@[i].event_mask == 0x1 + 0x4 + 0x8000
        },
{
}

/// Whether requests show windows: each one is mapped and then raised, in order, and
/// at last everything is sent.
pub open spec fn shows_windows(requests: Seq<XRequest>, windows: Seq<LockWindow>) -> bool {
    &&& requests.len() == 2 * windows.len() + 1
    &&& requests.last() == XRequest::Flush
    &&& forall|i: int|
        0 <= i < windows.len() ==> {
            &&& requests[2 * i] == XRequest::MapWindow((#[trigger] windows[i]).id)
            &&& requests[2 * i + 1] == XRequest::RaiseWindow(windows[i].id)
        }
}

/// Every window is mapped and raised, and the requests are sent.
pub proof fn law_all_windows_are_shown(
    windows: Vec<LockWindow>,
    res: Vec<XRequest>,
    locker: Locker,
    of_locker: Vec<XRequest>,
)
    requires
        call_ensures(window::map_windows, (&windows,), res),
        call_ensures(Locker::map_windows, (&locker,), of_locker),
    ensures
        shows_windows(res@, windows@),
        shows_windows(of_locker@, locker@.windows),
{
}

/// Whether requests take windows away: each one is destroyed, then their cursor is
/// freed if there is one, and at last everything is sent.
pub open spec fn removes_windows(
    requests: Seq<XRequest>,
    windows: Seq<LockWindow>,
    cursor: Option<u32>,
) -> bool {
    &&& requests.last() == XRequest::Flush
    &&& cursor is None ==> requests.len() == windows.len() + 1
    &&& cursor is Some ==> requests.len() == windows.len() + 2
    &&& cursor matches Some(id) ==> requests[windows.len() as int] == XRequest::FreeCursor(id)
    &&& forall|i: int|
        0 <= i < windows.len() ==> #[trigger] requests[i] == XRequest::DestroyWindow(windows[i].id)
}

/// Every window is destroyed, the cursor is freed, and the requests are sent.
pub proof fn law_all_windows_are_removed(
    windows: Vec<LockWindow>,
    cursor: Option<u32>,
    res: Vec<XRequest>,
    locker: Locker,
    of_locker: Vec<XRequest>,
)
    requires
        call_ensures(window::destroy_windows, (&windows, cursor), res),
        call_ensures(Locker::destroy_windows, (&locker,), of_locker),
    ensures
        removes_windows(res@, windows@, cursor),
        removes_windows(of_locker@, locker@.windows, locker@.cursor),
{
}

/// Both devices are released, and the requests are sent.
pub proof fn law_both_devices_are_released(res: Vec<XRequest>)
    requires
        call_ensures(window::ungrab_input, (), res),
    ensures
        res@.len() == 3,
        res@[0] is UngrabKeyboard,
        res@[1] is UngrabPointer,
        res@[2] is Flush,
{
}

/// Of every window the graphics context and then the pixmap are given back, in
/// order, and nothing else.
pub proof fn law_all_resources_are_freed(ctx: RenderContext, i: int, res: Vec<XRequest>)
    requires
        call_ensures(RenderContext::cleanup, (&ctx,), res),
    ensures
        res@.len() == 2 * ctx@.len(),
        0 <= i < ctx@.len() ==> res@[2 * i] == XRequest::FreeGc(ctx@[i].gc) && res@[2 * i + 1]
            == XRequest::FreePixmap(ctx@[i].pixmap),
{
}

/// A device is grabbed on the window that is given, with events that go on for both
/// devices and are heard of by the locker's own windows. Of the pointer both ends of
/// a click and all motion are reported, it may leave the window, and it has the
/// cursor that is given.
pub proof fn law_grab_request(
    device: Device,
    window: u32,
    cursor: Option<u32>,
    res: GrabRequest,
)
    requires
        call_ensures(grab::grab_request, (device, window, cursor), res),
    ensures
        res.device == device,
        res.window == window,
        res.owner_events,
        res.pointer_mode is Async,
        res.keyboard_mode is Async,
        res.confine_to is None,
        device is Keyboard ==> res.event_mask == 0 && res.cursor is None,
        device is Pointer ==> res.event_mask == 0x4 + 0x8 + 0x40 && res.cursor == cursor,
{
}

/// The keyboard is asked for first, and has not been refused yet.
pub proof fn law_keyboard_comes_first(res: (GrabInput, GrabAction))
    requires
        call_ensures(GrabInput::grab_input, (), res),
    ensures
        res.1 == GrabAction::Grab(Device::Keyboard),
        res.0@ == (GrabPhase::Asked { device: Device::Keyboard, refusals: 0 }),
{
}

/// Grabbing takes an event as `after_event` says, and one that it does not know
/// changes nothing.
pub proof fn law_grab_step(grabbing: &mut GrabInput, event: GrabEvent, res: Option<GrabAction>)
    requires
        call_ensures(GrabInput::step, (grabbing, event), res),
    ensures
        res is Some <==> grab::after_event(old(grabbing)@, event) is Some,
        grab::after_event(old(grabbing)@, event) matches Some((phase, action)) ==> final(grabbing)@
            == phase && res == Some(action),
        res is None ==> final(grabbing)@ == old(grabbing)@,
{
}

/// A refusal, whatever its status, is followed by a pause of 50 milliseconds, except
/// that the tenth one is the last and is reported with its status.
pub proof fn law_refused_grab(device: Device, refusals: u32, status: u8)
    requires
        status != 0,
    ensures
        refusals + 1 < 10 ==> (grab::after_event(
            GrabPhase::Asked { device, refusals },
            GrabEvent::Reply(status),
        ) matches Some((phase, action)) && action == GrabAction::Sleep(50) && (
        phase matches GrabPhase::Resting { device: d, refusals: r } && d == device && r == refusals
            + 1)),
        refusals + 1 >= 10 ==> (grab::after_event(
            GrabPhase::Asked { device, refusals },
            GrabEvent::Reply(status),
        ) matches Some((phase, action)) && phase is GivenUp && (action matches GrabAction::Failed {
            device: d,
            attempts,
            status: s,
        } && d == device && attempts == 10 && s == status)),
{
}

/// A granted keyboard is followed by the pointer, which has not been refused yet,
/// and a granted pointer by nothing, however often each was refused before.
pub proof fn law_granted_grab(refusals: u32)
    ensures
        grab::after_event(
            GrabPhase::Asked { device: Device::Keyboard, refusals },
            GrabEvent::Reply(0),
        ) == Some(
            (
                GrabPhase::Asked { device: Device::Pointer, refusals: 0 },
                GrabAction::Grab(Device::Pointer),
            ),
        ),
        grab::after_event(
            GrabPhase::Asked { device: Device::Pointer, refusals },
            GrabEvent::Reply(0),
        ) == Some((GrabPhase::Granted, GrabAction::Done)),
{
}

/// After a pause the same device is asked for again, with its refusals still
/// counted.
pub proof fn law_pause_ends(device: Device, refusals: u32)
    ensures
        grab::after_event(GrabPhase::Resting { device, refusals }, GrabEvent::Rested) == Some(
            (GrabPhase::Asked { device, refusals }, GrabAction::Grab(device)),
        ),
{
}

/// A reply is taken exactly while a device is asked for, and the end of a pause
/// exactly during one.
pub proof fn law_grab_events(phase: GrabPhase, event: GrabEvent)
    ensures
        grab::after_event(phase, event) is Some <==> (phase is Asked && event is Reply) || (
        phase is Resting && event is Rested),
{
}

/// The action that follows is the one of the phase that is entered: giving up, a
/// pause, a request for the device, or nothing more to do.
pub proof fn law_grab_actions_follow_phases(phase: GrabPhase, event: GrabEvent, device: Device)
    ensures
        grab::after_event(phase, event) matches Some((next, action)) ==> {
            &&& action is Failed <==> next is GivenUp
            &&& action is Sleep <==> next is Resting
            &&& action is Done <==> next is Granted
            &&& action == GrabAction::Grab(device) <==> (next matches GrabPhase::Asked {
                device: d,
                ..
            } && d == device)
        },
{
}

} // verus!
