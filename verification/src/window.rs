//! The windows that cover the monitors, and the requests that concern them.
use vstd::prelude::*;

use crate::monitor::Monitor;

verus! {

/// The colour of a window before its first frame, as a pixel value.
pub const COLOR_BASE: u32 = 0x1e1e2e;

/// Event mask of key presses.
pub const EVENT_KEY_PRESS: u32 = 0x1;

/// Event mask of button presses.
pub const EVENT_BUTTON_PRESS: u32 = 0x4;

/// Event mask of button releases.
pub const EVENT_BUTTON_RELEASE: u32 = 0x8;

/// Event mask of motions of the pointer.
pub const EVENT_POINTER_MOTION: u32 = 0x40;

/// Event mask of windows that have to be drawn again.
pub const EVENT_EXPOSURE: u32 = 0x8000;

/// A window that covers a monitor.
#[derive(Debug, Clone, Copy, PartialEq, Eq, Structural)]
pub struct LockWindow {
    pub id: u32,
    pub width: u16,
    pub height: u16,
}

/// How a window is to be created.
#[derive(Debug, Clone, Copy, PartialEq, Eq, Structural)]
pub struct WindowRequest {
    pub x: i16,
    pub y: i16,
    pub width: u16,
    pub height: u16,
    pub border_width: u16,
    pub background_pixel: u32,
    pub override_redirect: bool,
    pub event_mask: u32,
}

/// A request to the X server.
#[derive(Debug, Clone, Copy, PartialEq, Eq, Structural)]
pub enum XRequest {
    MapWindow(u32),
    /// Put a window above all others.
    RaiseWindow(u32),
    DestroyWindow(u32),
    FreeCursor(u32),
    FreeGc(u32),
    FreePixmap(u32),
    UngrabKeyboard,
    UngrabPointer,
    /// Send all requests made so far.
    Flush,
}

/// How the window over a monitor is created: exactly over it, without a border,
/// out of the window manager's reach, hearing of keys, buttons and exposure.
pub open spec fn window_over(monitor: Monitor) -> WindowRequest {
    WindowRequest {
        x: monitor.x,
        y: monitor.y,
        width: monitor.width,
        height: monitor.height,
        border_width: 0,
        background_pixel: COLOR_BASE,
        override_redirect: true,
        event_mask: 0x8005,
    }
}

/// Says how the window over a monitor is to be created.
pub fn create_lock_window(monitor: &Monitor) -> (res: WindowRequest)
    ensures
        res == window_over(*monitor),
{
    assert(EVENT_KEY_PRESS | EVENT_BUTTON_PRESS | EVENT_EXPOSURE == 0x8005) by (bit_vector);
    WindowRequest {
        x: monitor.x,
        y: monitor.y,
        width: monitor.width,
        height: monitor.height,
        border_width: 0,
        background_pixel: COLOR_BASE,
        override_redirect: true,
        event_mask: EVENT_KEY_PRESS | EVENT_BUTTON_PRESS | EVENT_EXPOSURE,
    }
}

/// Says how to create the windows over monitors, one over each.
pub fn create_windows(monitors: &Vec<Monitor>) -> (res: Vec<WindowRequest>)
    ensures
        res@ == monitors@.map_values(|m: Monitor| window_over(m)),
{
    let mut res: Vec<WindowRequest> = Vec::new();
    let mut i: usize = 0;
    while i < monitors.len()
        invariant
            i <= monitors.len(),
            res@.len() == i,
            forall|k: int| 0 <= k < i ==> #[trigger] res@[k] == window_over(monitors@[k]),
        decreases monitors.len() - i,
    {
        res.push(create_lock_window(&monitors[i]));
        i = i + 1;
    }
    assert(res@ =~= monitors@.map_values(|m: Monitor| window_over(m)));
    res
}

/// The requests that show windows: each is mapped and put above all others.
pub open spec fn map_requests(windows: Seq<LockWindow>) -> Seq<XRequest> {
    Seq::new(
        2 * windows.len(),
        |i: int|
            if i % 2 == 0 {
                XRequest::MapWindow(windows[i / 2].id)
            } else {
                XRequest::RaiseWindow(windows[i / 2].id)
            },
    ).push(XRequest::Flush)
}

/// The requests that release the input.
pub open spec fn ungrab_requests() -> Seq<XRequest> {
    seq![XRequest::UngrabKeyboard, XRequest::UngrabPointer, XRequest::Flush]
}

/// The requests that take windows away, and their cursor if they have one.
pub open spec fn destroy_requests(windows: Seq<LockWindow>, cursor: Option<u32>) -> Seq<XRequest> {
    windows.map_values(|w: LockWindow| XRequest::DestroyWindow(w.id)) + match cursor {
        Some(id) => seq![XRequest::FreeCursor(id)],
        None => Seq::empty(),
    } + seq![XRequest::Flush]
}

/// Says how to show windows.
pub fn map_windows(windows: &Vec<LockWindow>) -> (res: Vec<XRequest>)
    ensures
        res@ == map_requests(windows@),
{
    let mut res: Vec<XRequest> = Vec::new();
    let mut i: usize = 0;
    while i < windows.len()
        invariant
            i <= windows.len(),
            res@.len() == 2 * i,
            forall|k: int|
                0 <= k < res@.len() ==> #[trigger] res@[k] == map_requests(windows@)[k],
        decreases windows.len() - i,
    {
        res.push(XRequest::MapWindow(windows[i].id));
        res.push(XRequest::RaiseWindow(windows[i].id));
        i = i + 1;
    }
    res.push(XRequest::Flush);
    assert(res@ =~= map_requests(windows@));
    res
}

/// Says how to release the input.
pub fn ungrab_input() -> (res: Vec<XRequest>)
    ensures
        res@ == ungrab_requests(),
{
    let res = vec![XRequest::UngrabKeyboard, XRequest::UngrabPointer, XRequest::Flush];
    assert(res@ =~= ungrab_requests());
    res
}

/// Says how to take windows away.
pub fn destroy_windows(windows: &Vec<LockWindow>, cursor: Option<u32>) -> (res: Vec<XRequest>)
    ensures
        res@ == destroy_requests(windows@, cursor),
{
    let mut res: Vec<XRequest> = Vec::new();
    let mut i: usize = 0;
    while i < windows.len()
        invariant
            i <= windows.len(),
            res@.len() == i,
            forall|k: int|
                0 <= k < i ==> #[trigger] res@[k] == XRequest::DestroyWindow(windows@[k].id),
        decreases windows.len() - i,
    {
        res.push(XRequest::DestroyWindow(windows[i].id));
        i = i + 1;
    }
    if let Some(id) = cursor {
        res.push(XRequest::FreeCursor(id));
    }
    res.push(XRequest::Flush);
    assert(res@ =~= destroy_requests(windows@, cursor));
    res
}

} // verus!
