//! Which parts of the screen have to be covered.
use vstd::prelude::*;

verus! {

/// A monitor, as the part of the screen that it shows.
#[derive(Debug, Clone, Copy, PartialEq, Eq, Structural)]
pub struct Monitor {
    pub x: i16,
    pub y: i16,
    pub width: u16,
    pub height: u16,
}

/// What RandR says of a CRTC: the part of the screen that it scans out, and the
/// outputs that it drives.
#[derive(Debug)]
pub struct CrtcInfo {
    pub x: i16,
    pub y: i16,
    pub width: u16,
    pub height: u16,
    pub outputs: Vec<u32>,
}

/// The size of a screen.
#[derive(Debug, Clone, Copy, PartialEq, Eq, Structural)]
pub struct ScreenSize {
    pub width: u16,
    pub height: u16,
}

/// Whether RandR can be asked for its CRTCs, which it can from version 1.2 on.
pub open spec fn lists_crtcs(major_version: u32, minor_version: u32) -> bool {
    major_version > 1 || (major_version == 1 && minor_version >= 2)
}

/// Checks if RandR can be asked for its CRTCs.
pub fn randr_lists_crtcs(major_version: u32, minor_version: u32) -> (res: bool)
    ensures
        res == lists_crtcs(major_version, minor_version),
{
    !(major_version < 1 || (major_version == 1 && minor_version < 2))
}

/// The whole screen, taken for one monitor.
pub open spec fn whole_screen(screen: ScreenSize) -> Monitor {
    Monitor { x: 0, y: 0, width: screen.width, height: screen.height }
}

/// Whether a CRTC shows something: RandR answered for it, and it has an area and
/// an output.
pub open spec fn active(crtc: Option<CrtcInfo>) -> bool {
    crtc matches Some(info) && info.width != 0 && info.height != 0 && info.outputs@.len() != 0
}

/// The monitor of a CRTC that shows something.
pub open spec fn monitor_of(crtc: Option<CrtcInfo>) -> Monitor {
    Monitor { x: crtc->0.x, y: crtc->0.y, width: crtc->0.width, height: crtc->0.height }
}

/// The monitors of the CRTCs that show something, in the order of the CRTCs.
pub open spec fn active_monitors(crtcs: Seq<Option<CrtcInfo>>) -> Seq<Monitor> {
    crtcs.filter(|crtc: Option<CrtcInfo>| active(crtc)).map_values(
        |crtc: Option<CrtcInfo>| monitor_of(crtc),
    )
}

/// The monitors to cover: those of the CRTCs that show something, and the whole
/// screen where there is none.
pub open spec fn monitors_to_cover(
    screen: ScreenSize,
    crtcs: Seq<Option<CrtcInfo>>,
) -> Seq<Monitor> {
    if active_monitors(crtcs).len() == 0 {
        seq![whole_screen(screen)]
    } else {
        active_monitors(crtcs)
    }
}

/// The whole screen as the only monitor.
pub fn fallback_monitor(screen: ScreenSize) -> (res: Vec<Monitor>)
    ensures
        res@ == seq![whole_screen(screen)],
{
    let res = vec![Monitor { x: 0, y: 0, width: screen.width, height: screen.height }];
    assert(res@ =~= seq![whole_screen(screen)]);
    res
}

/// Starts to look for monitors, once the version of RandR is known. `None` says
/// that RandR has to be asked for its CRTCs.
pub fn begin_detection(screen: ScreenSize, major_version: u32, minor_version: u32) -> (res: Option<
    Vec<Monitor>,
>)
    ensures
        res is None <==> lists_crtcs(major_version, minor_version),
        res matches Some(monitors) ==> monitors@ == seq![whole_screen(screen)],
{
    if randr_lists_crtcs(major_version, minor_version) {
        None
    } else {
        Some(fallback_monitor(screen))
    }
}

/// The monitors to cover, given for each CRTC what RandR says of it, if it
/// answered.
pub fn detect_monitors(screen: ScreenSize, crtcs: &Vec<Option<CrtcInfo>>) -> (res: Vec<Monitor>)
    ensures
        res@ == monitors_to_cover(screen, crtcs@),
{
    let mut monitors: Vec<Monitor> = Vec::new();
    let mut i: usize = 0;
    proof {
        reveal(Seq::filter);
    }
    assert(monitors@ =~= active_monitors(crtcs@.take(0)));
    while i < crtcs.len()
        invariant
            i <= crtcs.len(),
            monitors@ == active_monitors(crtcs@.take(i as int)),
        decreases crtcs.len() - i,
    {
        let ghost next = crtcs@.take(i + 1);
        proof {
            reveal(Seq::filter);
            assert(next.drop_last() =~= crtcs@.take(i as int));
            assert(next.last() == crtcs@[i as int]);
        }
        if let Some(info) = &crtcs[i] {
            if info.width != 0 && info.height != 0 && info.outputs.len() != 0 {
                monitors.push(
                    Monitor { x: info.x, y: info.y, width: info.width, height: info.height },
                );
            }
        }
        i = i + 1;
        assert(monitors@ =~= active_monitors(next));
    }
    assert(crtcs@.take(crtcs@.len() as int) =~= crtcs@);
    if monitors.len() == 0 {
        fallback_monitor(screen)
    } else {
        monitors
    }
}

} // verus!
