//! Grabbing the keyboard and the pointer, with a bounded number of attempts.
use vstd::prelude::*;

use crate::window::{EVENT_BUTTON_PRESS, EVENT_BUTTON_RELEASE, EVENT_POINTER_MOTION};

verus! {

/// How often a grab is tried.
pub const GRAB_RETRY_COUNT: u32 = 10;

/// How long to wait between two attempts, in milliseconds.
pub const GRAB_RETRY_DELAY_MS: u64 = 50;

/// The status of a grab that was granted.
pub const GRAB_SUCCESS: u8 = 0;

/// What can be grabbed.
#[derive(Debug, Clone, Copy, PartialEq, Eq, Structural)]
pub enum Device {
    Keyboard,
    Pointer,
}

/// Whether events go on while a device is grabbed, or wait to be let through.
#[derive(Debug, Clone, Copy, PartialEq, Eq, Structural)]
pub enum GrabMode {
    Sync,
    Async,
}

/// How a device is to be grabbed.
#[derive(Debug, Clone, Copy, PartialEq, Eq, Structural)]
pub struct GrabRequest {
    pub device: Device,
    /// Whether the locker's own windows hear of events as without the grab.
    pub owner_events: bool,
    /// The window on which the device is grabbed.
    pub window: u32,
    pub pointer_mode: GrabMode,
    pub keyboard_mode: GrabMode,
    /// The pointer events that are reported.
    pub event_mask: u32,
    /// The window that the pointer must not leave.
    pub confine_to: Option<u32>,
    /// The cursor that is shown meanwhile.
    pub cursor: Option<u32>,
}

/// How a device is grabbed on a window: nothing waits to be let through, and the
/// pointer is free to move, with its buttons and its motion reported and the
/// locker's cursor shown.
pub open spec fn request_for(device: Device, window: u32, cursor: Option<u32>) -> GrabRequest {
    GrabRequest {
        device,
        owner_events: true,
        window,
        pointer_mode: GrabMode::Async,
        keyboard_mode: GrabMode::Async,
        event_mask: match device {
            Device::Keyboard => 0,
            Device::Pointer => 0x4c,
        },
        confine_to: None,
        cursor: match device {
            Device::Keyboard => None,
            Device::Pointer => cursor,
        },
    }
}

/// Says how to grab a device.
pub fn grab_request(device: Device, window: u32, cursor: Option<u32>) -> (res: GrabRequest)
    ensures
        res == request_for(device, window, cursor),
{
    assert(EVENT_BUTTON_PRESS | EVENT_BUTTON_RELEASE | EVENT_POINTER_MOTION == 0x4c)
        by (bit_vector);
    let (event_mask, cursor) = match device {
        Device::Keyboard => (0, None),
        Device::Pointer => (
            EVENT_BUTTON_PRESS | EVENT_BUTTON_RELEASE | EVENT_POINTER_MOTION,
            cursor,
        ),
    };
    GrabRequest {
        device,
        owner_events: true,
        window,
        pointer_mode: GrabMode::Async,
        keyboard_mode: GrabMode::Async,
        event_mask,
        confine_to: None,
        cursor,
    }
}

/// What is to be done next.
#[derive(Debug, Clone, Copy, PartialEq, Eq, Structural)]
pub enum GrabAction {
    /// Ask for the grab of a device.
    Grab(Device),
    /// Wait, in milliseconds, then ask once more.
    Sleep(u64),
    /// Nothing: both devices are grabbed.
    Done,
    /// Give up: a device was refused at every attempt, at last with this status.
    Failed { device: Device, attempts: u32, status: u8 },
}

/// Where grabbing the input stands.
#[derive(Debug, Clone, Copy, PartialEq, Eq, Structural)]
pub enum GrabPhase {
    /// A device has been asked for, after this many refusals.
    Asked { device: Device, refusals: u32 },
    /// The wait after a refusal goes on.
    Resting { device: Device, refusals: u32 },
    /// Both devices are grabbed.
    Granted,
    /// The input could not be grabbed.
    GivenUp,
}

/// What came of the last action.
#[derive(Debug, Clone, Copy, PartialEq, Eq, Structural)]
pub enum GrabEvent {
    /// The server answered with this status.
    Reply(u8),
    /// The wait is over.
    Rested,
}

/// What follows from an answer of the server: a granted keyboard is followed by
/// the pointer, a refusal by a wait, the last refusal by nothing.
pub open spec fn after_reply(device: Device, refusals: u32, status: u8) -> (GrabPhase, GrabAction) {
    if status == GRAB_SUCCESS {
        match device {
            Device::Keyboard => (
                GrabPhase::Asked { device: Device::Pointer, refusals: 0 },
                GrabAction::Grab(Device::Pointer),
            ),
            Device::Pointer => (GrabPhase::Granted, GrabAction::Done),
        }
    } else if refusals + 1 >= GRAB_RETRY_COUNT {
        (
            GrabPhase::GivenUp,
            GrabAction::Failed { device, attempts: GRAB_RETRY_COUNT, status },
        )
    } else {
        (
            GrabPhase::Resting { device, refusals: (refusals + 1) as u32 },
            GrabAction::Sleep(GRAB_RETRY_DELAY_MS),
        )
    }
}

/// What follows from an event. `None` says that the event answers no action
/// that is under way.
pub open spec fn after_event(phase: GrabPhase, event: GrabEvent) -> Option<(GrabPhase, GrabAction)> {
    match (phase, event) {
        (GrabPhase::Asked { device, refusals }, GrabEvent::Reply(status)) => Some(
            after_reply(device, refusals, status),
        ),
        (GrabPhase::Resting { device, refusals }, GrabEvent::Rested) => Some(
            (GrabPhase::Asked { device, refusals }, GrabAction::Grab(device)),
        ),
        _ => None,
    }
}

/// The grab of the keyboard and then of the pointer.
pub struct GrabInput {
    phase: GrabPhase,
}

impl View for GrabInput {
    type V = GrabPhase;

    closed spec fn view(&self) -> GrabPhase {
        self.phase
    }
}

impl GrabInput {
    /// Starts with the keyboard.
    pub fn grab_input() -> (res: (Self, GrabAction))
        ensures
            res.0@ == (GrabPhase::Asked { device: Device::Keyboard, refusals: 0 }),
            res.1 == GrabAction::Grab(Device::Keyboard),
    {
        (
            GrabInput { phase: GrabPhase::Asked { device: Device::Keyboard, refusals: 0 } },
            GrabAction::Grab(Device::Keyboard),
        )
    }

    /// Handles the server's answer to a request for the keyboard.
    fn retry_grab_keyboard(&mut self, refusals: u32, status: u8) -> (res: GrabAction)
        ensures
            (final(self)@, res) == after_reply(Device::Keyboard, refusals, status),
    {
        if status == GRAB_SUCCESS {
            self.phase = GrabPhase::Asked { device: Device::Pointer, refusals: 0 };
            return GrabAction::Grab(Device::Pointer);
        }
        self.refused(Device::Keyboard, refusals, status)
    }

    /// Handles the server's answer to a request for the pointer.
    fn retry_grab_pointer(&mut self, refusals: u32, status: u8) -> (res: GrabAction)
        ensures
            (final(self)@, res) == after_reply(Device::Pointer, refusals, status),
    {
        if status == GRAB_SUCCESS {
            self.phase = GrabPhase::Granted;
            return GrabAction::Done;
        }
        self.refused(Device::Pointer, refusals, status)
    }

    fn refused(&mut self, device: Device, refusals: u32, status: u8) -> (res: GrabAction)
        requires
            status != GRAB_SUCCESS,
        ensures
            (final(self)@, res) == after_reply(device, refusals, status),
    {
        if refusals >= GRAB_RETRY_COUNT - 1 {
            self.phase = GrabPhase::GivenUp;
            return GrabAction::Failed { device, attempts: GRAB_RETRY_COUNT, status };
        }
        self.phase = GrabPhase::Resting { device, refusals: refusals + 1 };
        GrabAction::Sleep(GRAB_RETRY_DELAY_MS)
    }

    /// Takes what came of the last action and says what to do next. An event that
    /// answers no action under way changes nothing and gives `None`.
    pub fn step(&mut self, event: GrabEvent) -> (res: Option<GrabAction>)
        ensures
            match after_event(old(self)@, event) {
                Some((phase, action)) => final(self)@ == phase && res == Some(action),
                None => final(self)@ == old(self)@ && res is None,
            },
    {
        match (self.phase, event) {
            (
                GrabPhase::Asked { device: Device::Keyboard, refusals },
                GrabEvent::Reply(status),
            ) => Some(self.retry_grab_keyboard(refusals, status)),
            (
                GrabPhase::Asked { device: Device::Pointer, refusals },
                GrabEvent::Reply(status),
            ) => Some(self.retry_grab_pointer(refusals, status)),
            (GrabPhase::Resting { device, refusals }, GrabEvent::Rested) => {
                self.phase = GrabPhase::Asked { device, refusals };
                Some(GrabAction::Grab(device))
            },
            _ => None,
        }
    }
}

} // verus!
