//! The locker: its windows, its prompt and its event loop.
//!
//! The loop is a machine that asks for one action at a time. Whoever runs it
//! performs the action and answers with the event that came of it.
use vstd::prelude::*;

use crate::auth::AuthResult;
use crate::input::{AuthFeedback, Input, KeyOutcome};
#[allow(unused_imports)]
use crate::input::{InputView, Key};
use crate::keysyms;
use crate::render;
use crate::render::{
    BlitResources, Canvas, DrawOp, EmptyWallpaper, Extent, FrameContent, ImageSize, RenderContext,
};
use crate::text;
use crate::window;
use crate::window::{LockWindow, WindowRequest, XRequest};

verus! {

/// How long a frame is shown before the clock on it is drawn again, in
/// nanoseconds.
pub const CLOCK_REDRAW_INTERVAL: u128 = 60_000_000_000;

/// Nanoseconds in a millisecond.
pub const NANOS_PER_MILLI: u128 = 1_000_000;

/// What the server reports.
#[derive(Debug, Clone, Copy, PartialEq, Eq, Structural)]
pub enum XEvent {
    /// A key was pressed while modifiers were held.
    KeyPress { keycode: u8, modifiers: u16 },
    /// A button was pressed.
    ButtonPress,
    /// A window has to be drawn again.
    Expose,
    /// Anything else.
    Other,
}

/// What came of an action.
#[derive(Debug)]
pub enum Event {
    /// The frame has been drawn.
    Rendered,
    /// Whether a signal asked the locker to end.
    Termination(bool),
    /// The time since the last frame, in nanoseconds.
    Elapsed(u128),
    /// The next report of the server, if one has arrived.
    Pending(Option<XEvent>),
    /// The symbols of the key that was pressed.
    Mapping(Vec<u32>),
    /// PAM's answer.
    Authenticated(AuthResult),
    /// PAM could not be asked.
    AuthError,
    /// The wait is over: what `poll` returned, and whether a signal cut it short.
    Woken { result: i32, interrupted: bool },
}

/// What is to be done next.
#[derive(Debug, Clone, Copy, PartialEq, Eq, Structural)]
pub enum Action {
    /// Draw a frame in every window.
    Render,
    /// Find out if a signal asked the locker to end.
    CheckTermination,
    /// Measure the time since the last frame.
    MeasureElapsed,
    /// Fetch the next report of the server, without waiting for one.
    PollEvent,
    /// Look up the symbols of a key.
    QueryMapping(u8),
    /// Ask PAM about the submitted password.
    Authenticate,
    /// Wait for the server, at most this many milliseconds.
    Wait(i32),
    /// Leave the loop.
    Exit(Ending),
}

/// Why the loop ends.
#[derive(Debug, Clone, Copy, PartialEq, Eq, Structural)]
pub enum Ending {
    /// A signal asked for it.
    Terminated,
    /// The user has logged in.
    Unlocked,
    /// Waiting for the server failed.
    WaitFailed,
    /// PAM could not be asked.
    AuthFailed,
}

/// Where the loop goes on after a frame.
#[derive(Debug, Clone, Copy, PartialEq, Eq, Structural)]
pub enum Resume {
    /// At the start of a turn.
    Turn,
    /// At the next report of the server.
    Drain,
}

/// Where the loop stands: which action is under way.
#[derive(Debug, Clone, Copy, PartialEq, Eq, Structural)]
pub enum Phase {
    /// The loop has not started.
    Created,
    /// A frame is being drawn.
    Rendering(Resume),
    /// A turn starts.
    Turning,
    /// The age of the frame decides if the clock is drawn again.
    Aging,
    /// The reports of the server are handled.
    Draining,
    /// The symbols of a pressed key are looked up.
    Resolving { modifiers: u16 },
    /// PAM is being asked.
    Authenticating,
    /// All reports are handled, and the age of the frame decides if there is time
    /// to wait.
    Settling,
    /// The age of the frame decides how long to wait.
    Timing,
    /// The loop waits for the server.
    Waiting,
    /// The loop has ended.
    Finished,
}

/// The contents of a locker.
#[verifier::ext_equal]
pub struct LockerView {
    pub windows: Seq<LockWindow>,
    pub cursor: Option<u32>,
    pub canvases: Option<Seq<Canvas>>,
    pub input: InputView,
    /// The password with which a login is being tried.
    pub submitted: Seq<char>,
    pub phase: Phase,
}

/// What is under way in a phase.
pub open spec fn pending_action(phase: Phase, action: Action) -> bool {
    match phase {
        Phase::Created => false,
        Phase::Rendering(_) => action is Render,
        Phase::Turning => action is CheckTermination,
        Phase::Aging | Phase::Settling | Phase::Timing => action is MeasureElapsed,
        Phase::Draining => action is PollEvent,
        Phase::Resolving { .. } => action is QueryMapping,
        Phase::Authenticating => action is Authenticate,
        Phase::Waiting => action is Wait,
        Phase::Finished => action is Exit,
    }
}

/// Whether an event answers an action.
pub open spec fn answers(event: Event, action: Action) -> bool {
    match action {
        Action::Render => event is Rendered,
        Action::CheckTermination => event is Termination,
        Action::MeasureElapsed => event is Elapsed,
        Action::PollEvent => event is Pending,
        Action::QueryMapping(_) => event is Mapping,
        Action::Authenticate => event is Authenticated || event is AuthError,
        Action::Wait(_) => event is Woken,
        Action::Exit(_) => false,
    }
}

/// How long to wait when a frame is this old, in milliseconds: until it is due to
/// be drawn again, and not at all where that is past.
pub open spec fn wait_millis(elapsed: u128) -> int {
    if elapsed <= CLOCK_REDRAW_INTERVAL {
        (CLOCK_REDRAW_INTERVAL - elapsed) / 1_000_000
    } else {
        0
    }
}

impl LockerView {
    /// What holds of a locker from the start of the loop on. Only while PAM is asked
    /// is there a password besides the one in the prompt, and then the prompt holds
    /// none. The prompt is settled, except while PAM is asked and once the loop has
    /// ended.
    pub open spec fn sound(self) -> bool {
        &&& self.input.sound()
        &&& forall|i: int|
            0 <= i < self.submitted.len() ==> crate::input::typeable(#[trigger] self.submitted[i])
        &&& self.phase is Authenticating ==> self.input.password.len() == 0
        &&& !(self.phase is Authenticating) ==> self.submitted.len() == 0
        &&& !(self.phase is Authenticating) && !(self.phase is Finished) ==> self.input.settled()
    }

    /// Goes on in another phase.
    pub open spec fn enter(self, phase: Phase) -> LockerView {
        LockerView { phase, ..self }
    }

    /// Goes on after a frame.
    pub open spec fn resume(self, then: Resume) -> (LockerView, Action) {
        match then {
            Resume::Turn => (self.enter(Phase::Turning), Action::CheckTermination),
            Resume::Drain => (self.enter(Phase::Draining), Action::PollEvent),
        }
    }

    /// Draws a frame, if the windows can be drawn, and goes on after it.
    pub open spec fn draw(self, then: Resume) -> (LockerView, Action) {
        if self.canvases is Some {
            (self.enter(Phase::Rendering(then)), Action::Render)
        } else {
            self.resume(then)
        }
    }

    /// Leaves the loop.
    pub open spec fn end(self, ending: Ending) -> (LockerView, Action) {
        (self.enter(Phase::Finished), Action::Exit(ending))
    }

    /// Handles a report of the server, or that there is none left.
    pub open spec fn handle_report(self, report: Option<XEvent>) -> (LockerView, Action) {
        match report {
            Some(XEvent::KeyPress { keycode, modifiers }) => (
                self.enter(Phase::Resolving { modifiers }),
                Action::QueryMapping(keycode),
            ),
            Some(XEvent::Expose) => self.draw(Resume::Drain),
            Some(_) => (self.enter(Phase::Draining), Action::PollEvent),
            None => (self.enter(Phase::Settling), Action::MeasureElapsed),
        }
    }

    /// Handles a key. Enter hands the password over to be tried, and takes it out
    /// of the prompt; a key that changes the prompt has it drawn.
    pub open spec fn handle_key(self, key: Key) -> (LockerView, Action) {
        match crate::input::key_outcome(key) {
            KeyOutcome::Submit => (
                LockerView {
                    input: self.input.submitted(),
                    submitted: self.input.password,
                    phase: Phase::Authenticating,
                    ..self
                },
                Action::Authenticate,
            ),
            KeyOutcome::Redraw => LockerView { input: self.input.after_key(key), ..self }.draw(
                Resume::Drain,
            ),
            KeyOutcome::Ignore => (self.enter(Phase::Draining), Action::PollEvent),
        }
    }

    /// Handles the outcome of a login: only success unlocks. Either way the
    /// password that was tried is forgotten.
    pub open spec fn handle_auth(self, result: AuthResult) -> (LockerView, Action) {
        let forgotten = LockerView { submitted: Seq::empty(), ..self };
        match result {
            AuthResult::Success => forgotten.end(Ending::Unlocked),
            AuthResult::Failure(message) => LockerView {
                input: self.input.refused(message@),
                ..forgotten
            }.draw(Resume::Drain),
        }
    }

    /// What follows from an event. `None` says that it answers no action that is
    /// under way.
    pub open spec fn after(self, event: Event) -> Option<(LockerView, Action)> {
        match (self.phase, event) {
            (Phase::Rendering(then), Event::Rendered) => Some(self.resume(then)),
            (Phase::Turning, Event::Termination(requested)) => Some(
                if requested {
                    self.end(Ending::Terminated)
                } else {
                    (self.enter(Phase::Aging), Action::MeasureElapsed)
                },
            ),
            (Phase::Aging, Event::Elapsed(elapsed)) => Some(
                if elapsed >= CLOCK_REDRAW_INTERVAL {
                    self.draw(Resume::Drain)
                } else {
                    self.resume(Resume::Drain)
                },
            ),
            (Phase::Draining, Event::Pending(report)) => Some(self.handle_report(report)),
            (Phase::Resolving { modifiers }, Event::Mapping(mapping)) => Some(
                self.handle_key(
                    crate::input::key_meaning(
                        keysyms::key_symbol(mapping@, modifiers),
                        modifiers,
                    ),
                ),
            ),
            (Phase::Authenticating, Event::Authenticated(result)) => Some(self.handle_auth(result)),
            (Phase::Authenticating, Event::AuthError) => Some(
                LockerView { submitted: Seq::empty(), ..self }.end(Ending::AuthFailed),
            ),
            (Phase::Settling, Event::Elapsed(elapsed)) => Some(
                if elapsed < CLOCK_REDRAW_INTERVAL {
                    (self.enter(Phase::Timing), Action::MeasureElapsed)
                } else {
                    self.resume(Resume::Turn)
                },
            ),
            (Phase::Timing, Event::Elapsed(elapsed)) => Some(
                (self.enter(Phase::Waiting), Action::Wait(wait_millis(elapsed) as i32)),
            ),
            (Phase::Waiting, Event::Woken { result, interrupted }) => Some(
                if result < 0 && !interrupted {
                    self.end(Ending::WaitFailed)
                } else {
                    self.resume(Resume::Turn)
                },
            ),
            _ => None,
        }
    }

    /// The locker once events have come one after the other.
    pub open spec fn after_all(self, events: Seq<Event>) -> LockerView
        decreases events.len(),
    {
        if events.len() == 0 {
            self
        } else {
            let before = self.after_all(events.drop_last());
            match before.after(events.last()) {
                Some((next, _)) => next,
                None => before,
            }
        }
    }

    /// What the frame of a window is made of, given the sizes of its texts. Of the
    /// password only the length counts, and the message is left out while there is
    /// none to show.
    pub open spec fn content(
        self,
        i: int,
        time: Extent,
        date: Extent,
        message: Extent,
    ) -> FrameContent {
        FrameContent {
            width: self.windows[i].width,
            height: self.windows[i].height,
            wallpaper: self.canvases->0[i].background is Some,
            state: self.input.state,
            password_len: vstd::utf8::encode_utf8(self.input.password).len() as usize,
            time,
            date,
            message: if self.input.feedback is Message {
                Some(message)
            } else {
                None
            },
        }
    }

    /// Whether a window can be drawn.
    pub open spec fn can_draw(self, i: int) -> bool {
        self.canvases is Some && 0 <= i < self.windows.len() && i < self.canvases->0.len()
    }

    /// The window on which the input is grabbed: the first one, or `root` where
    /// there is none.
    pub open spec fn grab_target(self, root: u32) -> u32 {
        if self.windows.len() > 0 {
            self.windows[0].id
        } else {
            root
        }
    }
}

/// The time until a frame of this age is due to be drawn again, in nanoseconds,
/// unless that is past.
pub fn time_until_next_render(elapsed: u128) -> (res: Option<u128>)
    ensures
        res is Some <==> elapsed <= CLOCK_REDRAW_INTERVAL,
        res matches Some(left) ==> left == CLOCK_REDRAW_INTERVAL - elapsed,
{
    CLOCK_REDRAW_INTERVAL.checked_sub(elapsed)
}

/// How long to wait for the server when the frame is this old, in milliseconds.
pub fn poll_timeout(elapsed: u128) -> (res: i32)
    ensures
        res == wait_millis(elapsed),
{
    match time_until_next_render(elapsed) {
        Some(left) => {
            let millis = left / NANOS_PER_MILLI;
            if millis < i32::MAX as u128 {
                millis as i32
            } else {
                i32::MAX
            }
        },
        None => 0,
    }
}

/// The locker.
pub struct Locker {
    windows: Vec<LockWindow>,
    cursor: Option<u32>,
    render_ctx: Option<RenderContext>,
    input: Input,
    submitted: String,
    phase: Phase,
}

impl View for Locker {
    type V = LockerView;

    closed spec fn view(&self) -> LockerView {
        LockerView {
            windows: self.windows@,
            cursor: self.cursor,
            canvases: match self.render_ctx {
                Some(ctx) => Some(ctx@),
                None => None,
            },
            input: self.input@,
            submitted: self.submitted@,
            phase: self.phase,
        }
    }
}

impl Locker {
    /// A locker without windows.
    pub fn new() -> (res: Self)
        ensures
            res@ == (LockerView {
                windows: Seq::empty(),
                cursor: None,
                canvases: None,
                input: crate::input::prompt(Seq::empty()),
                submitted: Seq::empty(),
                phase: Phase::Created,
            }),
    {
        Locker {
            windows: Vec::new(),
            cursor: None,
            render_ctx: None,
            input: Input::new(),
            submitted: String::new(),
            phase: Phase::Created,
        }
    }

    /// Takes note of a window that was created.
    pub fn add_window(&mut self, id: u32, request: &WindowRequest)
        ensures
            final(self)@ == (LockerView {
                windows: old(self)@.windows.push(
                    LockWindow { id, width: request.width, height: request.height },
                ),
                ..old(self)@
            }),
    {
        self.windows.push(LockWindow { id, width: request.width, height: request.height });
    }

    /// Takes note of the invisible cursor, if it could be created.
    pub fn init_cursor(&mut self, cursor: Option<u32>)
        ensures
            final(self)@ == (LockerView { cursor, ..old(self)@ }),
    {
        self.cursor = cursor;
    }

    /// Prepares the windows to be drawn, given what was created for each of them on
    /// the server, and puts the wallpaper behind them, if there is one. A wallpaper
    /// without an area is refused, and changes nothing.
    pub fn load_background(
        &mut self,
        resources: &Vec<BlitResources>,
        wallpaper: Option<ImageSize>,
    ) -> (res: Result<(), EmptyWallpaper>)
        ensures
            res is Err <==> render::equipped(old(self)@.windows, resources@) > 0 && wallpaper is Some
                && !render::has_area(wallpaper->0),
            res is Err ==> final(self)@ == old(self)@,
            res is Ok ==> final(self)@ == (LockerView {
                canvases: Some(render::canvases(old(self)@.windows, resources@, wallpaper)),
                ..old(self)@
            }),
    {
        match RenderContext::load(&self.windows, resources, wallpaper) {
            Ok(ctx) => {
                self.render_ctx = Some(ctx);
                Ok(())
            },
            Err(e) => Err(e),
        }
    }

    /// The windows, in the order in which they were created.
    pub fn windows(&self) -> (res: &Vec<LockWindow>)
        ensures
            res@ == self@.windows,
    {
        &self.windows
    }

    /// The prompt.
    pub fn input(&self) -> (res: &Input)
        ensures
            res@ == self@.input,
    {
        &self.input
    }

    /// The invisible cursor.
    pub fn cursor(&self) -> (res: Option<u32>)
        ensures
            res == self@.cursor,
    {
        self.cursor
    }

    /// What a window is drawn with.
    pub fn canvas(&self, i: usize) -> (res: Option<Canvas>)
        ensures
            res is Some <==> self@.canvases is Some && i < self@.canvases->0.len(),
            res matches Some(c) ==> c == self@.canvases->0[i as int],
    {
        match &self.render_ctx {
            Some(ctx) => ctx.canvas(i),
            None => None,
        }
    }

    /// The window on which the input is grabbed.
    pub fn grab_window(&self, root: u32) -> (res: u32)
        ensures
            res == self@.grab_target(root),
    {
        if self.windows.len() > 0 {
            self.windows[0].id
        } else {
            root
        }
    }

    /// Says how to show the windows.
    pub fn map_windows(&self) -> (res: Vec<XRequest>)
        ensures
            res@ == window::map_requests(self@.windows),
    {
        window::map_windows(&self.windows)
    }

    /// Says how to take the windows away.
    pub fn destroy_windows(&self) -> (res: Vec<XRequest>)
        ensures
            res@ == window::destroy_requests(self@.windows, self@.cursor),
    {
        window::destroy_windows(&self.windows, self.cursor)
    }

    /// The password to ask PAM about.
    pub fn submitted_password(&self) -> (res: &str)
        ensures
            res@ == self@.submitted,
    {
        self.submitted.as_str()
    }

    /// The message to show below the prompt, if any.
    pub fn fail_text(&self) -> (res: Option<&str>)
        ensures
            match res {
                Some(t) => render::failure_text(self@.input.feedback, self@.input.message) == Some(
                    t@,
                ),
                None => render::failure_text(self@.input.feedback, self@.input.message) is None,
            },
    {
        render::fail_text(self.input.auth_feedback(), self.input.auth_message())
    }

    /// Says how to draw the frame of a window, given the sizes of its texts.
    pub fn render_frame(&self, i: usize, time: Extent, date: Extent, message: Extent) -> (res:
        Option<Vec<DrawOp>>)
        ensures
            res is Some <==> self@.can_draw(i as int),
            res matches Some(ops) ==> ops@ == self@.content(i as int, time, date, message).ops(),
    {
        let canvas = match self.canvas(i) {
            Some(canvas) => canvas,
            None => {
                return None;
            },
        };
        if i >= self.windows.len() {
            return None;
        }
        let content = FrameContent {
            width: self.windows[i].width,
            height: self.windows[i].height,
            wallpaper: canvas.background.is_some(),
            state: self.input.state(),
            password_len: self.input.password_len(),
            time,
            date,
            message: match self.input.auth_feedback() {
                AuthFeedback::Message => Some(message),
                AuthFeedback::Nothing => None,
            },
        };
        Some(render::render_frame(&content))
    }

    fn render(&mut self, then: Resume) -> (res: Action)
        ensures
            (final(self)@, res) == old(self)@.draw(then),
    {
        if self.render_ctx.is_some() {
            self.phase = Phase::Rendering(then);
            Action::Render
        } else {
            self.resume(then)
        }
    }

    fn resume(&mut self, then: Resume) -> (res: Action)
        ensures
            (final(self)@, res) == old(self)@.resume(then),
    {
        match then {
            Resume::Turn => {
                self.phase = Phase::Turning;
                Action::CheckTermination
            },
            Resume::Drain => {
                self.phase = Phase::Draining;
                Action::PollEvent
            },
        }
    }

    fn end(&mut self, ending: Ending) -> (res: Action)
        ensures
            (final(self)@, res) == old(self)@.end(ending),
    {
        self.phase = Phase::Finished;
        Action::Exit(ending)
    }

    /// Starts the event loop, with a first frame.
    pub fn run_loop(&mut self) -> (res: Action)
        ensures
            (final(self)@, res) == old(self)@.draw(Resume::Turn),
    {
        self.render(Resume::Turn)
    }

    fn handle_pending_events(&mut self, report: Option<XEvent>) -> (res: Action)
        ensures
            (final(self)@, res) == old(self)@.handle_report(report),
    {
        match report {
            Some(XEvent::KeyPress { keycode, modifiers }) => {
                self.phase = Phase::Resolving { modifiers };
                Action::QueryMapping(keycode)
            },
            Some(XEvent::Expose) => self.render(Resume::Drain),
            Some(_) => self.resume(Resume::Drain),
            None => {
                self.phase = Phase::Settling;
                Action::MeasureElapsed
            },
        }
    }

    fn handle_key_press(&mut self, keysym: u32, modifiers: u16) -> (res: Action)
        ensures
            (final(self)@, res) == old(self)@.handle_key(
                crate::input::key_meaning(keysym, modifiers),
            ),
    {
        match self.input.handle_key_press(keysym, modifiers) {
            KeyOutcome::Submit => self.try_authenticate(),
            KeyOutcome::Redraw => self.render(Resume::Drain),
            KeyOutcome::Ignore => self.resume(Resume::Drain),
        }
    }

    fn try_authenticate(&mut self) -> (res: Action)
        ensures
            final(self)@ == (LockerView {
                input: old(self)@.input.submitted(),
                submitted: old(self)@.input.password,
                phase: Phase::Authenticating,
                ..old(self)@
            }),
            res == Action::Authenticate,
    {
        self.submitted = self.input.submit();
        self.phase = Phase::Authenticating;
        Action::Authenticate
    }

    fn handle_auth_result(&mut self, result: AuthResult) -> (res: Action)
        ensures
            (final(self)@, res) == old(self)@.handle_auth(result),
    {
        text::wipe(&mut self.submitted);
        match result {
            AuthResult::Success => self.end(Ending::Unlocked),
            AuthResult::Failure(message) => {
                self.input.refuse(message);
                self.render(Resume::Drain)
            },
        }
    }

    /// Takes what came of the last action and says what to do next. An event that
    /// answers no action under way changes nothing and gives `None`.
    pub fn step(&mut self, event: Event) -> (res: Option<Action>)
        ensures
            match old(self)@.after(event) {
                Some((next, action)) => final(self)@ == next && res == Some(action),
                None => final(self)@ == old(self)@ && res is None,
            },
    {
        match (self.phase, event) {
            (Phase::Rendering(then), Event::Rendered) => Some(self.resume(then)),
            (Phase::Turning, Event::Termination(requested)) => {
                if requested {
                    Some(self.end(Ending::Terminated))
                } else {
                    self.phase = Phase::Aging;
                    Some(Action::MeasureElapsed)
                }
            },
            (Phase::Aging, Event::Elapsed(elapsed)) => {
                if elapsed >= CLOCK_REDRAW_INTERVAL {
                    Some(self.render(Resume::Drain))
                } else {
                    Some(self.resume(Resume::Drain))
                }
            },
            (Phase::Draining, Event::Pending(report)) => Some(self.handle_pending_events(report)),
            (Phase::Resolving { modifiers }, Event::Mapping(mapping)) => {
                let keysym = keysyms::keycode_to_keysym(&mapping, modifiers);
                Some(self.handle_key_press(keysym, modifiers))
            },
            (Phase::Authenticating, Event::Authenticated(result)) => Some(
                self.handle_auth_result(result),
            ),
            (Phase::Authenticating, Event::AuthError) => {
                text::wipe(&mut self.submitted);
                Some(self.end(Ending::AuthFailed))
            },
            (Phase::Settling, Event::Elapsed(elapsed)) => {
                if elapsed < CLOCK_REDRAW_INTERVAL {
                    self.phase = Phase::Timing;
                    Some(Action::MeasureElapsed)
                } else {
                    Some(self.resume(Resume::Turn))
                }
            },
            (Phase::Timing, Event::Elapsed(elapsed)) => {
                self.phase = Phase::Waiting;
                Some(Action::Wait(poll_timeout(elapsed)))
            },
            (Phase::Waiting, Event::Woken { result, interrupted }) => {
                if result < 0 && !interrupted {
                    Some(self.end(Ending::WaitFailed))
                } else {
                    Some(self.resume(Resume::Turn))
                }
            },
            _ => None,
        }
    }
}

} // verus!
