//! The frame driver: what the viewer does about each window event and each
//! frame outcome.
//!
//! The driver owns the decisions and the state they depend on. Whoever runs
//! the event loop performs the reactions it returns: it asks the window for
//! redraws, talks to the graphics device and moves the camera.

use crate::controller::{consumes, held_after, CameraController, Direction};
use crate::input::{Event, KeyCode};
use crate::targets::{Extent, SurfaceTargetSet};
use vstd::prelude::*;

verus! {

/// Where the driver is in its life.
#[derive(Clone, Copy, Debug, PartialEq, Eq, Structural)]
pub enum Phase {
    /// Before the first activation: there is no window and no render state.
    Uninitialized,
    /// The per-frame loop is running.
    Running,
    /// Close was requested or a fatal error occurred; nothing more is done.
    Exiting,
}

/// How acquiring and presenting a frame ended.
#[derive(Clone, Copy, Debug, PartialEq, Eq, Structural)]
pub enum FrameOutcome {
    Presented,
    Lost,
    Outdated,
    Timeout,
    OutOfMemory,
    Other,
}

/// What to do about a window event.
#[derive(Clone, Copy, Debug, PartialEq, Eq, Structural)]
pub enum Reaction {
    /// Leave the event loop.
    Exit,
    /// Ask for the next redraw, move the camera by what the held keys ask for
    /// over `elapsed_nanos`, render, and report how the frame ended.
    DrawFrame { elapsed_nanos: u64 },
    /// Reconfigure the surface to `size`, set the camera's aspect ratio to
    /// `size.width / size.height` and allocate the render targets anew.
    Reconfigure { size: Extent },
    /// Switch between fullscreen and windowed display.
    ToggleFullscreen,
    /// Put the pointer back at the centre of the viewport and turn the
    /// camera by the pointer's offset from it.
    Look,
    /// The event went to the camera controller; nothing else is to be done.
    Forwarded { consumed: bool },
    /// Nothing is to be done.
    Ignored,
}

/// What to do after a frame ended.
#[derive(Clone, Copy, Debug, PartialEq, Eq, Structural)]
pub enum Recovery {
    /// Nothing is to be done.
    Nothing,
    /// Reconfigure the surface and allocate the render targets anew at
    /// `size`, the last known size of the viewport.
    Reconfigure { size: Extent },
    /// The frame was dropped; report it and carry on.
    SkipFrame,
    /// The error is fatal; report it and leave the event loop.
    Abort,
}

/// What the driver remembers.
pub struct DriverState {
    pub phase: Phase,
    /// Last known size of the viewport, to which the render targets are sized.
    pub viewport: Extent,
    /// Directions whose movement key is down.
    pub held: Set<Direction>,
    /// Clock reading at the last frame, if there was one.
    pub last_frame: Option<u64>,
}

/// Time since the last frame: none for the first frame, and none if the
/// clock reading lies before the last one.
pub open spec fn elapsed_since(last_frame: Option<u64>, now_nanos: u64) -> u64 {
    match last_frame {
        Some(last) => if now_nanos >= last {
            (now_nanos - last) as u64
        } else {
            0
        },
        None => 0,
    }
}

/// State after activation with a window of `size`: a driver that is exiting
/// stays as it is; otherwise the driver runs with a viewport of that size and
/// no key held, and keeps its frame clock.
pub open spec fn activated(pre: DriverState, size: Extent) -> DriverState {
    if pre.phase == Phase::Exiting {
        pre
    } else {
        DriverState {
            phase: Phase::Running,
            viewport: size,
            held: Set::empty(),
            last_frame: pre.last_frame,
        }
    }
}

/// State after a resize to `size`: an empty size changes nothing.
pub open spec fn resized(pre: DriverState, size: Extent) -> DriverState {
    if size.is_empty() {
        pre
    } else {
        DriverState { viewport: size, ..pre }
    }
}

/// The reaction to a resize to `size`.
pub open spec fn resize_reaction(size: Extent) -> Reaction {
    if size.is_empty() {
        Reaction::Ignored
    } else {
        Reaction::Reconfigure { size }
    }
}

/// The driver's transition on a window event: the state after it and the
/// reaction to it.
pub open spec fn react(pre: DriverState, event: Event) -> (DriverState, Reaction) {
    if pre.phase == Phase::Exiting {
        (pre, Reaction::Ignored)
    } else {
        match event {
            Event::CloseRequested => (DriverState { phase: Phase::Exiting, ..pre }, Reaction::Exit),
            Event::RedrawRequested { now_nanos } => (
                DriverState { last_frame: Some(now_nanos), ..pre },
                Reaction::DrawFrame { elapsed_nanos: elapsed_since(pre.last_frame, now_nanos) },
            ),
            Event::Resized { width, height } => (
                resized(pre, Extent { width, height }),
                resize_reaction(Extent { width, height }),
            ),
            Event::Key { code, pressed, repeat } => if code == KeyCode::Escape {
                (DriverState { phase: Phase::Exiting, ..pre }, Reaction::Exit)
            } else if code == KeyCode::F11 && pressed && !repeat {
                (pre, Reaction::ToggleFullscreen)
            } else {
                (
                    DriverState { held: held_after(pre.held, event), ..pre },
                    Reaction::Forwarded { consumed: consumes(event) },
                )
            },
            Event::PointerMoved => (pre, Reaction::Look),
            Event::Other => (pre, Reaction::Forwarded { consumed: false }),
        }
    }
}

/// The driver's transition on the end of a frame: the state after it and
/// what to do next.
pub open spec fn recover(pre: DriverState, outcome: FrameOutcome) -> (DriverState, Recovery) {
    if pre.phase == Phase::Exiting {
        (pre, Recovery::Nothing)
    } else {
        match outcome {
            FrameOutcome::Presented => (pre, Recovery::Nothing),
            FrameOutcome::Lost | FrameOutcome::Outdated => (
                pre,
                if pre.viewport.is_empty() {
                    Recovery::Nothing
                } else {
                    Recovery::Reconfigure { size: pre.viewport }
                },
            ),
            FrameOutcome::Timeout => (pre, Recovery::SkipFrame),
            FrameOutcome::OutOfMemory | FrameOutcome::Other => (
                DriverState { phase: Phase::Exiting, ..pre },
                Recovery::Abort,
            ),
        }
    }
}

/// The frame driver. Its view is what it remembers.
#[derive(Clone, Copy, Debug)]
pub struct FrameDriver {
    phase: Phase,
    viewport: Extent,
    targets: SurfaceTargetSet,
    controller: CameraController,
    last_frame: Option<u64>,
}

impl View for FrameDriver {
    type V = DriverState;

    closed spec fn view(&self) -> DriverState {
        DriverState {
            phase: self.phase,
            viewport: self.viewport,
            held: self.controller@,
            last_frame: self.last_frame,
        }
    }
}

impl FrameDriver {
    #[verifier::type_invariant]
    spec fn targets_match_viewport(self) -> bool {
        self.targets.size() == self.viewport
    }

    /// A driver that has not been activated yet.
    pub fn new() -> (driver: Self)
        ensures
            driver@ == (DriverState {
                phase: Phase::Uninitialized,
                viewport: Extent { width: 0, height: 0 },
                held: Set::empty(),
                last_frame: None,
            }),
    {
        let size = Extent { width: 0, height: 0 };
        FrameDriver {
            phase: Phase::Uninitialized,
            viewport: size,
            targets: SurfaceTargetSet::new(size),
            controller: CameraController::new(),
            last_frame: None,
        }
    }

    /// Where the driver is in its life.
    pub fn phase(&self) -> (phase: Phase)
        ensures
            phase == self@.phase,
    {
        self.phase
    }

    /// Last known size of the viewport.
    pub fn viewport(&self) -> (size: Extent)
        ensures
            size == self@.viewport,
    {
        self.viewport
    }

    /// The render targets, which always have the size of the viewport.
    pub fn targets(&self) -> (targets: SurfaceTargetSet)
        ensures
            targets.size() == self@.viewport,
    {
        proof {
            use_type_invariant(self);
        }
        self.targets
    }

    /// The camera controller with the keys that are held.
    pub fn controller(&self) -> (controller: CameraController)
        ensures
            controller@ == self@.held,
    {
        self.controller
    }

    /// Clock reading at the last frame, if there was one.
    pub fn last_frame(&self) -> (last: Option<u64>)
        ensures
            last == self@.last_frame,
    {
        self.last_frame
    }

    /// Activates the driver for a window of `size`.
    pub fn resume(&mut self, size: Extent)
        ensures
            final(self)@ == activated(old(self)@, size),
    {
        if self.phase != Phase::Exiting {
            *self = FrameDriver {
                phase: Phase::Running,
                viewport: size,
                targets: SurfaceTargetSet::new(size),
                controller: CameraController::new(),
                last_frame: self.last_frame,
            };
        }
    }

    /// Takes the viewport to `size` and the render targets with it, unless
    /// `size` is empty.
    fn resize(&mut self, size: Extent) -> (reaction: Reaction)
        ensures
            final(self)@ == resized(old(self)@, size),
            reaction == resize_reaction(size),
    {
        let mut targets = self.targets;
        if targets.recreate(size) {
            *self = FrameDriver { viewport: size, targets, ..*self };
            Reaction::Reconfigure { size }
        } else {
            Reaction::Ignored
        }
    }

    /// Advances the frame clock to `now_nanos` and returns the time since the
    /// last frame.
    fn tick(&mut self, now_nanos: u64) -> (elapsed_nanos: u64)
        ensures
            elapsed_nanos == elapsed_since(old(self)@.last_frame, now_nanos),
            final(self)@ == (DriverState { last_frame: Some(now_nanos), ..old(self)@ }),
    {
        proof {
            use_type_invariant(&*self);
        }
        let elapsed_nanos = match self.last_frame {
            Some(last) => if now_nanos >= last {
                now_nanos - last
            } else {
                0
            },
            None => 0,
        };
        self.last_frame = Some(now_nanos);
        elapsed_nanos
    }

    /// Hands `event` to the camera controller.
    fn forward(&mut self, event: &Event) -> (consumed: bool)
        ensures
            consumed == consumes(*event),
            final(self)@ == (DriverState { held: held_after(old(self)@.held, *event), ..old(self)@ }),
    {
        proof {
            use_type_invariant(&*self);
        }
        let mut controller = self.controller;
        let consumed = controller.handle_event(event);
        *self = FrameDriver { controller, ..*self };
        consumed
    }

    /// Handles one window event.
    pub fn on_event(&mut self, event: Event) -> (reaction: Reaction)
        requires
            old(self)@.phase != Phase::Uninitialized,
        ensures
            (final(self)@, reaction) == react(old(self)@, event),
    {
        proof {
            use_type_invariant(&*self);
        }
        if self.phase == Phase::Exiting {
            return Reaction::Ignored;
        }
        match event {
            Event::CloseRequested => {
                self.phase = Phase::Exiting;
                Reaction::Exit
            },
            Event::RedrawRequested { now_nanos } => {
                let elapsed_nanos = self.tick(now_nanos);
                Reaction::DrawFrame { elapsed_nanos }
            },
            Event::Resized { width, height } => self.resize(Extent { width, height }),
            Event::Key { code, pressed, repeat } => {
                if code == KeyCode::Escape {
                    self.phase = Phase::Exiting;
                    Reaction::Exit
                } else if code == KeyCode::F11 && pressed && !repeat {
                    Reaction::ToggleFullscreen
                } else {
                    Reaction::Forwarded { consumed: self.forward(&event) }
                }
            },
            Event::PointerMoved => {
                let _ = self.forward(&event);
                Reaction::Look
            },
            Event::Other => Reaction::Forwarded { consumed: self.forward(&event) },
        }
    }

    /// Handles the end of a frame.
    pub fn frame_finished(&mut self, outcome: FrameOutcome) -> (recovery: Recovery)
        requires
            old(self)@.phase != Phase::Uninitialized,
        ensures
            (final(self)@, recovery) == recover(old(self)@, outcome),
    {
        proof {
            use_type_invariant(&*self);
        }
        if self.phase == Phase::Exiting {
            return Recovery::Nothing;
        }
        match outcome {
            FrameOutcome::Presented => Recovery::Nothing,
            FrameOutcome::Lost | FrameOutcome::Outdated => match self.resize(self.viewport) {
                Reaction::Reconfigure { size } => Recovery::Reconfigure { size },
                _ => Recovery::Nothing,
            },
            FrameOutcome::Timeout => Recovery::SkipFrame,
            FrameOutcome::OutOfMemory | FrameOutcome::Other => {
                self.phase = Phase::Exiting;
                Recovery::Abort
            },
        }
    }
}

/// How the pointer is held while the viewer runs.
#[derive(Clone, Copy, Debug, PartialEq, Eq, Structural)]
pub enum CursorGrab {
    /// The pointer may leave the window.
    Released,
    /// The pointer is kept inside the window.
    Confined,
}

/// A display mode and the pointer grab that goes with it.
#[derive(Clone, Copy, Debug, PartialEq, Eq, Structural)]
pub struct DisplayMode {
    pub fullscreen: bool,
    pub cursor: CursorGrab,
}

/// The display mode to switch to when a fullscreen toggle is asked for:
/// a fullscreen window becomes an ordinary one that confines the pointer, an
/// ordinary window goes fullscreen and releases it.
pub fn toggled_display(fullscreen_now: bool) -> (mode: DisplayMode)
    ensures
        mode.fullscreen == !fullscreen_now,
        mode.cursor == if fullscreen_now {
            CursorGrab::Confined
        } else {
            CursorGrab::Released
        },
{
    if fullscreen_now {
        DisplayMode { fullscreen: false, cursor: CursorGrab::Confined }
    } else {
        DisplayMode { fullscreen: true, cursor: CursorGrab::Released }
    }
}

/// Once the driver is exiting it stays so: no event, frame outcome or
/// activation changes what it remembers, and nothing is asked of the caller.
pub proof fn lemma_exiting_is_final(
    pre: DriverState,
    event: Event,
    outcome: FrameOutcome,
    size: Extent,
)
    requires
        pre.phase == Phase::Exiting,
    ensures
        react(pre, event) == (pre, Reaction::Ignored),
        recover(pre, outcome) == (pre, Recovery::Nothing),
        activated(pre, size) == pre,
{
}

/// The phase only moves forward: an event or a frame outcome leaves it as it
/// is or takes it to exiting, and never back to uninitialized.
pub proof fn lemma_phase_only_advances(pre: DriverState, event: Event, outcome: FrameOutcome)
    ensures
        react(pre, event).0.phase == pre.phase || react(pre, event).0.phase == Phase::Exiting,
        recover(pre, outcome).0.phase == pre.phase || recover(pre, outcome).0.phase
            == Phase::Exiting,
{
}

/// A resize to a size without area is ignored: nothing that the driver
/// remembers changes, the render targets included.
pub proof fn lemma_empty_resize_is_ignored(pre: DriverState, width: u32, height: u32)
    requires
        width == 0 || height == 0,
    ensures
        react(pre, Event::Resized { width, height }) == (pre, Reaction::Ignored),
{
}

/// A resize of a running driver to a size with area takes the viewport to
/// that size and asks for reconfiguration at it; the held keys, the frame
/// clock and the phase stay as they are.
pub proof fn lemma_resize_moves_only_the_viewport(pre: DriverState, width: u32, height: u32)
    requires
        pre.phase == Phase::Running,
        width > 0,
        height > 0,
    ensures
        react(pre, Event::Resized { width, height }) == (
            DriverState { viewport: Extent { width, height }, ..pre },
            Reaction::Reconfigure { size: Extent { width, height } },
        ),
{
}

/// Of two resizes in a row the later one decides the size, unless it is
/// empty.
pub proof fn lemma_last_resize_wins(pre: DriverState, first: Extent, second: Extent)
    ensures
        !second.is_empty() ==> resized(resized(pre, first), second).viewport == second,
        second.is_empty() ==> resized(resized(pre, first), second) == resized(pre, first),
{
}

/// Only a redraw moves the frame clock, and the first frame takes no time.
pub proof fn lemma_frame_clock(pre: DriverState, event: Event, now_nanos: u64)
    ensures
        !(event is RedrawRequested) ==> react(pre, event).0.last_frame == pre.last_frame,
        elapsed_since(None, now_nanos) == 0,
        pre.phase == Phase::Running ==> react(
            pre,
            Event::RedrawRequested { now_nanos },
        ).0.last_frame == Some(now_nanos),
{
}

/// Only key events change which keys are held.
pub proof fn lemma_keys_follow_key_events(pre: DriverState, event: Event)
    requires
        !(event is Key),
    ensures
        react(pre, event).0.held == pre.held,
{
}

} // verus!
