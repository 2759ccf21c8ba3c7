//! The free-look controller's key state: which movement keys are held, and
//! the net movement they ask for.
//!
//! Turning that movement into a displacement of the eye, and pointer motion
//! into yaw and pitch, is numeric work on the camera that lives with the
//! camera; this module decides which way to go.

use crate::input::{Event, KeyCode};
use vstd::prelude::*;

verus! {

/// The six ways the camera can be asked to move.
#[derive(Clone, Copy, Debug, PartialEq, Eq, Structural)]
pub enum Direction {
    Forward,
    Backward,
    Left,
    Right,
    Up,
    Down,
}

/// The direction a key is bound to, if any.
pub open spec fn binding(code: KeyCode) -> Option<Direction> {
    match code {
        KeyCode::KeyW | KeyCode::ArrowUp => Some(Direction::Forward),
        KeyCode::KeyA | KeyCode::ArrowLeft => Some(Direction::Left),
        KeyCode::KeyS | KeyCode::ArrowDown => Some(Direction::Backward),
        KeyCode::KeyD | KeyCode::ArrowRight => Some(Direction::Right),
        KeyCode::Space => Some(Direction::Up),
        KeyCode::ShiftLeft => Some(Direction::Down),
        _ => None,
    }
}

/// Whether the controller consumes `event`: a bound key going down or up,
/// or any pointer motion.
pub open spec fn consumes(event: Event) -> bool {
    match event {
        Event::Key { code, .. } => binding(code) is Some,
        Event::PointerMoved => true,
        _ => false,
    }
}

/// The directions held after `event`, given those held before: a key event
/// for a bound key adds its direction when the key goes down and removes it
/// when the key goes up; nothing else changes what is held.
pub open spec fn held_after(held: Set<Direction>, event: Event) -> Set<Direction> {
    match event {
        Event::Key { code, pressed, .. } => match binding(code) {
            Some(d) => if pressed {
                held.insert(d)
            } else {
                held.remove(d)
            },
            None => held,
        },
        _ => held,
    }
}

/// Net request along one axis from the two opposing keys of that axis.
pub open spec fn axis(positive: bool, negative: bool) -> int {
    (if positive { 1int } else { 0int }) - (if negative { 1int } else { 0int })
}

/// Net movement asked for, in whole steps along the camera's own axes:
/// `forward` toward where it looks, `right` to its right, `up` along the
/// world's vertical.
#[derive(Clone, Copy, Debug, PartialEq, Eq, Structural)]
pub struct Movement {
    pub forward: i8,
    pub right: i8,
    pub up: i8,
}

impl Movement {
    /// No movement along any axis.
    pub open spec fn is_zero(self) -> bool {
        self.forward == 0 && self.right == 0 && self.up == 0
    }

    /// Executable form of [`Movement::is_zero`].
    pub fn is_still(&self) -> (still: bool)
        ensures
            still == self.is_zero(),
    {
        self.forward == 0 && self.right == 0 && self.up == 0
    }
}

/// The net movement that a set of held directions adds up to.
pub open spec fn net_movement(held: Set<Direction>) -> Movement {
    Movement {
        forward: axis(held.contains(Direction::Forward), held.contains(Direction::Backward)) as i8,
        right: axis(held.contains(Direction::Right), held.contains(Direction::Left)) as i8,
        up: axis(held.contains(Direction::Up), held.contains(Direction::Down)) as i8,
    }
}

/// Which movement keys are currently held. Its view is the set of directions
/// whose key is down.
#[derive(Clone, Copy, Debug, PartialEq, Eq)]
pub struct CameraController {
    is_forward_pressed: bool,
    is_backward_pressed: bool,
    is_left_pressed: bool,
    is_right_pressed: bool,
    is_up_pressed: bool,
    is_down_pressed: bool,
}

impl View for CameraController {
    type V = Set<Direction>;

    closed spec fn view(&self) -> Set<Direction> {
        Set::new(|d: Direction| self.flag(d))
    }
}

impl CameraController {
    spec fn flag(self, d: Direction) -> bool {
        match d {
            Direction::Forward => self.is_forward_pressed,
            Direction::Backward => self.is_backward_pressed,
            Direction::Left => self.is_left_pressed,
            Direction::Right => self.is_right_pressed,
            Direction::Up => self.is_up_pressed,
            Direction::Down => self.is_down_pressed,
        }
    }

    /// A controller with no key held.
    pub fn new() -> (controller: Self)
        ensures
            controller@ == Set::<Direction>::empty(),
    {
        let controller = CameraController {
            is_forward_pressed: false,
            is_backward_pressed: false,
            is_left_pressed: false,
            is_right_pressed: false,
            is_up_pressed: false,
            is_down_pressed: false,
        };
        assert(controller@ =~= Set::<Direction>::empty());
        controller
    }

    /// Whether the key for direction `d` is held.
    pub fn is_held(&self, d: Direction) -> (held: bool)
        ensures
            held == self@.contains(d),
    {
        match d {
            Direction::Forward => self.is_forward_pressed,
            Direction::Backward => self.is_backward_pressed,
            Direction::Left => self.is_left_pressed,
            Direction::Right => self.is_right_pressed,
            Direction::Up => self.is_up_pressed,
            Direction::Down => self.is_down_pressed,
        }
    }

    /// Feeds one event to the controller and reports whether it was consumed.
    pub fn handle_event(&mut self, event: &Event) -> (consumed: bool)
        ensures
            consumed == consumes(*event),
            final(self)@ == held_after(old(self)@, *event),
    {
        let consumed = match event {
            Event::Key { code, pressed, .. } => match direction_of(*code) {
                Some(Direction::Forward) => {
                    self.is_forward_pressed = *pressed;
                    true
                },
                Some(Direction::Backward) => {
                    self.is_backward_pressed = *pressed;
                    true
                },
                Some(Direction::Left) => {
                    self.is_left_pressed = *pressed;
                    true
                },
                Some(Direction::Right) => {
                    self.is_right_pressed = *pressed;
                    true
                },
                Some(Direction::Up) => {
                    self.is_up_pressed = *pressed;
                    true
                },
                Some(Direction::Down) => {
                    self.is_down_pressed = *pressed;
                    true
                },
                None => false,
            },
            Event::PointerMoved => true,
            _ => false,
        };
        assert(self@ =~= held_after(old(self)@, *event));
        consumed
    }

    /// The net movement that the held keys ask for.
    pub fn movement(&self) -> (movement: Movement)
        ensures
            movement == net_movement(self@),
            -1 <= movement.forward <= 1,
            -1 <= movement.right <= 1,
            -1 <= movement.up <= 1,
    {
        Movement {
            forward: step(self.is_forward_pressed, self.is_backward_pressed),
            right: step(self.is_right_pressed, self.is_left_pressed),
            up: step(self.is_up_pressed, self.is_down_pressed),
        }
    }
}

/// Executable form of [`binding`].
pub fn direction_of(code: KeyCode) -> (direction: Option<Direction>)
    ensures
        direction == binding(code),
{
    match code {
        KeyCode::KeyW | KeyCode::ArrowUp => Some(Direction::Forward),
        KeyCode::KeyA | KeyCode::ArrowLeft => Some(Direction::Left),
        KeyCode::KeyS | KeyCode::ArrowDown => Some(Direction::Backward),
        KeyCode::KeyD | KeyCode::ArrowRight => Some(Direction::Right),
        KeyCode::Space => Some(Direction::Up),
        KeyCode::ShiftLeft => Some(Direction::Down),
        _ => None,
    }
}

/// Executable form of [`axis`].
fn step(positive: bool, negative: bool) -> (net: i8)
    ensures
        net == axis(positive, negative),
{
    let gain: i8 = if positive { 1 } else { 0 };
    let loss: i8 = if negative { 1 } else { 0 };
    gain - loss
}

/// With no movement key held, no movement is asked for.
pub proof fn lemma_idle_is_still()
    ensures
        net_movement(Set::<Direction>::empty()).is_zero(),
{
}

/// Opposing keys cancel: an axis whose two keys are both held, or both
/// released, contributes nothing, whatever else is held.
pub proof fn lemma_opposite_keys_cancel(held: Set<Direction>)
    ensures
        held.contains(Direction::Forward) == held.contains(Direction::Backward) ==> net_movement(
            held,
        ).forward == 0,
        held.contains(Direction::Left) == held.contains(Direction::Right) ==> net_movement(
            held,
        ).right == 0,
        held.contains(Direction::Up) == held.contains(Direction::Down) ==> net_movement(held).up
            == 0,
{
}

} // verus!
