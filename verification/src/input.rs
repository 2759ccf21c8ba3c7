//! Window input, reduced to what the viewer reads from it.

use vstd::prelude::*;

verus! {

/// Logical key codes that the viewer tells apart.
#[derive(Clone, Copy, Debug, PartialEq, Eq, Structural)]
pub enum KeyCode {
    KeyW,
    KeyA,
    KeyS,
    KeyD,
    ArrowUp,
    ArrowLeft,
    ArrowDown,
    ArrowRight,
    Space,
    ShiftLeft,
    Escape,
    F11,
    /// Any other key, or one the platform could not identify.
    Other,
}

/// A window event, reduced to what the viewer reads from it.
#[derive(Clone, Copy, Debug, PartialEq, Eq, Structural)]
pub enum Event {
    CloseRequested,
    /// A frame is due; `now_nanos` is a monotonic clock reading.
    RedrawRequested { now_nanos: u64 },
    Resized { width: u32, height: u32 },
    Key { code: KeyCode, pressed: bool, repeat: bool },
    PointerMoved,
    Other,
}

} // verus!
