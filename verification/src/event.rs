//! The engine-wide input event union, as far as controllers feed it.

use vstd::prelude::*;
use crate::controller::{ControllerAxis, ControllerButton};

verus! {

/// An input event consumed by the engine's input-handling pipeline.
///
/// Each variant carries the joystick instance id of the device that raised
/// it, together with the payload of the underlying hardware event.
#[derive(Clone, Copy, Debug, PartialEq, Eq, Structural)]
pub enum InputEvent {
    /// Movement on a controller axis.
    ControllerAxisMoved {
        /// The joystick instance id.
        which: u32,
        /// The controller axis.
        axis: ControllerAxis,
        /// The raw bit pattern of the axis reading, carried through unchanged.
        value: u32,
    },
    /// A controller button was pressed.
    ControllerButtonPressed {
        /// The joystick instance id.
        which: u32,
        /// The controller button.
        button: ControllerButton,
    },
    /// A controller button was released.
    ControllerButtonReleased {
        /// The joystick instance id.
        which: u32,
        /// The controller button.
        button: ControllerButton,
    },
    /// A controller was connected.
    ControllerConnected {
        /// The joystick instance id.
        which: u32,
    },
    /// A controller was disconnected.
    ControllerDisconnected {
        /// The joystick instance id.
        which: u32,
    },
}

} // verus!
