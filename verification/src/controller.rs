//! Controller events and their conversion into the input event union.

use vstd::prelude::*;
use crate::event::InputEvent;

verus! {

/// Controller axes matching the SDL controller model.
#[derive(Clone, Copy, Debug, PartialEq, Eq, Structural)]
pub enum ControllerAxis {
    /// The X axis on the left stick.
    LeftX,
    /// The Y axis on the left stick.
    LeftY,
    /// The X axis on the right stick.
    RightX,
    /// The Y axis on the right stick.
    RightY,
    /// The analog left trigger, not to be confused with the left bumper.
    LeftTrigger,
    /// The analog right trigger, not to be confused with the right bumper.
    RightTrigger,
}

/// Controller buttons matching the SDL controller model.
#[derive(Clone, Copy, Debug, PartialEq, Eq, Hash, Structural)]
pub enum ControllerButton {
    /// The A button, typically the lower button in the "diamond" of buttons
    /// on the right side of the controller.
    A,
    /// The B button, typically the right button in the "diamond" of buttons
    /// on the right side of the controller.
    B,
    /// The X button, typically the left button in the "diamond" of buttons
    /// on the right side of the controller.
    X,
    /// The Y button, typically the top button in the "diamond" of buttons
    /// on the right side of the controller.
    Y,
    /// The dpad button pointed towards the player.
    DPadDown,
    /// The dpad button pointed to the player's left.
    DPadLeft,
    /// The dpad button pointed to the player's right.
    DPadRight,
    /// The dpad button pointed away from the player.
    DPadUp,
    /// The digital left shoulder bumper, usually located above the left
    /// trigger.
    LeftShoulder,
    /// The digital right shoulder bumper, usually located above the right
    /// trigger.
    RightShoulder,
    /// Pressing the left analog stick into the controller presses this
    /// button.
    LeftStick,
    /// Pressing the right analog stick into the controller presses this
    /// button.
    RightStick,
    /// The back button, typically slightly left of center with a leftward
    /// arrow on it.
    Back,
    /// The start button, typically slightly right of center with a rightward
    /// arrow on it.
    Start,
    /// The centermost button on the controller.
    Guide,
}

/// Controller events generated by the hardware event system.
#[derive(Clone, Copy, Debug, PartialEq, Eq, Structural)]
pub enum ControllerEvent {
    /// Movement event on a controller axis.
    ControllerAxisMoved {
        /// The joystick instance id.
        which: u32,
        /// The controller axis.
        axis: ControllerAxis,
        /// The raw bit pattern of the axis reading, carried through
        /// unchanged.
        value: u32,
    },
    /// Button press event on a controller.
    ControllerButtonPressed {
        /// The joystick instance id.
        which: u32,
        /// The controller button.
        button: ControllerButton,
    },
    /// Button release event on a controller.
    ControllerButtonReleased {
        /// The joystick instance id.
        which: u32,
        /// The controller button.
        button: ControllerButton,
    },
    /// Controller disconnect event.
    ControllerDisconnected {
        /// The joystick instance id.
        which: u32,
    },
    /// Controller connect event.
    ControllerConnected {
        /// The joystick instance id.
        which: u32,
    },
}

/// The input event that a controller event converts to: the variant with the
/// same role, with the device identifier and every payload field copied.
pub open spec fn input_event_of(c: ControllerEvent) -> InputEvent {
    match c {
        ControllerEvent::ControllerAxisMoved { which, axis, value } => {
            InputEvent::ControllerAxisMoved { which, axis, value }
        },
        ControllerEvent::ControllerButtonPressed { which, button } => {
            InputEvent::ControllerButtonPressed { which, button }
        },
        ControllerEvent::ControllerButtonReleased { which, button } => {
            InputEvent::ControllerButtonReleased { which, button }
        },
        ControllerEvent::ControllerConnected { which } => {
            InputEvent::ControllerConnected { which }
        },
        ControllerEvent::ControllerDisconnected { which } => {
            InputEvent::ControllerDisconnected { which }
        },
    }
}

/// The joystick instance id that a controller event carries.
pub open spec fn controller_device_id(c: ControllerEvent) -> u32 {
    match c {
        ControllerEvent::ControllerAxisMoved { which, .. } => which,
        ControllerEvent::ControllerButtonPressed { which, .. } => which,
        ControllerEvent::ControllerButtonReleased { which, .. } => which,
        ControllerEvent::ControllerConnected { which } => which,
        ControllerEvent::ControllerDisconnected { which } => which,
    }
}

/// The joystick instance id that an input event carries.
pub open spec fn input_device_id(e: InputEvent) -> u32 {
    match e {
        InputEvent::ControllerAxisMoved { which, .. } => which,
        InputEvent::ControllerButtonPressed { which, .. } => which,
        InputEvent::ControllerButtonReleased { which, .. } => which,
        InputEvent::ControllerConnected { which } => which,
        InputEvent::ControllerDisconnected { which } => which,
    }
}

impl ControllerEvent {
    /// Converts this controller event into the engine-wide input event.
    ///
    /// The conversion is total and structure-preserving: each variant maps
    /// to the input event variant of the same role, by a field-by-field
    /// copy.
    pub fn to_input_event(&self) -> (e: InputEvent)
        ensures
            e == input_event_of(*self),
    {
        match *self {
            ControllerEvent::ControllerAxisMoved { which, axis, value } => {
                InputEvent::ControllerAxisMoved { which, axis, value }
            },
            ControllerEvent::ControllerButtonPressed { which, button } => {
                InputEvent::ControllerButtonPressed { which, button }
            },
            ControllerEvent::ControllerButtonReleased { which, button } => {
                InputEvent::ControllerButtonReleased { which, button }
            },
            ControllerEvent::ControllerConnected { which } => {
                InputEvent::ControllerConnected { which }
            },
            ControllerEvent::ControllerDisconnected { which } => {
                InputEvent::ControllerDisconnected { which }
            },
        }
    }
}

impl From<&ControllerEvent> for InputEvent {
    fn from(c: &ControllerEvent) -> (e: InputEvent) {
        c.to_input_event()
    }
}

impl vstd::std_specs::convert::FromSpecImpl<&ControllerEvent> for InputEvent {
    open spec fn obeys_from_spec() -> bool {
        true
    }

    open spec fn from_spec(c: &ControllerEvent) -> InputEvent {
        input_event_of(*c)
    }
}

/// Law: converting a controller event preserves the device identifier and
/// every payload field exactly, variant by variant.
pub proof fn lemma_conversion_preserves_fields(c: ControllerEvent)
    ensures
        input_device_id(input_event_of(c)) == controller_device_id(c),
        c matches ControllerEvent::ControllerAxisMoved { which, axis, value } ==>
            input_event_of(c) == (InputEvent::ControllerAxisMoved { which, axis, value }),
        c matches ControllerEvent::ControllerButtonPressed { which, button } ==>
            input_event_of(c) == (InputEvent::ControllerButtonPressed { which, button }),
        c matches ControllerEvent::ControllerButtonReleased { which, button } ==>
            input_event_of(c) == (InputEvent::ControllerButtonReleased { which, button }),
        c matches ControllerEvent::ControllerConnected { which } ==>
            input_event_of(c) == (InputEvent::ControllerConnected { which }),
        c matches ControllerEvent::ControllerDisconnected { which } ==>
            input_event_of(c) == (InputEvent::ControllerDisconnected { which }),
{
}

/// Law: the conversion is lossless, that is, distinct controller events
/// convert to distinct input events.
pub proof fn lemma_conversion_injective(c1: ControllerEvent, c2: ControllerEvent)
    ensures
        input_event_of(c1) == input_event_of(c2) ==> c1 == c2,
{
}

} // verus!
