use amethyst_audio_input::controller::{ControllerAxis, ControllerButton, ControllerEvent};
use amethyst_audio_input::event::InputEvent;

#[test]
fn convert_axis_moved_preserves_fields() {
    let value: u32 = (0.5f32).to_bits();
    let c = ControllerEvent::ControllerAxisMoved {
        which: 3,
        axis: ControllerAxis::LeftX,
        value,
    };
    assert_eq!(
        c.to_input_event(),
        InputEvent::ControllerAxisMoved {
            which: 3,
            axis: ControllerAxis::LeftX,
            value,
        }
    );
}

#[test]
fn convert_button_pressed_preserves_fields() {
    let c = ControllerEvent::ControllerButtonPressed {
        which: 1,
        button: ControllerButton::A,
    };
    assert_eq!(
        c.to_input_event(),
        InputEvent::ControllerButtonPressed {
            which: 1,
            button: ControllerButton::A,
        }
    );
}

#[test]
fn convert_button_released_preserves_fields() {
    let c = ControllerEvent::ControllerButtonReleased {
        which: 9,
        button: ControllerButton::Start,
    };
    assert_eq!(
        c.to_input_event(),
        InputEvent::ControllerButtonReleased {
            which: 9,
            button: ControllerButton::Start,
        }
    );
}

#[test]
fn convert_connected_preserves_device_id() {
    let c = ControllerEvent::ControllerConnected { which: 4294967295 };
    assert_eq!(
        c.to_input_event(),
        InputEvent::ControllerConnected { which: 4294967295 }
    );
}

#[test]
fn convert_disconnected_preserves_device_id() {
    let c = ControllerEvent::ControllerDisconnected { which: 0 };
    assert_eq!(
        c.to_input_event(),
        InputEvent::ControllerDisconnected { which: 0 }
    );
}

#[test]
fn from_agrees_with_to_input_event() {
    let events = vec![
        ControllerEvent::ControllerAxisMoved {
            which: 2,
            axis: ControllerAxis::RightTrigger,
            value: (-0.25f32).to_bits(),
        },
        ControllerEvent::ControllerButtonPressed {
            which: 2,
            button: ControllerButton::DPadUp,
        },
        ControllerEvent::ControllerButtonReleased {
            which: 2,
            button: ControllerButton::Guide,
        },
        ControllerEvent::ControllerConnected { which: 2 },
        ControllerEvent::ControllerDisconnected { which: 2 },
    ];
    for c in &events {
        assert_eq!(InputEvent::from(c), c.to_input_event());
    }
}

#[test]
fn axis_value_bits_round_trip() {
    let reading: f32 = -32768.0;
    let c = ControllerEvent::ControllerAxisMoved {
        which: 0,
        axis: ControllerAxis::LeftY,
        value: reading.to_bits(),
    };
    match c.to_input_event() {
        InputEvent::ControllerAxisMoved { value, .. } => {
            assert_eq!(f32::from_bits(value), reading);
        }
        _ => panic!("axis movement must convert to an axis movement"),
    }
}
