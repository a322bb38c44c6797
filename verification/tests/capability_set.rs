use padmux::capabilities::{
    output_device_name, synthetic_axes, synthetic_buttons, AxisSpec, AXIS_DPAD_X, AXIS_DPAD_Y,
    AXIS_LEFT_X, AXIS_LEFT_Y, AXIS_RIGHT_X, AXIS_RIGHT_Y, AXIS_TRIGGER_LEFT, AXIS_TRIGGER_RIGHT,
    BUTTON_EAST, BUTTON_MODE, BUTTON_NORTH, BUTTON_SELECT, BUTTON_SHOULDER_LEFT,
    BUTTON_SHOULDER_RIGHT, BUTTON_SOUTH, BUTTON_START, BUTTON_THUMB_LEFT, BUTTON_THUMB_RIGHT,
    BUTTON_WEST,
};

fn stick(code: u16) -> AxisSpec {
    AxisSpec { code, min: -32768, max: 32767, fuzz: 16, flat: 128, resolution: 0 }
}

fn coarse(code: u16) -> AxisSpec {
    AxisSpec { code, min: 0, max: 1023, fuzz: 0, flat: 0, resolution: 0 }
}

#[test]
fn axes_declare_sticks_triggers_and_dpad_exactly() {
    let axes = synthetic_axes();
    assert_eq!(
        axes,
        vec![
            stick(AXIS_LEFT_X),
            stick(AXIS_LEFT_Y),
            stick(AXIS_RIGHT_X),
            stick(AXIS_RIGHT_Y),
            coarse(AXIS_TRIGGER_LEFT),
            coarse(AXIS_TRIGGER_RIGHT),
            coarse(AXIS_DPAD_X),
            coarse(AXIS_DPAD_Y),
        ]
    );
}

#[test]
fn axis_codes_are_the_input_subsystem_codes_and_distinct() {
    let axes = synthetic_axes();
    let codes: Vec<u16> = axes.iter().map(|a| a.code).collect();
    assert_eq!(codes, vec![0x00, 0x01, 0x03, 0x04, 0x02, 0x05, 0x10, 0x11]);
    for i in 0..codes.len() {
        for j in 0..i {
            assert_ne!(codes[i], codes[j]);
        }
    }
}

#[test]
fn stick_axes_have_signed_16_bit_range_with_jitter_filtering() {
    for a in synthetic_axes().iter().take(4) {
        assert_eq!(a.min, -32768);
        assert_eq!(a.max, 32767);
        assert_eq!(a.fuzz, 16);
        assert_eq!(a.flat, 128);
        assert_eq!(a.resolution, 0);
    }
}

#[test]
fn trigger_and_dpad_axes_have_unsigned_10_bit_range_unfiltered() {
    for a in synthetic_axes().iter().skip(4) {
        assert_eq!(a.min, 0);
        assert_eq!(a.max, 1023);
        assert_eq!(a.fuzz, 0);
        assert_eq!(a.flat, 0);
        assert_eq!(a.resolution, 0);
    }
}

#[test]
fn button_set_is_complete_and_distinct() {
    let buttons = synthetic_buttons();
    assert_eq!(
        buttons,
        vec![
            BUTTON_SOUTH,
            BUTTON_NORTH,
            BUTTON_EAST,
            BUTTON_WEST,
            BUTTON_SELECT,
            BUTTON_START,
            BUTTON_MODE,
            BUTTON_SHOULDER_LEFT,
            BUTTON_SHOULDER_RIGHT,
            BUTTON_THUMB_LEFT,
            BUTTON_THUMB_RIGHT,
        ]
    );
    assert_eq!(
        buttons,
        vec![0x130, 0x133, 0x131, 0x134, 0x13a, 0x13b, 0x13c, 0x136, 0x137, 0x13d, 0x13e]
    );
    for i in 0..buttons.len() {
        for j in 0..i {
            assert_ne!(buttons[i], buttons[j]);
        }
    }
}

#[test]
fn output_device_registers_under_its_fixed_name() {
    assert_eq!(output_device_name(), "Muxed Controller");
}
