//! The synthetic output device's capability set.
//!
//! The one virtual device advertises the union of what both sources produce:
//! four stick axes with the signed 16-bit range and light jitter filtering,
//! two trigger axes and two directional-pad axes with an unsigned 10-bit
//! range and no filtering, and eleven buttons. Codes are the input
//! subsystem's absolute-axis and key codes. Declared once at startup; the
//! runtime registers a device with exactly this set.

use vstd::prelude::*;

verus! {

/// Absolute-axis code: left stick, horizontal.
pub const AXIS_LEFT_X: u16 = 0x00;

/// Absolute-axis code: left stick, vertical.
pub const AXIS_LEFT_Y: u16 = 0x01;

/// Absolute-axis code: left trigger.
pub const AXIS_TRIGGER_LEFT: u16 = 0x02;

/// Absolute-axis code: right stick, horizontal.
pub const AXIS_RIGHT_X: u16 = 0x03;

/// Absolute-axis code: right stick, vertical.
pub const AXIS_RIGHT_Y: u16 = 0x04;

/// Absolute-axis code: right trigger.
pub const AXIS_TRIGGER_RIGHT: u16 = 0x05;

/// Absolute-axis code: directional pad, horizontal.
pub const AXIS_DPAD_X: u16 = 0x10;

/// Absolute-axis code: directional pad, vertical.
pub const AXIS_DPAD_Y: u16 = 0x11;

/// Key code: south face button.
pub const BUTTON_SOUTH: u16 = 0x130;

/// Key code: east face button.
pub const BUTTON_EAST: u16 = 0x131;

/// Key code: north face button.
pub const BUTTON_NORTH: u16 = 0x133;

/// Key code: west face button.
pub const BUTTON_WEST: u16 = 0x134;

/// Key code: left shoulder button.
pub const BUTTON_SHOULDER_LEFT: u16 = 0x136;

/// Key code: right shoulder button.
pub const BUTTON_SHOULDER_RIGHT: u16 = 0x137;

/// Key code: select button.
pub const BUTTON_SELECT: u16 = 0x13a;

/// Key code: start button.
pub const BUTTON_START: u16 = 0x13b;

/// Key code: mode (guide) button.
pub const BUTTON_MODE: u16 = 0x13c;

/// Key code: left stick click.
pub const BUTTON_THUMB_LEFT: u16 = 0x13d;

/// Key code: right stick click.
pub const BUTTON_THUMB_RIGHT: u16 = 0x13e;

/// One absolute axis the synthetic device exposes, with its declared range
/// and noise filtering.
#[derive(Clone, Copy, PartialEq, Eq, Structural, Debug)]
pub struct AxisSpec {
    /// Absolute-axis code.
    pub code: u16,
    /// Least value the axis reports.
    pub min: i32,
    /// Greatest value the axis reports.
    pub max: i32,
    /// Jitter filter width; 0 for none.
    pub fuzz: i32,
    /// Dead-zone width around rest; 0 for none.
    pub flat: i32,
    /// Units per millimeter, or 0 when unspecified.
    pub resolution: i32,
}

/// A declared axis is sane: a nonempty range, nonnegative filtering that
/// fits inside the range.
pub open spec fn axis_wf(a: AxisSpec) -> bool {
    a.min < a.max && 0 <= a.fuzz && 0 <= a.flat && a.fuzz <= a.max - a.min && a.flat <= a.max
        - a.min && a.resolution >= 0
}

/// A stick axis: signed 16-bit range, light jitter filtering.
pub open spec fn stick_axis(code: u16) -> AxisSpec {
    AxisSpec { code, min: -32768i32, max: 32767i32, fuzz: 16i32, flat: 128i32, resolution: 0i32 }
}

/// A trigger or directional-pad axis: unsigned 10-bit range, no filtering.
pub open spec fn coarse_axis(code: u16) -> AxisSpec {
    AxisSpec { code, min: 0i32, max: 1023i32, fuzz: 0i32, flat: 0i32, resolution: 0i32 }
}

/// Every absolute axis the synthetic device advertises, in declaration
/// order: both sticks, both triggers, the directional pad.
pub open spec fn synthetic_axes_spec() -> Seq<AxisSpec> {
    seq![
        stick_axis(AXIS_LEFT_X),
        stick_axis(AXIS_LEFT_Y),
        stick_axis(AXIS_RIGHT_X),
        stick_axis(AXIS_RIGHT_Y),
        coarse_axis(AXIS_TRIGGER_LEFT),
        coarse_axis(AXIS_TRIGGER_RIGHT),
        coarse_axis(AXIS_DPAD_X),
        coarse_axis(AXIS_DPAD_Y),
    ]
}

/// Every key code the synthetic device accepts: face buttons, select,
/// start, mode, both shoulders, both stick clicks.
pub open spec fn synthetic_buttons_spec() -> Seq<u16> {
    seq![
        BUTTON_SOUTH,
        BUTTON_NORTH,
        BUTTON_EAST,
        BUTTON_WEST,
        BUTTON_SELECT,
        BUTTON_START,
        BUTTON_MODE,
        BUTTON_SHOULDER_LEFT,
        BUTTON_SHOULDER_RIGHT,
        BUTTON_THUMB_LEFT,
        BUTTON_THUMB_RIGHT,
    ]
}

/// No element of `s` occurs twice.
pub open spec fn distinct_u16(s: Seq<u16>) -> bool {
    forall|i: int, j: int| 0 <= i < j < s.len() ==> s[i] != s[j]
}

fn push_stick(v: &mut Vec<AxisSpec>, code: u16)
    ensures
        final(v)@ == old(v)@.push(stick_axis(code)),
{
    v.push(AxisSpec { code, min: -32768, max: 32767, fuzz: 16, flat: 128, resolution: 0 });
}

fn push_coarse(v: &mut Vec<AxisSpec>, code: u16)
    ensures
        final(v)@ == old(v)@.push(coarse_axis(code)),
{
    v.push(AxisSpec { code, min: 0, max: 1023, fuzz: 0, flat: 0, resolution: 0 });
}

/// The full axis declaration: exactly the eight axes of
/// `synthetic_axes_spec`, in order, every one well-formed, no axis code
/// declared twice.
pub fn synthetic_axes() -> (v: Vec<AxisSpec>)
    ensures
        v@ == synthetic_axes_spec(),
        forall|i: int| 0 <= i < v@.len() ==> axis_wf(#[trigger] v@[i]),
        forall|i: int, j: int| 0 <= i < j < v@.len() ==> v@[i].code != v@[j].code,
{
    let mut v: Vec<AxisSpec> = Vec::new();
    push_stick(&mut v, AXIS_LEFT_X);
    push_stick(&mut v, AXIS_LEFT_Y);
    push_stick(&mut v, AXIS_RIGHT_X);
    push_stick(&mut v, AXIS_RIGHT_Y);
    push_coarse(&mut v, AXIS_TRIGGER_LEFT);
    push_coarse(&mut v, AXIS_TRIGGER_RIGHT);
    push_coarse(&mut v, AXIS_DPAD_X);
    push_coarse(&mut v, AXIS_DPAD_Y);
    proof {
        assert(v@ =~= synthetic_axes_spec());
    }
    v
}

/// The full button declaration: exactly the eleven codes of
/// `synthetic_buttons_spec`, in order, no code twice.
pub fn synthetic_buttons() -> (v: Vec<u16>)
    ensures
        v@ == synthetic_buttons_spec(),
        distinct_u16(v@),
{
    let mut v: Vec<u16> = Vec::new();
    v.push(BUTTON_SOUTH);
    v.push(BUTTON_NORTH);
    v.push(BUTTON_EAST);
    v.push(BUTTON_WEST);
    v.push(BUTTON_SELECT);
    v.push(BUTTON_START);
    v.push(BUTTON_MODE);
    v.push(BUTTON_SHOULDER_LEFT);
    v.push(BUTTON_SHOULDER_RIGHT);
    v.push(BUTTON_THUMB_LEFT);
    v.push(BUTTON_THUMB_RIGHT);
    proof {
        assert(v@ =~= synthetic_buttons_spec());
    }
    v
}

/// The name under which the synthetic device registers; consuming
/// applications select their controller by it.
pub fn output_device_name() -> (r: &'static str)
    ensures
        r@ == "Muxed Controller"@,
{
    "Muxed Controller"
}

} // verus!
