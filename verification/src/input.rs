//! Planning of synthesized input: one remote-control event maps to at most
//! one native input action. Normalized pointer coordinates arrive as
//! millionths of the unit interval, and wheel deltas as millionths of a
//! pixel, so that the mapping is exact integer arithmetic.

use vstd::prelude::*;
use vstd::string::StrSliceExecFns;
use vstd::string::StringExecFns;

use crate::text::str_eq;

verus! {

/// One normalized unit, in millionths.
pub const NORM_ONE_MICROS: i64 = 1000000;

/// Wheel pixels per discrete scroll step, in millionths of a pixel.
pub const WHEEL_STEP_MICROS: i64 = 60000000;

/// A remote-control event, one per invocation. Pointer coordinates are
/// normalized to `[0, NORM_ONE_MICROS]` millionths (values outside are
/// clamped); wheel deltas are in millionths of a pixel.
#[derive(Debug, Clone, PartialEq)]
pub enum RemoteControlInputEvent {
    PointerMove { x_norm_micros: i64, y_norm_micros: i64 },
    PointerDown { button: String },
    PointerUp { button: String },
    Wheel { delta_y_micros: i64 },
    KeyDown { key: String },
    KeyUp { key: String },
}

/// The primary monitor's origin and size in pixels.
#[derive(Debug, Clone, Copy, PartialEq, Eq, Structural)]
pub struct MonitorGeometry {
    pub x: i32,
    pub y: i32,
    pub width: u32,
    pub height: u32,
}

impl MonitorGeometry {
    /// Every pixel of the monitor has coordinates representable as `i32`.
    pub open spec fn wf(&self) -> bool {
        &&& self.x + self.width <= i32::MAX as int + 1
        &&& self.y + self.height <= i32::MAX as int + 1
    }
}

/// A native mouse button.
#[derive(Debug, Clone, Copy, PartialEq, Eq, Structural)]
pub enum PointerButton {
    Left,
    Right,
    Middle,
}

/// A native key: a small set of named keys, or a literal character.
#[derive(Debug, Clone, Copy, PartialEq, Eq, Structural)]
pub enum KeyCode {
    Return,
    Escape,
    Backspace,
    Tab,
    Space,
    UpArrow,
    DownArrow,
    LeftArrow,
    RightArrow,
    Unicode(char),
}

/// The single native input action an event plans to, if any.
#[derive(Debug, Clone, Copy, PartialEq, Eq, Structural)]
pub enum InputAction {
    MoveMouse { x: i32, y: i32 },
    PressButton { button: PointerButton },
    ReleaseButton { button: PointerButton },
    Scroll { steps: i32 },
    PressKey { key: KeyCode },
    ReleaseKey { key: KeyCode },
    NoAction,
}

/// `v` clamped to the interval `[lo, hi]`.
pub open spec fn spec_clamp(v: int, lo: int, hi: int) -> int {
    if v < lo {
        lo
    } else if v > hi {
        hi
    } else {
        v
    }
}

/// `v` clamped to the `i32` range.
pub open spec fn sat_i32(v: int) -> int {
    spec_clamp(v, i32::MIN as int, i32::MAX as int)
}

/// The quotient `a / b`, rounded to the nearest integer, halves away from
/// zero; `b` must be positive.
pub open spec fn round_div(a: int, b: int) -> int {
    if a >= 0 {
        (2 * a + b) / (2 * b)
    } else {
        -((2 * -a + b) / (2 * b))
    }
}

/// The pixel offset onto a span of `limit + 1` pixels for a clamped
/// normalized coordinate `c` (in millionths): `c * limit / NORM_ONE_MICROS`,
/// rounded to nearest.
pub open spec fn spec_scaled(c: int, limit: int) -> int {
    (2 * c * limit + NORM_ONE_MICROS) / (2 * NORM_ONE_MICROS)
}

/// The pixel offset is never past the end of the span.
proof fn lemma_scaled_in_range(c: int, limit: int)
    requires
        0 <= c <= NORM_ONE_MICROS,
        0 <= limit,
    ensures
        0 <= spec_scaled(c, limit) <= limit,
{
    assert(0 <= 2 * c * limit) by (nonlinear_arith)
        requires
            0 <= c,
            0 <= limit,
    ;
    assert(2 * c * limit + NORM_ONE_MICROS < (2 * NORM_ONE_MICROS) * (limit + 1))
        by (nonlinear_arith)
        requires
            0 <= c <= NORM_ONE_MICROS,
            0 <= limit,
    ;
    assert((2 * c * limit + NORM_ONE_MICROS) / (2 * NORM_ONE_MICROS) <= limit) by (nonlinear_arith)
        requires
            0 <= 2 * c * limit,
            2 * c * limit + NORM_ONE_MICROS < (2 * NORM_ONE_MICROS) * (limit + 1),
    ;
}

fn clamp_norm(v: i64) -> (r: i64)
    ensures
        r == spec_clamp(v as int, 0, NORM_ONE_MICROS as int),
{
    if v < 0 {
        0
    } else if v > NORM_ONE_MICROS {
        NORM_ONE_MICROS
    } else {
        v
    }
}

fn scaled_offset(c: i64, limit: u32) -> (r: u32)
    requires
        0 <= c <= NORM_ONE_MICROS,
    ensures
        r == spec_scaled(c as int, limit as int),
        r <= limit,
{
    proof {
        lemma_scaled_in_range(c as int, limit as int);
        assert(2 * (c as int) * (limit as int) <= 2 * (NORM_ONE_MICROS as int) * (limit as int))
            by (nonlinear_arith)
            requires
                0 <= c <= NORM_ONE_MICROS,
                0 <= limit,
        ;
    }
    let num: i64 = 2 * c * (limit as i64) + NORM_ONE_MICROS;
    let q: i64 = num / (2 * NORM_ONE_MICROS);
    q as u32
}

/// The absolute screen position a pointer-move event maps to: the monitor's
/// origin plus the clamped, scaled and rounded normalized coordinates.
pub open spec fn spec_pointer_target(m: MonitorGeometry, xn: int, yn: int) -> (int, int) {
    let limit_x = if m.width == 0 {
        0int
    } else {
        m.width - 1
    };
    let limit_y = if m.height == 0 {
        0int
    } else {
        m.height - 1
    };
    (
        m.x + spec_scaled(spec_clamp(xn, 0, NORM_ONE_MICROS as int), limit_x),
        m.y + spec_scaled(spec_clamp(yn, 0, NORM_ONE_MICROS as int), limit_y),
    )
}

/// Map normalized pointer coordinates to an absolute pixel on the monitor.
pub fn pointer_target(m: &MonitorGeometry, x_norm_micros: i64, y_norm_micros: i64) -> (r: (
    i32,
    i32,
))
    requires
        m.wf(),
    ensures
        (r.0 as int, r.1 as int) == spec_pointer_target(*m, x_norm_micros as int, y_norm_micros as int),
{
    let limit_x: u32 = if m.width == 0 {
        0
    } else {
        m.width - 1
    };
    let limit_y: u32 = if m.height == 0 {
        0
    } else {
        m.height - 1
    };
    let off_x = scaled_offset(clamp_norm(x_norm_micros), limit_x);
    let off_y = scaled_offset(clamp_norm(y_norm_micros), limit_y);
    let x: i32 = ((m.x as i64) + (off_x as i64)) as i32;
    let y: i32 = ((m.y as i64) + (off_y as i64)) as i32;
    (x, y)
}

/// The number of discrete scroll steps for a wheel delta (in millionths of a
/// pixel): the delta divided by 60 pixels, rounded to nearest, saturated to
/// the `i32` range.
pub open spec fn spec_wheel_steps(delta_micros: int) -> int {
    sat_i32(round_div(delta_micros, WHEEL_STEP_MICROS as int))
}

/// Compute the scroll steps for a wheel delta.
pub fn wheel_steps(delta_y_micros: i64) -> (r: i32)
    ensures
        r as int == spec_wheel_steps(delta_y_micros as int),
{
    let neg = delta_y_micros < 0;
    let mag: i128 = if neg {
        -(delta_y_micros as i128)
    } else {
        delta_y_micros as i128
    };
    let b: i128 = WHEEL_STEP_MICROS as i128;
    let q: i128 = (2 * mag + b) / (2 * b);
    let signed: i128 = if neg {
        -q
    } else {
        q
    };
    if signed > i32::MAX as i128 {
        i32::MAX
    } else if signed < i32::MIN as i128 {
        i32::MIN
    } else {
        signed as i32
    }
}

/// The mouse button a button name denotes, if any; unrecognized names denote
/// none.
pub open spec fn spec_button_of(s: Seq<char>) -> Option<PointerButton> {
    if s == "left"@ {
        Some(PointerButton::Left)
    } else if s == "right"@ {
        Some(PointerButton::Right)
    } else if s == "middle"@ {
        Some(PointerButton::Middle)
    } else {
        None
    }
}

/// Map a button name to a native button identifier.
pub fn to_mouse_button(name: &str) -> (r: Option<PointerButton>)
    ensures
        r == spec_button_of(name@),
{
    if str_eq(name, "left") {
        Some(PointerButton::Left)
    } else if str_eq(name, "right") {
        Some(PointerButton::Right)
    } else if str_eq(name, "middle") {
        Some(PointerButton::Middle)
    } else {
        None
    }
}

/// The key a key name denotes: a fixed set of named keys; any other
/// single-character name denotes that literal character; anything else falls
/// back to a space.
pub open spec fn spec_key_of(s: Seq<char>) -> KeyCode {
    if s == "Enter"@ {
        KeyCode::Return
    } else if s == "Escape"@ {
        KeyCode::Escape
    } else if s == "Backspace"@ {
        KeyCode::Backspace
    } else if s == "Tab"@ {
        KeyCode::Tab
    } else if s == "Space"@ || s == " "@ {
        KeyCode::Space
    } else if s == "ArrowUp"@ {
        KeyCode::UpArrow
    } else if s == "ArrowDown"@ {
        KeyCode::DownArrow
    } else if s == "ArrowLeft"@ {
        KeyCode::LeftArrow
    } else if s == "ArrowRight"@ {
        KeyCode::RightArrow
    } else if s.len() == 1 {
        KeyCode::Unicode(s[0])
    } else {
        KeyCode::Unicode(' ')
    }
}

/// Map a key name to a native key code.
pub fn to_key(name: &str) -> (r: KeyCode)
    ensures
        r == spec_key_of(name@),
{
    if str_eq(name, "Enter") {
        KeyCode::Return
    } else if str_eq(name, "Escape") {
        KeyCode::Escape
    } else if str_eq(name, "Backspace") {
        KeyCode::Backspace
    } else if str_eq(name, "Tab") {
        KeyCode::Tab
    } else if str_eq(name, "Space") || str_eq(name, " ") {
        KeyCode::Space
    } else if str_eq(name, "ArrowUp") {
        KeyCode::UpArrow
    } else if str_eq(name, "ArrowDown") {
        KeyCode::DownArrow
    } else if str_eq(name, "ArrowLeft") {
        KeyCode::LeftArrow
    } else if str_eq(name, "ArrowRight") {
        KeyCode::RightArrow
    } else {
        if name.unicode_len() == 1 {
            KeyCode::Unicode(name.get_char(0))
        } else {
            KeyCode::Unicode(' ')
        }
    }
}

/// The action an event plans to, given the primary monitor's geometry (or its
/// absence).
pub open spec fn spec_plan(
    event: RemoteControlInputEvent,
    monitor: Option<MonitorGeometry>,
) -> Result<InputAction, Seq<char>> {
    match event {
        RemoteControlInputEvent::PointerMove { x_norm_micros, y_norm_micros } => {
            match monitor {
                Option::Some(m) => {
                    let (x, y) = spec_pointer_target(m, x_norm_micros as int, y_norm_micros as int);
                    Ok(InputAction::MoveMouse { x: x as i32, y: y as i32 })
                },
                Option::None => Err("No primary monitor available"@),
            }
        },
        RemoteControlInputEvent::PointerDown { button } => {
            match spec_button_of(button@) {
                Option::Some(b) => Ok(InputAction::PressButton { button: b }),
                Option::None => Ok(InputAction::NoAction),
            }
        },
        RemoteControlInputEvent::PointerUp { button } => {
            match spec_button_of(button@) {
                Option::Some(b) => Ok(InputAction::ReleaseButton { button: b }),
                Option::None => Ok(InputAction::NoAction),
            }
        },
        RemoteControlInputEvent::Wheel { delta_y_micros } => {
            let steps = spec_wheel_steps(delta_y_micros as int);
            if steps == 0 {
                Ok(InputAction::NoAction)
            } else {
                Ok(InputAction::Scroll { steps: steps as i32 })
            }
        },
        RemoteControlInputEvent::KeyDown { key } => Ok(
            InputAction::PressKey { key: spec_key_of(key@) },
        ),
        RemoteControlInputEvent::KeyUp { key } => Ok(
            InputAction::ReleaseKey { key: spec_key_of(key@) },
        ),
    }
}

/// Plan the single native action for one remote-control event. A pointer
/// move fails without a primary monitor; an unrecognized button name and a
/// zero-step wheel delta plan no action; key names always plan a key action.
pub fn plan_remote_control_input(
    event: &RemoteControlInputEvent,
    monitor: Option<&MonitorGeometry>,
) -> (r: Result<InputAction, String>)
    requires
        monitor matches Some(m) ==> m.wf(),
    ensures
        ({
            let spec_monitor = match monitor {
                Option::Some(m) => Option::Some(*m),
                Option::None => Option::None,
            };
            match (r, spec_plan(*event, spec_monitor)) {
                (Ok(a), Ok(b)) => a == b,
                (Err(e), Err(f)) => e@ == f,
                _ => false,
            }
        }),
{
    match event {
        RemoteControlInputEvent::PointerMove { x_norm_micros, y_norm_micros } => {
            match monitor {
                Option::Some(m) => {
                    let (x, y) = pointer_target(m, *x_norm_micros, *y_norm_micros);
                    Ok(InputAction::MoveMouse { x, y })
                },
                Option::None => Err(String::from_str("No primary monitor available")),
            }
        },
        RemoteControlInputEvent::PointerDown { button } => {
            match to_mouse_button(button.as_str()) {
                Option::Some(b) => Ok(InputAction::PressButton { button: b }),
                Option::None => Ok(InputAction::NoAction),
            }
        },
        RemoteControlInputEvent::PointerUp { button } => {
            match to_mouse_button(button.as_str()) {
                Option::Some(b) => Ok(InputAction::ReleaseButton { button: b }),
                Option::None => Ok(InputAction::NoAction),
            }
        },
        RemoteControlInputEvent::Wheel { delta_y_micros } => {
            let steps = wheel_steps(*delta_y_micros);
            if steps == 0 {
                Ok(InputAction::NoAction)
            } else {
                Ok(InputAction::Scroll { steps })
            }
        },
        RemoteControlInputEvent::KeyDown { key } => Ok(
            InputAction::PressKey { key: to_key(key.as_str()) },
        ),
        RemoteControlInputEvent::KeyUp { key } => Ok(
            InputAction::ReleaseKey { key: to_key(key.as_str()) },
        ),
    }
}

} // verus!
