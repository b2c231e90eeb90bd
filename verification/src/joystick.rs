//! Joystick ADC samples to relative mouse movement: centring, a fixed 45°
//! rotation per keyboard half, scaling, clamping to the HID range and a
//! circular dead zone.

use vstd::prelude::*;
use crate::motion::Motion;

verus! {

/// Fixed-point cosine (and sine) of 45°, in units of `ROTATION_DIV`.
pub const ROTATION_COS: i32 = 7071;
/// Fixed-point sine of 45°, in units of `ROTATION_DIV`.
pub const ROTATION_SIN: i32 = 7071;
/// Denominator of the fixed-point rotation coefficients.
pub const ROTATION_DIV: i32 = 10000;
/// Largest magnitude of a mouse axis value that is reported.
pub const MOUSE_AXIS_MAX: i32 = 127;

/// Direction of the 45° rotation that aligns a half's joystick with the desk.
#[derive(Clone, Copy, Debug, PartialEq, Eq)]
pub enum Rotation {
    Clockwise,
    CounterClockwise,
}

/// Calibration of one joystick: resting ADC values, sensitivity and dead zone.
#[derive(Clone, Copy, Debug)]
pub struct JoystickCalibration {
    /// ADC reading of the X channel at rest.
    pub center_x: i32,
    /// ADC reading of the Y channel at rest.
    pub center_y: i32,
    /// Divisor from rotated ADC units to mouse units.
    pub scale: i32,
    /// Radius of the dead zone, in mouse units.
    pub dead_zone: i32,
    /// Rotation applied to the centred reading.
    pub rotation: Rotation,
}

impl JoystickCalibration {
    /// The calibration is usable: a positive scale, centres within the range
    /// of the 16-bit ADC (so no intermediate value overflows) and a dead zone
    /// whose square fits in 32 bits.
    pub open spec fn valid(self) -> bool {
        &&& 0 < self.scale
        &&& -32768 <= self.center_x <= 32767
        &&& -32768 <= self.center_y <= 32767
        &&& 0 <= self.dead_zone <= 46340
    }
}

/// Rust's integer division, which rounds toward zero (for a positive divisor).
pub open spec fn trunc_div(a: int, b: int) -> int {
    if a >= 0 { a / b } else { -((-a) / b) }
}

/// `v` limited to the closed range `[lo, hi]`.
pub open spec fn clamp(v: int, lo: int, hi: int) -> int {
    if v < lo { lo } else if v > hi { hi } else { v }
}

/// The centred reading `(x, y)` rotated by 45° in the given direction, in the
/// fixed-point arithmetic of the firmware.
pub open spec fn rotate(rotation: Rotation, x: int, y: int) -> (int, int) {
    match rotation {
        Rotation::Clockwise => (
            trunc_div(x * ROTATION_COS + y * ROTATION_SIN, ROTATION_DIV as int),
            trunc_div(-x * ROTATION_SIN + y * ROTATION_COS, ROTATION_DIV as int),
        ),
        Rotation::CounterClockwise => (
            trunc_div(x * ROTATION_COS - y * ROTATION_SIN, ROTATION_DIV as int),
            trunc_div(x * ROTATION_SIN + y * ROTATION_COS, ROTATION_DIV as int),
        ),
    }
}

/// One rotated axis in mouse units, clamped to `[-127, 127]`.
pub open spec fn mouse_axis(rotated: int, scale: int) -> int {
    clamp(trunc_div(rotated, scale), -MOUSE_AXIS_MAX as int, MOUSE_AXIS_MAX as int)
}

/// Mouse movement before the dead zone is applied.
pub open spec fn raw_mouse_delta(cal: JoystickCalibration, raw_x: int, raw_y: int) -> (int, int) {
    let (xr, yr) = rotate(cal.rotation, raw_x - cal.center_x, raw_y - cal.center_y);
    (mouse_axis(xr, cal.scale as int), mouse_axis(yr, cal.scale as int))
}

/// `(x, y)` lies strictly inside the circle of radius `dead_zone`.
pub open spec fn in_dead_zone(x: int, y: int, dead_zone: int) -> bool {
    x * x + y * y < dead_zone * dead_zone
}

/// The mouse movement reported for the ADC sample `(raw_x, raw_y)`.
pub open spec fn mouse_delta(cal: JoystickCalibration, raw_x: int, raw_y: int) -> (int, int) {
    let (mx, my) = raw_mouse_delta(cal, raw_x, raw_y);
    if in_dead_zone(mx, my, cal.dead_zone as int) { (0, 0) } else { (mx, my) }
}

/// Calibration of the right half's joystick (rotated clockwise).
pub fn right_half_calibration() -> (cal: JoystickCalibration)
    ensures
        cal.valid(),
        cal.center_x == 1900,
        cal.center_y == 1900,
        cal.scale == 128,
        cal.dead_zone == 1,
        cal.rotation == Rotation::Clockwise,
{
    JoystickCalibration {
        center_x: 1900,
        center_y: 1900,
        scale: 128,
        dead_zone: 1,
        rotation: Rotation::Clockwise,
    }
}

/// Calibration of the left half's joystick (rotated counter-clockwise).
pub fn left_half_calibration() -> (cal: JoystickCalibration)
    ensures
        cal.valid(),
        cal.center_x == 7500,
        cal.center_y == 7500,
        cal.scale == 64,
        cal.dead_zone == 4,
        cal.rotation == Rotation::CounterClockwise,
{
    JoystickCalibration {
        center_x: 7500,
        center_y: 7500,
        scale: 64,
        dead_zone: 4,
        rotation: Rotation::CounterClockwise,
    }
}

fn clamp_mouse_axis(v: i32) -> (r: i16)
    ensures
        r == clamp(v as int, -MOUSE_AXIS_MAX as int, MOUSE_AXIS_MAX as int),
{
    if v < -MOUSE_AXIS_MAX {
        -127
    } else if v > MOUSE_AXIS_MAX {
        127
    } else {
        v as i16
    }
}

/// Converts one ADC sample of the joystick's two channels into the relative
/// movement that the half reports (nothing on the Z axis).
pub fn joystick_motion(cal: &JoystickCalibration, raw_x: i16, raw_y: i16) -> (m: Motion)
    requires
        cal.valid(),
    ensures
        m.x as int == mouse_delta(*cal, raw_x as int, raw_y as int).0,
        m.y as int == mouse_delta(*cal, raw_x as int, raw_y as int).1,
        m.z == 0,
        -127 <= m.x <= 127,
        -127 <= m.y <= 127,
{
    let x: i32 = raw_x as i32 - cal.center_x;
    let y: i32 = raw_y as i32 - cal.center_y;
    let (x_rot, y_rot): (i32, i32) = match cal.rotation {
        Rotation::Clockwise => (
            (x * ROTATION_COS + y * ROTATION_SIN) / ROTATION_DIV,
            (-x * ROTATION_SIN + y * ROTATION_COS) / ROTATION_DIV,
        ),
        Rotation::CounterClockwise => (
            (x * ROTATION_COS - y * ROTATION_SIN) / ROTATION_DIV,
            (x * ROTATION_SIN + y * ROTATION_COS) / ROTATION_DIV,
        ),
    };
    let x_mouse: i16 = clamp_mouse_axis(x_rot / cal.scale);
    let y_mouse: i16 = clamp_mouse_axis(y_rot / cal.scale);
    let xm: i32 = x_mouse as i32;
    let ym: i32 = y_mouse as i32;
    assert(xm * xm <= 127 * 127) by (nonlinear_arith)
        requires -127 <= xm <= 127;
    assert(ym * ym <= 127 * 127) by (nonlinear_arith)
        requires -127 <= ym <= 127;
    assert(0 <= xm * xm && 0 <= ym * ym) by (nonlinear_arith);
    let dist_sq: i32 = xm * xm + ym * ym;
    let dz: i32 = cal.dead_zone;
    assert(dz * dz <= 46340 * 46340) by (nonlinear_arith)
        requires 0 <= dz <= 46340;
    assert(0 <= dz * dz) by (nonlinear_arith);
    if dist_sq < dz * dz {
        Motion { x: 0, y: 0, z: 0 }
    } else {
        Motion { x: x_mouse, y: y_mouse, z: 0 }
    }
}

proof fn lemma_trunc_div_odd(a: int, b: int)
    requires
        b > 0,
    ensures
        trunc_div(-a, b) == -trunc_div(a, b),
{
}

proof fn lemma_mouse_axis_odd(v: int, scale: int)
    requires
        scale > 0,
    ensures
        mouse_axis(-v, scale) == -mouse_axis(v, scale),
{
    lemma_trunc_div_odd(v, scale);
}

proof fn lemma_square_of_negation(a: int)
    ensures
        (-a) * (-a) == a * a,
{
    assert((-a) * (-a) == a * a) by (nonlinear_arith);
}

/// A joystick at rest, reading exactly its calibrated centre, moves nothing.
pub proof fn lemma_rest_is_still(cal: JoystickCalibration)
    requires
        cal.valid(),
    ensures
        mouse_delta(cal, cal.center_x as int, cal.center_y as int) == (0int, 0int),
{
    assert(raw_mouse_delta(cal, cal.center_x as int, cal.center_y as int) == (0int, 0int));
}

/// The dead zone is circular and nothing inside it is reported: a reported
/// movement is either zero or lies on or outside the circle of radius
/// `dead_zone`, and a deflection is suppressed exactly when its scaled
/// movement lies inside that circle.
pub proof fn lemma_dead_zone(cal: JoystickCalibration, raw_x: int, raw_y: int)
    requires
        cal.valid(),
    ensures
        ({
            let (mx, my) = mouse_delta(cal, raw_x, raw_y);
            let (rx, ry) = raw_mouse_delta(cal, raw_x, raw_y);
            &&& (mx == 0 && my == 0) || !in_dead_zone(mx, my, cal.dead_zone as int)
            &&& in_dead_zone(rx, ry, cal.dead_zone as int) ==> mx == 0 && my == 0
            &&& !in_dead_zone(rx, ry, cal.dead_zone as int) ==> mx == rx && my == ry
        }),
{
}

/// The reported movement is the centred sample rotated by 45° in fixed point
/// (coefficients 7071/10000), divided by the scale with rounding toward zero,
/// and limited to ±127: away from the limit each axis is exactly that
/// quotient, unless the point lies inside the dead zone, where nothing moves;
/// beyond the limit the axis sits at ±127 (for a dead zone within the range).
pub proof fn lemma_motion_is_scaled_rotation(cal: JoystickCalibration, raw_x: int, raw_y: int)
    requires
        cal.valid(),
    ensures
        ({
            let x = raw_x - cal.center_x;
            let y = raw_y - cal.center_y;
            let sx = if cal.rotation == Rotation::Clockwise { x * 7071 + y * 7071 } else { x * 7071 - y * 7071 };
            let sy = if cal.rotation == Rotation::Clockwise { -x * 7071 + y * 7071 } else { x * 7071 + y * 7071 };
            let xr = if sx >= 0 { sx / 10000 } else { -((-sx) / 10000) };
            let yr = if sy >= 0 { sy / 10000 } else { -((-sy) / 10000) };
            let qx = if xr >= 0 { xr / cal.scale as int } else { -((-xr) / cal.scale as int) };
            let qy = if yr >= 0 { yr / cal.scale as int } else { -((-yr) / cal.scale as int) };
            let dz = cal.dead_zone as int;
            let (mx, my) = mouse_delta(cal, raw_x, raw_y);
            &&& (-127 <= qx <= 127 && -127 <= qy <= 127 && qx * qx + qy * qy >= dz * dz)
                ==> mx == qx && my == qy
            &&& (-127 <= qx <= 127 && -127 <= qy <= 127 && qx * qx + qy * qy < dz * dz)
                ==> mx == 0 && my == 0
            &&& (qx > 127 && dz <= 127) ==> mx == 127
            &&& (qx < -127 && dz <= 127) ==> mx == -127
            &&& (qy > 127 && dz <= 127) ==> my == 127
            &&& (qy < -127 && dz <= 127) ==> my == -127
        }),
{
    let (rx, ry) = raw_mouse_delta(cal, raw_x, raw_y);
    let dz = cal.dead_zone as int;
    assert(0 <= rx * rx && 0 <= ry * ry) by (nonlinear_arith);
    if dz <= 127 {
        assert(dz * dz <= 127 * 127) by (nonlinear_arith)
            requires 0 <= dz <= 127;
        assert((rx == 127 || rx == -127) ==> rx * rx == 127 * 127) by (nonlinear_arith);
        assert((ry == 127 || ry == -127) ==> ry * ry == 127 * 127) by (nonlinear_arith);
    }
}

/// The reported movement is point-symmetric about the resting position:
/// deflecting the stick by `(dx, dy)` moves the pointer exactly opposite to
/// deflecting it by `(-dx, -dy)`.
pub proof fn lemma_point_symmetric(cal: JoystickCalibration, dx: int, dy: int)
    requires
        cal.valid(),
    ensures
        mouse_delta(cal, cal.center_x + dx, cal.center_y + dy).0
            == -mouse_delta(cal, cal.center_x - dx, cal.center_y - dy).0,
        mouse_delta(cal, cal.center_x + dx, cal.center_y + dy).1
            == -mouse_delta(cal, cal.center_x - dx, cal.center_y - dy).1,
{
    let d = ROTATION_DIV as int;
    let s = cal.scale as int;
    let (xr, yr) = rotate(cal.rotation, dx, dy);
    let (nxr, nyr) = rotate(cal.rotation, -dx, -dy);
    assert(cal.center_x + dx - cal.center_x == dx);
    assert(cal.center_x - dx - cal.center_x == -dx);
    assert(cal.center_y + dy - cal.center_y == dy);
    assert(cal.center_y - dy - cal.center_y == -dy);
    match cal.rotation {
        Rotation::Clockwise => {
            lemma_trunc_div_odd(dx * ROTATION_COS + dy * ROTATION_SIN, d);
            lemma_trunc_div_odd(-dx * ROTATION_SIN + dy * ROTATION_COS, d);
        },
        Rotation::CounterClockwise => {
            lemma_trunc_div_odd(dx * ROTATION_COS - dy * ROTATION_SIN, d);
            lemma_trunc_div_odd(dx * ROTATION_SIN + dy * ROTATION_COS, d);
        },
    }
    assert(nxr == -xr && nyr == -yr);
    lemma_mouse_axis_odd(xr, s);
    lemma_mouse_axis_odd(yr, s);
    let mx = mouse_axis(xr, s);
    let my = mouse_axis(yr, s);
    lemma_square_of_negation(mx);
    lemma_square_of_negation(my);
}

/// The 45° rotation: pushing the stick along one raw ADC axis moves the
/// pointer along a diagonal. Clockwise, a push along X gives `y == -x` and a
/// push along Y gives `y == x`; counter-clockwise the other way round.
pub proof fn lemma_axis_push_is_diagonal(cal: JoystickCalibration, raw_x: int, raw_y: int)
    requires
        cal.valid(),
    ensures
        raw_y == cal.center_y && cal.rotation == Rotation::Clockwise
            ==> mouse_delta(cal, raw_x, raw_y).1 == -mouse_delta(cal, raw_x, raw_y).0,
        raw_x == cal.center_x && cal.rotation == Rotation::Clockwise
            ==> mouse_delta(cal, raw_x, raw_y).1 == mouse_delta(cal, raw_x, raw_y).0,
        raw_y == cal.center_y && cal.rotation == Rotation::CounterClockwise
            ==> mouse_delta(cal, raw_x, raw_y).1 == mouse_delta(cal, raw_x, raw_y).0,
        raw_x == cal.center_x && cal.rotation == Rotation::CounterClockwise
            ==> mouse_delta(cal, raw_x, raw_y).1 == -mouse_delta(cal, raw_x, raw_y).0,
{
    let d = ROTATION_DIV as int;
    let s = cal.scale as int;
    let x = raw_x - cal.center_x;
    let y = raw_y - cal.center_y;
    lemma_trunc_div_odd(x * ROTATION_COS, d);
    lemma_trunc_div_odd(y * ROTATION_COS, d);
    let tx = trunc_div(x * ROTATION_COS, d);
    let ty = trunc_div(y * ROTATION_COS, d);
    lemma_mouse_axis_odd(tx, s);
    lemma_mouse_axis_odd(ty, s);
    if raw_y == cal.center_y {
        assert(y == 0);
        assert(-x * ROTATION_SIN + y * ROTATION_COS == -(x * ROTATION_COS));
        assert(x * ROTATION_COS + y * ROTATION_SIN == x * ROTATION_COS);
        assert(x * ROTATION_COS - y * ROTATION_SIN == x * ROTATION_COS);
        assert(x * ROTATION_SIN + y * ROTATION_COS == x * ROTATION_COS);
    }
    if raw_x == cal.center_x {
        assert(x == 0);
        assert(x * ROTATION_COS + y * ROTATION_SIN == y * ROTATION_COS);
        assert(-x * ROTATION_SIN + y * ROTATION_COS == y * ROTATION_COS);
        assert(x * ROTATION_COS - y * ROTATION_SIN == -(y * ROTATION_COS));
        assert(x * ROTATION_SIN + y * ROTATION_COS == y * ROTATION_COS);
    }
}

} // verus!
