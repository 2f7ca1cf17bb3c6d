//! The steering law: from the tracked box and the screen geometry to the
//! throttle and yaw of an actuation command, behind a safety gate.

use vstd::prelude::*;
use crate::geometry::{Rect, ScreenGeometry};

verus! {

/// The state the vehicle reports itself to be in.
#[derive(Clone, Copy, Debug, PartialEq, Eq, Structural)]
pub enum DroneMode {
    Grounded,
    TakingOff,
    /// Airborne and ready to take steering input.
    TookOff,
    Landing,
}

/// One actuation command. Pitch, roll and mode belong to the flight control
/// that hands the command in; the steering law writes throttle and yaw only.
#[derive(Clone, Copy, Debug, PartialEq, Eq, Structural)]
pub struct Command {
    pub throttle: i8,
    pub yaw: i8,
    pub pitch: i8,
    pub roll: i8,
    pub mode: DroneMode,
}

/// Pitch that the flight control sets when no manual input is present.
pub const DEFAULT_PITCH: i8 = 9;

/// Roll that the flight control sets when no manual input is present.
pub const DEFAULT_ROLL: i8 = 18;

/// Actuation value commanded for a normalized error of one, that is for a
/// target half a screen off the center.
pub const STEERING_GAIN: i64 = 90;

/// All four axes are where the flight control leaves them without manual
/// input.
pub open spec fn is_neutral(command: Command) -> bool {
    &&& command.throttle == 0
    &&& command.yaw == 0
    &&& (command.pitch == 0 || command.pitch == DEFAULT_PITCH)
    &&& (command.roll == 0 || command.roll == DEFAULT_ROLL)
}

/// The safety gate: the steering law may write the command only when the
/// screen geometry has been captured (a screen without pixels counts as not
/// captured), the vehicle is airborne, and no manual input has moved the
/// command.
pub open spec fn gate_open(screen: Option<ScreenGeometry>, command: Command) -> bool {
    &&& screen matches Some(s) && s.wf()
    &&& command.mode == DroneMode::TookOff
    &&& is_neutral(command)
}

/// Horizontal offset of the screen center from the box center, in half
/// pixels: twice `width/2 - (x + box_width/2)`, so that odd extents lose
/// nothing.
pub open spec fn error_x(screen: ScreenGeometry, target: Rect) -> int {
    screen.width - (2 * target.x + target.width)
}

/// Vertical offset of the screen center from the box center, in half pixels.
pub open spec fn error_y(screen: ScreenGeometry, target: Rect) -> int {
    screen.height - (2 * target.y + target.height)
}

/// The error `err` (in half pixels) over the screen extent `extent` (in
/// pixels) is the normalized error; this says that it lies in `[-1, 1]`.
pub open spec fn normalized_within_unit(err: int, extent: int) -> bool {
    -extent <= err <= extent
}

/// The integer nearest to `n / d`, halves rounded away from zero.
pub open spec fn round_ratio(n: int, d: int) -> int
    recommends
        d > 0,
{
    if n >= 0 {
        (2 * n + d) / (2 * d)
    } else {
        -((2 * (-n) + d) / (2 * d))
    }
}

/// `v` limited to what a signed byte holds.
pub open spec fn clamp_i8(v: int) -> int {
    if v > 127 {
        127
    } else if v < -128 {
        -128
    } else {
        v
    }
}

/// The actuation value for an error of `err` half pixels on a screen extent
/// of `extent` pixels: the gain times the normalized error, rounded, clamped.
pub open spec fn actuation(err: int, extent: int) -> int {
    clamp_i8(round_ratio(STEERING_GAIN * err, extent))
}

/// The command after the steering law has seen it.
pub open spec fn steered(
    screen: Option<ScreenGeometry>,
    target: Rect,
    command: Command,
) -> Command {
    if gate_open(screen, command) {
        let s = screen.unwrap();
        Command {
            throttle: actuation(error_y(s, target), s.height as int) as i8,
            yaw: actuation(error_x(s, target), s.width as int) as i8,
            pitch: command.pitch,
            roll: command.roll,
            mode: command.mode,
        }
    } else {
        command
    }
}

/// The scale signal: how much the box has grown in area since the lock.
pub open spec fn scale_error_of(current: Rect, initial: Rect) -> int {
    current.area() - initial.area()
}

/// `round_ratio` is a nearest integer: it is off from the ratio by at most
/// one half, it has the sign of the ratio, and it is odd in the numerator.
pub proof fn lemma_round_ratio_nearest(n: int, d: int)
    requires
        d > 0,
    ensures
        -d <= 2 * n - 2 * d * round_ratio(n, d) <= d,
        n >= 0 ==> round_ratio(n, d) >= 0,
        n <= 0 ==> round_ratio(n, d) <= 0,
        round_ratio(-n, d) == -round_ratio(n, d),
{
    let m = if n >= 0 { n } else { -n };
    let q = (2 * m + d) / (2 * d);
    assert(0 <= (2 * m + d) - (2 * d) * q < 2 * d && q >= 0) by (nonlinear_arith)
        requires
            d > 0,
            m >= 0,
            q == (2 * m + d) / (2 * d),
    ;
    assert(2 * d * q == (2 * d) * q) by (nonlinear_arith);
    assert(2 * d * (-q) == -((2 * d) * q)) by (nonlinear_arith);
    if n == 0 {
        assert(q == 0) by (nonlinear_arith)
            requires
                d > 0,
                0 <= d - (2 * d) * q < 2 * d,
                q >= 0,
        ;
    }
}

/// An exact multiple is rounded to its quotient.
pub proof fn lemma_round_ratio_exact(k: int, d: int)
    requires
        d > 0,
    ensures
        round_ratio(k * d, d) == k,
{
    lemma_round_ratio_nearest(k * d, d);
    let r = round_ratio(k * d, d);
    assert(r == k) by (nonlinear_arith)
        requires
            d > 0,
            -d <= 2 * (k * d) - 2 * d * r <= d,
    ;
}

/// Rounding keeps a ratio within the integer bounds that hold it.
pub proof fn lemma_round_ratio_bounded(n: int, d: int, bound: int)
    requires
        d > 0,
        bound >= 0,
        -bound * d <= n <= bound * d,
    ensures
        -bound <= round_ratio(n, d) <= bound,
{
    lemma_round_ratio_nearest(n, d);
    let r = round_ratio(n, d);
    assert(-bound <= r <= bound) by (nonlinear_arith)
        requires
            d > 0,
            bound >= 0,
            -bound * d <= n <= bound * d,
            -d <= 2 * n - 2 * d * r <= d,
    ;
}

/// For a box that lies fully within the screen, both normalized errors lie
/// in `[-1, 1]`, and neither actuation value leaves `[-90, 90]`: the clamp is
/// idle.
pub proof fn lemma_normalized_error_within_unit(screen: ScreenGeometry, target: Rect)
    requires
        screen.wf(),
        target.within(&screen),
    ensures
        normalized_within_unit(error_x(screen, target), screen.width as int),
        normalized_within_unit(error_y(screen, target), screen.height as int),
        -STEERING_GAIN <= actuation(error_x(screen, target), screen.width as int) <= STEERING_GAIN,
        -STEERING_GAIN <= actuation(error_y(screen, target), screen.height as int)
            <= STEERING_GAIN,
        actuation(error_x(screen, target), screen.width as int) == round_ratio(
            STEERING_GAIN * error_x(screen, target),
            screen.width as int,
        ),
        actuation(error_y(screen, target), screen.height as int) == round_ratio(
            STEERING_GAIN * error_y(screen, target),
            screen.height as int,
        ),
{
    let ex = error_x(screen, target);
    let ey = error_y(screen, target);
    lemma_round_ratio_bounded(STEERING_GAIN * ex, screen.width as int, STEERING_GAIN as int);
    lemma_round_ratio_bounded(STEERING_GAIN * ey, screen.height as int, STEERING_GAIN as int);
}

/// A box centered on the screen commands no steering at all.
pub proof fn lemma_centered_target_commands_nothing(screen: ScreenGeometry, target: Rect)
    requires
        screen.wf(),
        error_x(screen, target) == 0,
        error_y(screen, target) == 0,
    ensures
        actuation(error_x(screen, target), screen.width as int) == 0,
        actuation(error_y(screen, target), screen.height as int) == 0,
{
    lemma_round_ratio_exact(0, screen.width as int);
    lemma_round_ratio_exact(0, screen.height as int);
}

/// The steering law leaves a command alone unless the vehicle is airborne,
/// the command neutral and the screen known, and it never writes pitch, roll
/// or mode.
pub proof fn lemma_gate_protects_command(
    screen: Option<ScreenGeometry>,
    target: Rect,
    command: Command,
)
    ensures
        command.mode != DroneMode::TookOff ==> steered(screen, target, command) == command,
        !is_neutral(command) ==> steered(screen, target, command) == command,
        screen.is_none() ==> steered(screen, target, command) == command,
        (screen matches Some(s) && !s.wf()) ==> steered(screen, target, command) == command,
        steered(screen, target, command).pitch == command.pitch,
        steered(screen, target, command).roll == command.roll,
        steered(screen, target, command).mode == command.mode,
{
}

/// The steering error of a box, in half pixels.
#[derive(Clone, Copy, Debug, PartialEq, Eq, Structural)]
pub struct SteeringError {
    pub x: i64,
    pub y: i64,
}

/// Measures how far the box center is from the screen center.
pub fn steering_error(screen: &ScreenGeometry, target: &Rect) -> (err: SteeringError)
    ensures
        err.x == error_x(*screen, *target),
        err.y == error_y(*screen, *target),
{
    let x: i64 = screen.width as i64 - (2 * (target.x as i64) + target.width as i64);
    let y: i64 = screen.height as i64 - (2 * (target.y as i64) + target.height as i64);
    SteeringError { x, y }
}

/// Rounds `n / d` in wide arithmetic.
fn rounded_ratio_wide(n: i128, d: i128) -> (r: i128)
    requires
        0 < d <= 0x7fff_ffff_ffff_ffff,
        -0x40_0000_0000_0000_0000 <= n <= 0x40_0000_0000_0000_0000,
    ensures
        r == round_ratio(n as int, d as int),
        n >= 0 ==> 0 <= r <= n,
        n <= 0 ==> n <= r <= 0,
{
    let m: i128 = if n >= 0 {
        n
    } else {
        -n
    };
    let q: i128 = (2 * m + d) / (2 * d);
    assert(0 <= q <= m) by (nonlinear_arith)
        requires
            d > 0,
            m >= 0,
            q == (2 * m + d) / (2 * d),
    ;
    if n >= 0 {
        q
    } else {
        -q
    }
}

/// Rounds `n / d` to the nearest integer, halves away from zero.
pub fn rounded_ratio(n: i64, d: i64) -> (r: i64)
    requires
        d > 0,
    ensures
        r == round_ratio(n as int, d as int),
{
    let r: i128 = rounded_ratio_wide(n as i128, d as i128);
    r as i64
}

/// The actuation value for one axis: the gain times the error over the
/// extent, rounded to the nearest integer and clamped to a signed byte.
pub fn axis_actuation(err: i64, extent: u32) -> (value: i8)
    requires
        extent > 0,
    ensures
        value == actuation(err as int, extent as int),
{
    let gain: i128 = STEERING_GAIN as i128;
    let wide: i128 = err as i128;
    assert(-0x40_0000_0000_0000_0000 <= gain * wide <= 0x40_0000_0000_0000_0000) by (
        nonlinear_arith)
        requires
            gain == 90,
            -0x8000_0000_0000_0000 <= wide <= 0x7fff_ffff_ffff_ffff,
    ;
    let scaled: i128 = gain * wide;
    let r: i128 = rounded_ratio_wide(scaled, extent as i128);
    if r > 127 {
        127
    } else if r < -128 {
        -128
    } else {
        r as i8
    }
}

/// Whether all four axes are at their neutral defaults.
pub fn command_is_neutral(command: &Command) -> (b: bool)
    ensures
        b == is_neutral(*command),
{
    command.throttle == 0 && command.yaw == 0 && (command.pitch == 0 || command.pitch
        == DEFAULT_PITCH) && (command.roll == 0 || command.roll == DEFAULT_ROLL)
}

/// Steers towards the tracked box: sets throttle from the vertical and yaw
/// from the horizontal error. The command is left exactly as it was unless
/// the screen geometry is known, the vehicle is airborne and the command is
/// neutral.
pub fn command_callback(command: &mut Command, screen: Option<ScreenGeometry>, target: &Rect)
    ensures
        *final(command) == steered(screen, *target, *old(command)),
        !gate_open(screen, *old(command)) ==> *final(command) == *old(command),
        final(command).pitch == old(command).pitch,
        final(command).roll == old(command).roll,
        final(command).mode == old(command).mode,
{
    match screen {
        None => {},
        Some(s) => {
            if s.width > 0 && s.height > 0 && command.mode == DroneMode::TookOff
                && command_is_neutral(command) {
                let err = steering_error(&s, target);
                command.throttle = axis_actuation(err.y, s.height);
                command.yaw = axis_actuation(err.x, s.width);
            }
        },
    }
}

/// The flight control's stand-in when nothing steers: puts pitch and roll at
/// their neutral defaults and leaves the rest alone.
pub fn command_callback_empty(command: &mut Command)
    ensures
        final(command).roll == DEFAULT_ROLL,
        final(command).pitch == DEFAULT_PITCH,
        final(command).throttle == old(command).throttle,
        final(command).yaw == old(command).yaw,
        final(command).mode == old(command).mode,
{
    command.roll = DEFAULT_ROLL;
    command.pitch = DEFAULT_PITCH;
}

/// The scale signal: the area of the current box less that of the box first
/// locked on. Positive when the target has come closer.
pub fn scale_error(current: &Rect, initial: &Rect) -> (signal: i64)
    ensures
        signal == scale_error_of(*current, *initial),
{
    current.pixel_area() - initial.pixel_area()
}

} // verus!
