//! The orientation updater: each frame the pivot turns about the vertical
//! axis by its angular speed times the time that has elapsed.
//!
//! Angles are kept exact. A speed is counted in microradians per second and a
//! time in nanoseconds, so one frame's turn is their product, in units of
//! `10^-15` radian. The pivot's orientation is its starting orientation
//! composed after a rotation about Y by the whole turn so far: turns about
//! one axis compose by adding their angles.
use vstd::prelude::*;

verus! {

/// Units of turn in one radian (one unit is `10^-15` radian).
pub const TURN_UNITS_PER_RADIAN: i128 = 1_000_000_000_000_000;

/// Microradians in one radian: the unit of an angular speed.
pub const MICRORADIANS_PER_RADIAN: i64 = 1_000_000;

/// Nanoseconds in one second: the unit of a frame's elapsed time.
pub const NANOS_PER_SECOND: i64 = 1_000_000_000;

/// Angular speed of the pivot, in microradians per second.
#[derive(Clone, Copy, Debug, PartialEq, Eq, Structural)]
pub struct RotatorSpeed(pub i64);

impl Default for RotatorSpeed {
    /// One radian per second.
    fn default() -> (r: Self)
        ensures
            r.0 == MICRORADIANS_PER_RADIAN,
    {
        RotatorSpeed(MICRORADIANS_PER_RADIAN)
    }
}

/// The pivot that all points of the cube hang from. Its orientation is its
/// starting orientation turned about Y by `turn` units.
#[derive(Clone, Copy, Debug, PartialEq, Eq, Structural)]
pub struct Pivot {
    pub turn: i128,
}

/// The turn of one frame: speed times elapsed time, and none for a time that
/// is not positive.
pub open spec fn frame_turn(speed: int, dt_nanos: int) -> int {
    if dt_nanos <= 0 {
        0
    } else {
        speed * dt_nanos
    }
}

/// The turn after one frame, from the turn before it.
pub open spec fn turned(turn: int, speed: int, dt_nanos: int) -> int {
    turn + frame_turn(speed, dt_nanos)
}

/// The turn after a run of frames, one elapsed time each, in order.
pub open spec fn turned_frames(turn: int, speed: int, dts: Seq<int>) -> int
    decreases dts.len(),
{
    if dts.len() == 0 {
        turn
    } else {
        turned_frames(turned(turn, speed, dts[0]), speed, dts.drop_first())
    }
}

/// Sum of a run of elapsed times.
pub open spec fn total_time(dts: Seq<int>) -> int
    decreases dts.len(),
{
    if dts.len() == 0 {
        0
    } else {
        dts[0] + total_time(dts.drop_first())
    }
}

impl Pivot {
    /// A pivot in its starting orientation.
    pub fn new() -> (p: Pivot)
        ensures
            p.turn == 0,
    {
        Pivot { turn: 0 }
    }
}

/// Turns the pivot about Y by `speed` for `dt_nanos` nanoseconds, after the
/// turn it already has; a time that is not positive turns it not at all.
pub fn rotate_rgb_cube(pivot: &mut Pivot, speed: &RotatorSpeed, dt_nanos: i64)
    requires
        i128::MIN <= turned(old(pivot).turn as int, speed.0 as int, dt_nanos as int) <= i128::MAX,
    ensures
        final(pivot).turn as int == turned(old(pivot).turn as int, speed.0 as int, dt_nanos as int),
        dt_nanos <= 0 ==> *final(pivot) == *old(pivot),
{
    if dt_nanos > 0 {
        let a: i128 = speed.0 as i128;
        let b: i128 = dt_nanos as i128;
        assert(i128::MIN <= a * b <= i128::MAX) by (nonlinear_arith)
            requires
                i64::MIN <= a <= i64::MAX,
                0 < b <= i64::MAX,
        ;
        let step: i128 = a * b;
        pivot.turn = pivot.turn + step;
    }
}

/// Turns across frames add up: after frames of non-negative elapsed times the
/// pivot has turned by its speed times their total, whatever their number and
/// however the time is split between them.
pub proof fn lemma_turns_add_up(turn: int, speed: int, dts: Seq<int>)
    requires
        forall|i: int| 0 <= i < dts.len() ==> dts[i] >= 0,
    ensures
        turned_frames(turn, speed, dts) == turn + speed * total_time(dts),
    decreases dts.len(),
{
    if dts.len() > 0 {
        let rest = dts.drop_first();
        assert forall|i: int| 0 <= i < rest.len() implies rest[i] >= 0 by {
            assert(rest[i] == dts[i + 1]);
        }
        lemma_turns_add_up(turned(turn, speed, dts[0]), speed, rest);
        assert(speed * dts[0] + speed * total_time(rest) == speed * (dts[0] + total_time(rest)))
            by (nonlinear_arith);
    }
}

/// A frame in which no time has elapsed leaves the orientation as it was.
pub proof fn lemma_idle_frame(turn: int, speed: int)
    ensures
        turned(turn, speed, 0) == turn,
{
}

} // verus!
