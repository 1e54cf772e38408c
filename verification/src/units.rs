//! The units in which the game measures time and distance.

use vstd::prelude::*;

verus! {

/// One second, in the microseconds in which every timer counts.
pub const SECOND: u64 = 1_000_000;

/// One pixel, in the millionths of a pixel in which every coordinate counts.
pub const PIXEL: i64 = 1_000_000;

/// The distance covered at `speed` pixels per second in `elapsed`
/// microseconds, in millionths of a pixel.
pub open spec fn distance(speed: int, elapsed: int) -> int {
    speed * elapsed
}

/// A coordinate moved by `delta` in the growing direction, held at the
/// largest coordinate once it would pass it.
pub open spec fn advanced(coordinate: i64, delta: int) -> i64 {
    if coordinate + delta > i64::MAX {
        i64::MAX
    } else {
        (coordinate + delta) as i64
    }
}

/// The time left on a countdown after `elapsed` more microseconds: never
/// below zero, where it has run out.
pub open spec fn remaining(left: int, elapsed: int) -> int {
    if left >= elapsed {
        left - elapsed
    } else {
        0
    }
}

/// Moves `coordinate` by `delta`, stopping at the largest coordinate.
pub fn advance(coordinate: i64, delta: u64) -> (moved: i64)
    ensures
        moved == advanced(coordinate, delta as int),
{
    let sum: i128 = coordinate as i128 + delta as i128;
    if sum > i64::MAX as i128 {
        i64::MAX
    } else {
        sum as i64
    }
}

/// The distance covered at `speed` pixels per second in `elapsed`
/// microseconds, cut off at the largest `u64`. Moving a coordinate by the
/// result is the same as moving it by the exact distance.
pub fn travel(speed: u32, elapsed: u64) -> (delta: u64)
    ensures
        delta == if distance(speed as int, elapsed as int) > u64::MAX {
            u64::MAX as int
        } else {
            distance(speed as int, elapsed as int)
        },
        forall|coordinate: i64|
            advanced(coordinate, delta as int) == #[trigger] advanced(
                coordinate,
                distance(speed as int, elapsed as int),
            ),
{
    assert(0 <= speed as int * elapsed as int <= u32::MAX as int * u64::MAX as int)
        by (nonlinear_arith);
    let exact: u128 = speed as u128 * elapsed as u128;
    if exact > u64::MAX as u128 {
        u64::MAX
    } else {
        exact as u64
    }
}

} // verus!
