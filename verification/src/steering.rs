use vstd::prelude::*;

verus! {

/// Which way the line-following loop should drive next.
#[derive(Clone, Copy, PartialEq, Eq, Structural, Debug)]
pub enum Steer {
    Left,
    Right,
    Ahead,
}

/// Combined level of the two left-hand line sensors.
pub open spec fn left_level(readings: Seq<u16>) -> int {
    readings[0] + readings[1]
}

/// Combined level of the two centre line sensors.
pub open spec fn center_level(readings: Seq<u16>) -> int {
    readings[2] + readings[3]
}

/// Combined level of the two right-hand line sensors.
pub open spec fn right_level(readings: Seq<u16>) -> int {
    readings[4] + readings[5]
}

/// The steering decision for six line-sensor readings (left pair, centre
/// pair, right pair): turn toward the strongest side, or drive ahead when
/// the centre is not outweighed.
pub fn steer(readings: &[u16; 6]) -> (r: Steer)
    ensures
        (r is Left) <==> (left_level(readings@) > center_level(readings@) && left_level(readings@)
            > right_level(readings@)),
        (r is Right) <==> (!(left_level(readings@) > center_level(readings@) && left_level(
            readings@,
        ) > right_level(readings@)) && right_level(readings@) > center_level(readings@)),
        (r is Ahead) <==> (!(left_level(readings@) > center_level(readings@) && left_level(
            readings@,
        ) > right_level(readings@)) && !(right_level(readings@) > center_level(readings@))),
{
    let left: u32 = readings[0] as u32 + readings[1] as u32;
    let center: u32 = readings[2] as u32 + readings[3] as u32;
    let right: u32 = readings[4] as u32 + readings[5] as u32;

    if left > center && left > right {
        Steer::Left
    } else if right > center {
        Steer::Right
    } else {
        Steer::Ahead
    }
}

} // verus!
