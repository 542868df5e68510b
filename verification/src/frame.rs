use vstd::prelude::*;

verus! {

/// A tracked 3-D position, in thousandths of a millimetre. Only the height
/// coordinate `y` (increasing upward, per the device's convention) takes
/// part in banding; `x` and `z` are carried for completeness.
#[derive(Clone, Copy, PartialEq, Eq, Structural)]
pub struct Point3 {
    pub x: i64,
    pub y: i64,
    pub z: i64,
}

/// One tracked hand: its palm position, then the digit joint positions in
/// the order the tracker reports them.
pub struct Hand {
    pub palm: Point3,
    pub digit_joints: Vec<Point3>,
}

/// One sampled instant of tracking data: zero or more hands.
pub struct Frame {
    pub hands: Vec<Hand>,
}

/// The points of a hand that banding examines, in priority order: the palm
/// always comes first, and the digit joints follow only when
/// `check_fingers` is on.
pub open spec fn tested_points(h: Hand, check_fingers: bool) -> Seq<Point3> {
    if check_fingers {
        seq![h.palm] + h.digit_joints@
    } else {
        seq![h.palm]
    }
}

} // verus!
