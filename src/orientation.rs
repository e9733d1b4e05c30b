use vstd::prelude::*;

use crate::region::{direction_of, is_corner, is_edge, is_face, CubeRegion, Direction};

verus! {

/// A target camera orientation. Both angles count eighths of a full turn
/// (pi/4 radians each): `yaw` turns about the vertical axis, from the front
/// towards the right; `pitch` tilts up from the horizon.
#[derive(Clone, Copy, Debug, PartialEq, Eq, Structural)]
pub struct Orientation {
    pub yaw: i8,
    pub pitch: i8,
}

/// The heading, in eighths of a turn, of the horizontal part `(x, z)` of a
/// direction, measured from the front (+z) towards the right (+x), in the
/// range (-4, 4]. A vertical direction has heading 0.
pub open spec fn heading(x: i8, z: i8) -> int {
    if x == 0 {
        if z >= 0 { 0 } else { 4 }
    } else if x > 0 {
        if z > 0 { 1 } else if z == 0 { 2 } else { 3 }
    } else {
        if z > 0 { -1 } else if z == 0 { -2 } else { -3 }
    }
}

/// The elevation, in eighths of a turn, of a direction: a quarter turn
/// straight up or down, an eighth for a direction that is also horizontal.
pub open spec fn elevation(d: Direction) -> int {
    if d.x == 0 && d.z == 0 {
        2 * (d.y as int)
    } else {
        d.y as int
    }
}

/// The yaw that looks at the cube along a region's outward direction.
pub open spec fn yaw_of(r: CubeRegion) -> int {
    heading(direction_of(r).x, direction_of(r).z)
}

/// The pitch that looks at the cube along a region's outward direction.
pub open spec fn pitch_of(r: CubeRegion) -> int {
    elevation(direction_of(r))
}

/// The orientation that looks at the cube along a region's outward direction.
pub open spec fn orientation_of(r: CubeRegion) -> Orientation {
    Orientation { yaw: yaw_of(r) as i8, pitch: pitch_of(r) as i8 }
}

/// Whether an angle is one of 0, ±pi/4, ±pi/2, ±3pi/4 and pi.
pub open spec fn is_canonical_angle(a: int) -> bool {
    -3 <= a <= 4
}

/// The target orientation for a clicked region. The table is total: every
/// region has its own entry.
pub fn lookup(region: CubeRegion) -> (o: Orientation)
    ensures
        o == orientation_of(region),
        o.yaw == yaw_of(region),
        o.pitch == pitch_of(region),
        is_canonical_angle(o.yaw as int),
        is_canonical_angle(o.pitch as int),
        -2 <= o.pitch <= 2,
{
    let (yaw, pitch): (i8, i8) = match region {
        CubeRegion::Right => (2, 0),
        CubeRegion::Left => (-2, 0),
        CubeRegion::Top => (0, 2),
        CubeRegion::Bottom => (0, -2),
        CubeRegion::Front => (0, 0),
        CubeRegion::Back => (4, 0),
        CubeRegion::FrontTop => (0, 1),
        CubeRegion::FrontBottom => (0, -1),
        CubeRegion::BackTop => (4, 1),
        CubeRegion::BackBottom => (4, -1),
        CubeRegion::LeftTop => (-2, 1),
        CubeRegion::LeftBottom => (-2, -1),
        CubeRegion::RightTop => (2, 1),
        CubeRegion::RightBottom => (2, -1),
        CubeRegion::FrontLeft => (-1, 0),
        CubeRegion::FrontRight => (1, 0),
        CubeRegion::BackLeft => (-3, 0),
        CubeRegion::BackRight => (3, 0),
        CubeRegion::FrontLeftTop => (-1, 1),
        CubeRegion::FrontLeftBottom => (-1, -1),
        CubeRegion::FrontRightTop => (1, 1),
        CubeRegion::FrontRightBottom => (1, -1),
        CubeRegion::BackLeftTop => (-3, 1),
        CubeRegion::BackLeftBottom => (-3, -1),
        CubeRegion::BackRightTop => (3, 1),
        CubeRegion::BackRightBottom => (3, -1),
    };
    Orientation { yaw, pitch }
}

/// Every table entry is made of the angles 0, ±pi/4, ±pi/2, ±3pi/4 and pi.
/// Within a class the magnitudes follow the class: faces look straight along
/// an axis (a multiple of a quarter turn on both angles), edges and corners
/// off the horizon tilt by exactly an eighth, and corners sit on a diagonal
/// heading (an odd number of eighths).
pub proof fn lemma_table_angles(r: CubeRegion)
    ensures
        is_canonical_angle(yaw_of(r)),
        is_canonical_angle(pitch_of(r)),
        is_face(r) ==> yaw_of(r) % 2 == 0 && pitch_of(r) % 2 == 0,
        (is_edge(r) || is_corner(r)) && direction_of(r).y != 0 ==> (pitch_of(r) == 1
            || pitch_of(r) == -1),
        is_corner(r) ==> yaw_of(r) % 2 != 0,
{
}

/// Regions that mirror each other left to right have the same pitch and
/// opposite yaws, for every region off the vertical mid-plane (on that plane
/// the region is its own mirror).
pub proof fn lemma_left_right_mirror(a: CubeRegion, b: CubeRegion)
    requires
        direction_of(b).x == -direction_of(a).x,
        direction_of(b).y == direction_of(a).y,
        direction_of(b).z == direction_of(a).z,
        direction_of(a).x != 0,
    ensures
        yaw_of(b) == -yaw_of(a),
        pitch_of(b) == pitch_of(a),
{
}

/// Regions that mirror each other top to bottom have the same yaw and
/// opposite pitches.
pub proof fn lemma_top_bottom_mirror(a: CubeRegion, b: CubeRegion)
    requires
        direction_of(b).x == direction_of(a).x,
        direction_of(b).y == -direction_of(a).y,
        direction_of(b).z == direction_of(a).z,
    ensures
        yaw_of(b) == yaw_of(a),
        pitch_of(b) == -pitch_of(a),
{
}

} // verus!
