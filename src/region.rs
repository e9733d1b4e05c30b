use vstd::prelude::*;

verus! {

/// One of the 26 clickable zones of the view cube: 6 faces, 12 edges, 8 corners.
///
/// Axes: x points right, y points up, z points to the front.
#[derive(Clone, Copy, Debug, PartialEq, Eq, Structural)]
pub enum CubeRegion {
    // Faces
    Front,
    Back,
    Left,
    Right,
    Top,
    Bottom,
    // Edges
    FrontTop,
    FrontBottom,
    BackTop,
    BackBottom,
    LeftTop,
    LeftBottom,
    RightTop,
    RightBottom,
    FrontLeft,
    FrontRight,
    BackLeft,
    BackRight,
    // Corners
    FrontLeftTop,
    FrontLeftBottom,
    FrontRightTop,
    FrontRightBottom,
    BackLeftTop,
    BackLeftBottom,
    BackRightTop,
    BackRightBottom,
}

/// The outward direction of a region: one sign (-1, 0 or 1) per axis.
#[derive(Clone, Copy, Debug, PartialEq, Eq, Structural)]
pub struct Direction {
    pub x: i8,
    pub y: i8,
    pub z: i8,
}

/// Number of regions on the cube.
pub const REGION_COUNT: usize = 26;

/// Number of face regions on the cube.
pub const FACE_COUNT: usize = 6;

/// The outward direction of each region, as the sum of the unit normals of
/// the faces that it touches.
pub open spec fn direction_of(r: CubeRegion) -> Direction {
    let (x, y, z): (int, int, int) = match r {
        CubeRegion::Front => (0, 0, 1),
        CubeRegion::Back => (0, 0, -1),
        CubeRegion::Left => (-1, 0, 0),
        CubeRegion::Right => (1, 0, 0),
        CubeRegion::Top => (0, 1, 0),
        CubeRegion::Bottom => (0, -1, 0),
        CubeRegion::FrontTop => (0, 1, 1),
        CubeRegion::FrontBottom => (0, -1, 1),
        CubeRegion::BackTop => (0, 1, -1),
        CubeRegion::BackBottom => (0, -1, -1),
        CubeRegion::LeftTop => (-1, 1, 0),
        CubeRegion::LeftBottom => (-1, -1, 0),
        CubeRegion::RightTop => (1, 1, 0),
        CubeRegion::RightBottom => (1, -1, 0),
        CubeRegion::FrontLeft => (-1, 0, 1),
        CubeRegion::FrontRight => (1, 0, 1),
        CubeRegion::BackLeft => (-1, 0, -1),
        CubeRegion::BackRight => (1, 0, -1),
        CubeRegion::FrontLeftTop => (-1, 1, 1),
        CubeRegion::FrontLeftBottom => (-1, -1, 1),
        CubeRegion::FrontRightTop => (1, 1, 1),
        CubeRegion::FrontRightBottom => (1, -1, 1),
        CubeRegion::BackLeftTop => (-1, 1, -1),
        CubeRegion::BackLeftBottom => (-1, -1, -1),
        CubeRegion::BackRightTop => (1, 1, -1),
        CubeRegion::BackRightBottom => (1, -1, -1),
    };
    Direction { x: x as i8, y: y as i8, z: z as i8 }
}

/// How many axes a direction leaves: 1 for a face, 2 for an edge, 3 for a corner.
pub open spec fn axes_touched(d: Direction) -> int {
    (if d.x != 0 { 1int } else { 0int }) + (if d.y != 0 { 1int } else { 0int }) + (if d.z != 0 {
        1int
    } else {
        0int
    })
}

/// A face region touches one axis.
pub open spec fn is_face(r: CubeRegion) -> bool {
    axes_touched(direction_of(r)) == 1
}

/// An edge region touches two axes.
pub open spec fn is_edge(r: CubeRegion) -> bool {
    axes_touched(direction_of(r)) == 2
}

/// A corner region touches all three axes.
pub open spec fn is_corner(r: CubeRegion) -> bool {
    axes_touched(direction_of(r)) == 3
}

/// The position of each region in the canonical listing: faces first, then
/// edges, then corners, in declaration order.
pub open spec fn index_of(r: CubeRegion) -> nat {
    match r {
        CubeRegion::Front => 0,
        CubeRegion::Back => 1,
        CubeRegion::Left => 2,
        CubeRegion::Right => 3,
        CubeRegion::Top => 4,
        CubeRegion::Bottom => 5,
        CubeRegion::FrontTop => 6,
        CubeRegion::FrontBottom => 7,
        CubeRegion::BackTop => 8,
        CubeRegion::BackBottom => 9,
        CubeRegion::LeftTop => 10,
        CubeRegion::LeftBottom => 11,
        CubeRegion::RightTop => 12,
        CubeRegion::RightBottom => 13,
        CubeRegion::FrontLeft => 14,
        CubeRegion::FrontRight => 15,
        CubeRegion::BackLeft => 16,
        CubeRegion::BackRight => 17,
        CubeRegion::FrontLeftTop => 18,
        CubeRegion::FrontLeftBottom => 19,
        CubeRegion::FrontRightTop => 20,
        CubeRegion::FrontRightBottom => 21,
        CubeRegion::BackLeftTop => 22,
        CubeRegion::BackLeftBottom => 23,
        CubeRegion::BackRightTop => 24,
        CubeRegion::BackRightBottom => 25,
    }
}

/// The region at a position of the canonical listing.
pub open spec fn region_at(i: nat) -> CubeRegion
    recommends
        i < REGION_COUNT,
{
    if i == 0 {
        CubeRegion::Front
    } else if i == 1 {
        CubeRegion::Back
    } else if i == 2 {
        CubeRegion::Left
    } else if i == 3 {
        CubeRegion::Right
    } else if i == 4 {
        CubeRegion::Top
    } else if i == 5 {
        CubeRegion::Bottom
    } else if i == 6 {
        CubeRegion::FrontTop
    } else if i == 7 {
        CubeRegion::FrontBottom
    } else if i == 8 {
        CubeRegion::BackTop
    } else if i == 9 {
        CubeRegion::BackBottom
    } else if i == 10 {
        CubeRegion::LeftTop
    } else if i == 11 {
        CubeRegion::LeftBottom
    } else if i == 12 {
        CubeRegion::RightTop
    } else if i == 13 {
        CubeRegion::RightBottom
    } else if i == 14 {
        CubeRegion::FrontLeft
    } else if i == 15 {
        CubeRegion::FrontRight
    } else if i == 16 {
        CubeRegion::BackLeft
    } else if i == 17 {
        CubeRegion::BackRight
    } else if i == 18 {
        CubeRegion::FrontLeftTop
    } else if i == 19 {
        CubeRegion::FrontLeftBottom
    } else if i == 20 {
        CubeRegion::FrontRightTop
    } else if i == 21 {
        CubeRegion::FrontRightBottom
    } else if i == 22 {
        CubeRegion::BackLeftTop
    } else if i == 23 {
        CubeRegion::BackLeftBottom
    } else if i == 24 {
        CubeRegion::BackRightTop
    } else {
        CubeRegion::BackRightBottom
    }
}

/// The canonical listing puts every region at exactly one position, the six
/// faces first; and each region is a face, an edge or a corner, by the number
/// of axes that its direction leaves.
pub proof fn lemma_listing_is_a_bijection()
    ensures
        forall|r: CubeRegion| #[trigger] index_of(r) < REGION_COUNT && region_at(index_of(r)) == r,
        forall|i: nat| i < REGION_COUNT ==> #[trigger] index_of(region_at(i)) == i,
        forall|r: CubeRegion| #[trigger] is_face(r) <==> index_of(r) < FACE_COUNT,
        forall|r: CubeRegion|
            #![trigger direction_of(r)]
            (is_face(r) || is_edge(r) || is_corner(r)),
{
}

impl CubeRegion {
    /// The region's position in the canonical listing.
    pub fn index(self) -> (r: usize)
        ensures
            r == index_of(self),
            r < REGION_COUNT,
    {
        match self {
            CubeRegion::Front => 0,
            CubeRegion::Back => 1,
            CubeRegion::Left => 2,
            CubeRegion::Right => 3,
            CubeRegion::Top => 4,
            CubeRegion::Bottom => 5,
            CubeRegion::FrontTop => 6,
            CubeRegion::FrontBottom => 7,
            CubeRegion::BackTop => 8,
            CubeRegion::BackBottom => 9,
            CubeRegion::LeftTop => 10,
            CubeRegion::LeftBottom => 11,
            CubeRegion::RightTop => 12,
            CubeRegion::RightBottom => 13,
            CubeRegion::FrontLeft => 14,
            CubeRegion::FrontRight => 15,
            CubeRegion::BackLeft => 16,
            CubeRegion::BackRight => 17,
            CubeRegion::FrontLeftTop => 18,
            CubeRegion::FrontLeftBottom => 19,
            CubeRegion::FrontRightTop => 20,
            CubeRegion::FrontRightBottom => 21,
            CubeRegion::BackLeftTop => 22,
            CubeRegion::BackLeftBottom => 23,
            CubeRegion::BackRightTop => 24,
            CubeRegion::BackRightBottom => 25,
        }
    }

    /// The region at position `i` of the canonical listing.
    pub fn from_index(i: usize) -> (r: CubeRegion)
        requires
            i < REGION_COUNT,
        ensures
            r == region_at(i as nat),
            index_of(r) == i,
    {
        if i == 0 {
            CubeRegion::Front
        } else if i == 1 {
            CubeRegion::Back
        } else if i == 2 {
            CubeRegion::Left
        } else if i == 3 {
            CubeRegion::Right
        } else if i == 4 {
            CubeRegion::Top
        } else if i == 5 {
            CubeRegion::Bottom
        } else if i == 6 {
            CubeRegion::FrontTop
        } else if i == 7 {
            CubeRegion::FrontBottom
        } else if i == 8 {
            CubeRegion::BackTop
        } else if i == 9 {
            CubeRegion::BackBottom
        } else if i == 10 {
            CubeRegion::LeftTop
        } else if i == 11 {
            CubeRegion::LeftBottom
        } else if i == 12 {
            CubeRegion::RightTop
        } else if i == 13 {
            CubeRegion::RightBottom
        } else if i == 14 {
            CubeRegion::FrontLeft
        } else if i == 15 {
            CubeRegion::FrontRight
        } else if i == 16 {
            CubeRegion::BackLeft
        } else if i == 17 {
            CubeRegion::BackRight
        } else if i == 18 {
            CubeRegion::FrontLeftTop
        } else if i == 19 {
            CubeRegion::FrontLeftBottom
        } else if i == 20 {
            CubeRegion::FrontRightTop
        } else if i == 21 {
            CubeRegion::FrontRightBottom
        } else if i == 22 {
            CubeRegion::BackLeftTop
        } else if i == 23 {
            CubeRegion::BackLeftBottom
        } else if i == 24 {
            CubeRegion::BackRightTop
        } else {
            CubeRegion::BackRightBottom
        }
    }

    /// The outward direction of the region.
    pub fn direction(self) -> (d: Direction)
        ensures
            d == direction_of(self),
    {
        match self {
            CubeRegion::Front => Direction { x: 0, y: 0, z: 1 },
            CubeRegion::Back => Direction { x: 0, y: 0, z: -1 },
            CubeRegion::Left => Direction { x: -1, y: 0, z: 0 },
            CubeRegion::Right => Direction { x: 1, y: 0, z: 0 },
            CubeRegion::Top => Direction { x: 0, y: 1, z: 0 },
            CubeRegion::Bottom => Direction { x: 0, y: -1, z: 0 },
            CubeRegion::FrontTop => Direction { x: 0, y: 1, z: 1 },
            CubeRegion::FrontBottom => Direction { x: 0, y: -1, z: 1 },
            CubeRegion::BackTop => Direction { x: 0, y: 1, z: -1 },
            CubeRegion::BackBottom => Direction { x: 0, y: -1, z: -1 },
            CubeRegion::LeftTop => Direction { x: -1, y: 1, z: 0 },
            CubeRegion::LeftBottom => Direction { x: -1, y: -1, z: 0 },
            CubeRegion::RightTop => Direction { x: 1, y: 1, z: 0 },
            CubeRegion::RightBottom => Direction { x: 1, y: -1, z: 0 },
            CubeRegion::FrontLeft => Direction { x: -1, y: 0, z: 1 },
            CubeRegion::FrontRight => Direction { x: 1, y: 0, z: 1 },
            CubeRegion::BackLeft => Direction { x: -1, y: 0, z: -1 },
            CubeRegion::BackRight => Direction { x: 1, y: 0, z: -1 },
            CubeRegion::FrontLeftTop => Direction { x: -1, y: 1, z: 1 },
            CubeRegion::FrontLeftBottom => Direction { x: -1, y: -1, z: 1 },
            CubeRegion::FrontRightTop => Direction { x: 1, y: 1, z: 1 },
            CubeRegion::FrontRightBottom => Direction { x: 1, y: -1, z: 1 },
            CubeRegion::BackLeftTop => Direction { x: -1, y: 1, z: -1 },
            CubeRegion::BackLeftBottom => Direction { x: -1, y: -1, z: -1 },
            CubeRegion::BackRightTop => Direction { x: 1, y: 1, z: -1 },
            CubeRegion::BackRightBottom => Direction { x: 1, y: -1, z: -1 },
        }
    }

    /// Whether the region is one of the six faces.
    pub fn is_face(self) -> (b: bool)
        ensures
            b == is_face(self),
    {
        let d = self.direction();
        let n: u8 = (if d.x != 0 { 1u8 } else { 0u8 }) + (if d.y != 0 { 1u8 } else { 0u8 }) + (
        if d.z != 0 {
            1u8
        } else {
            0u8
        });
        n == 1
    }
}

} // verus!
