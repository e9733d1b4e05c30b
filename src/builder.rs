use vstd::prelude::*;

use crate::region::{
    direction_of, index_of, is_face, lemma_listing_is_a_bijection, region_at, CubeRegion, Direction,
    FACE_COUNT, REGION_COUNT,
};

verus! {

/// A coordinate axis.
#[derive(Clone, Copy, Debug, PartialEq, Eq, Structural)]
pub enum Axis {
    X,
    Y,
    Z,
}

/// A rotation about one axis by a whole number of quarter turns
/// (positive is counter-clockwise looking down the axis).
#[derive(Clone, Copy, Debug, PartialEq, Eq, Structural)]
pub struct QuarterTurn {
    pub axis: Axis,
    pub turns: i8,
}

/// Where a region's surface sits on the cube shell: its tag, its offset from
/// the centre in half-extents along each axis, and the rotations that turn a
/// flat surface (facing up) onto it, applied in order from the first factor.
pub struct RegionPlacement {
    pub region: CubeRegion,
    pub offset: Direction,
    pub rotation: Vec<QuarterTurn>,
}

/// The rotations that lay an upward-facing textured plane onto each face so
/// that its texture reads the right way round; the seam faces (left, right,
/// back) need a second turn. Edge and corner pieces are shell segments that
/// sit unrotated.
pub open spec fn seam_rotation(r: CubeRegion) -> Seq<QuarterTurn> {
    match r {
        CubeRegion::Right => seq![
            QuarterTurn { axis: Axis::Z, turns: -1i8 },
            QuarterTurn { axis: Axis::Y, turns: 1 },
        ],
        CubeRegion::Left => seq![
            QuarterTurn { axis: Axis::Z, turns: 1 },
            QuarterTurn { axis: Axis::Y, turns: -1i8 },
        ],
        CubeRegion::Top => seq![],
        CubeRegion::Bottom => seq![QuarterTurn { axis: Axis::X, turns: 2 }],
        CubeRegion::Front => seq![QuarterTurn { axis: Axis::X, turns: 1 }],
        CubeRegion::Back => seq![
            QuarterTurn { axis: Axis::X, turns: -1i8 },
            QuarterTurn { axis: Axis::Y, turns: 2 },
        ],
        _ => seq![],
    }
}

/// The number of regions a builder variant produces: the six faces, or all
/// 26 regions when edges and corners are clickable too.
pub open spec fn region_total(full: bool) -> nat {
    if full {
        REGION_COUNT as nat
    } else {
        FACE_COUNT as nat
    }
}

/// The placement of one region's surface.
pub open spec fn placement_matches(p: RegionPlacement, r: CubeRegion) -> bool {
    p.region == r && p.offset == direction_of(r) && p.rotation@ == seam_rotation(r)
}

/// The rotation sequence of a region's surface.
pub fn seam_rotation_of(r: CubeRegion) -> (v: Vec<QuarterTurn>)
    ensures
        v@ == seam_rotation(r),
{
    let mut v: Vec<QuarterTurn> = Vec::new();
    match r {
        CubeRegion::Right => {
            v.push(QuarterTurn { axis: Axis::Z, turns: -1 });
            v.push(QuarterTurn { axis: Axis::Y, turns: 1 });
        },
        CubeRegion::Left => {
            v.push(QuarterTurn { axis: Axis::Z, turns: 1 });
            v.push(QuarterTurn { axis: Axis::Y, turns: -1 });
        },
        CubeRegion::Top => {},
        CubeRegion::Bottom => {
            v.push(QuarterTurn { axis: Axis::X, turns: 2 });
        },
        CubeRegion::Front => {
            v.push(QuarterTurn { axis: Axis::X, turns: 1 });
        },
        CubeRegion::Back => {
            v.push(QuarterTurn { axis: Axis::X, turns: -1 });
            v.push(QuarterTurn { axis: Axis::Y, turns: 2 });
        },
        _ => {},
    }
    assert(v@ =~= seam_rotation(r));
    v
}

/// The placement of one region's surface on the cube shell.
pub fn place(region: CubeRegion) -> (p: RegionPlacement)
    ensures
        placement_matches(p, region),
{
    RegionPlacement { region, offset: region.direction(), rotation: seam_rotation_of(region) }
}

/// The surfaces to spawn: the six faces, or all 26 regions when `full`, in
/// canonical order. Each region of the variant gets exactly one surface.
pub fn build_regions(full: bool) -> (v: Vec<RegionPlacement>)
    ensures
        v@.len() == region_total(full),
        forall|i: int| 0 <= i < v@.len() ==> placement_matches(#[trigger] v@[i], region_at(i as nat)),
        forall|r: CubeRegion|
            #![trigger index_of(r)]
            (full || is_face(r)) ==> index_of(r) < v@.len() && placement_matches(
                v@[index_of(r) as int],
                r,
            ),
        forall|i: int, j: int|
            0 <= i < v@.len() && 0 <= j < v@.len() && i != j ==> #[trigger] v@[i].region
                != #[trigger] v@[j].region,
{
    proof {
        lemma_listing_is_a_bijection();
    }
    let n: usize = if full {
        REGION_COUNT
    } else {
        FACE_COUNT
    };
    let mut v: Vec<RegionPlacement> = Vec::new();
    let mut i: usize = 0;
    while i < n
        invariant
            n == region_total(full),
            i <= n,
            v@.len() == i,
            forall|k: int| 0 <= k < i ==> placement_matches(#[trigger] v@[k], region_at(k as nat)),
        decreases n - i,
    {
        let r = CubeRegion::from_index(i);
        v.push(place(r));
        i = i + 1;
    }
    proof {
        assert forall|r: CubeRegion|
            #![trigger index_of(r)]
            (full || is_face(r)) implies index_of(r) < v@.len() && placement_matches(
                v@[index_of(r) as int],
                r,
            ) by {
            assert(region_at(index_of(r)) == r);
        }
        assert forall|i: int, j: int|
            0 <= i < v@.len() && 0 <= j < v@.len() && i != j implies #[trigger] v@[i].region
            != #[trigger] v@[j].region by {
            assert(index_of(region_at(i as nat)) == i);
            assert(index_of(region_at(j as nat)) == j);
        }
    }
    v
}

} // verus!
