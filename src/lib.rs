use vstd::prelude::*;

pub mod builder;
pub mod driver;
pub mod layout;
pub mod orientation;
pub mod region;
pub mod router;

use crate::builder::{build_regions, placement_matches, region_total, RegionPlacement};
use crate::region::region_at;

verus! {

/// Marker for the orbit camera that the gizmo binds to. Exactly one camera
/// should carry it.
#[derive(Clone, Copy, Debug, PartialEq, Eq, Structural)]
pub struct ViewcubeBinding;

/// Configuration of the view cube: the simple cube has its six faces
/// clickable; the powerful one also its twelve edges and eight corners.
#[derive(Clone, Copy, Debug, PartialEq, Eq, Structural)]
pub struct BevyViewCubePlugin {
    pub use_powerful_viewcube: bool,
}

impl Default for BevyViewCubePlugin {
    fn default() -> (r: Self)
        ensures
            !r.use_powerful_viewcube,
    {
        BevyViewCubePlugin { use_powerful_viewcube: false }
    }
}

impl BevyViewCubePlugin {
    /// The region surfaces this configuration spawns, in canonical order.
    pub fn regions(&self) -> (v: Vec<RegionPlacement>)
        ensures
            v@.len() == region_total(self.use_powerful_viewcube),
            forall|i: int|
                0 <= i < v@.len() ==> placement_matches(#[trigger] v@[i], region_at(i as nat)),
    {
        build_regions(self.use_powerful_viewcube)
    }
}

} // verus!
