use vstd::prelude::*;

use crate::orientation::{lookup, orientation_of, Orientation};
use crate::region::CubeRegion;
use crate::router::{HitRouter, RouterView};

verus! {

/// Why the camera that a hit should turn could not be chosen.
#[derive(Clone, Copy, Debug, PartialEq, Eq, Structural)]
pub enum BindingError {
    /// No orbit camera carries the binding marker.
    NoCamera,
    /// More than one orbit camera carries the binding marker.
    SeveralCameras,
}

/// What consuming a pending hit yields, given how many orbit cameras carry
/// the binding marker: nothing without a hit; the table's orientation for
/// the hit region when exactly one camera is bound; an error otherwise.
pub open spec fn consume_outcome(pending: Option<CubeRegion>, bound_cameras: nat) -> Result<
    Option<Orientation>,
    BindingError,
> {
    match pending {
        None => Ok(None),
        Some(region) => if bound_cameras == 1 {
            Ok(Some(orientation_of(region)))
        } else if bound_cameras == 0 {
            Err(BindingError::NoCamera)
        } else {
            Err(BindingError::SeveralCameras)
        },
    }
}

/// The router after a consumer pass: the pending hit is gone, the rest stays.
pub open spec fn consumed(v: RouterView) -> RouterView {
    RouterView { pending: None, ..v }
}

/// Drains the pending hit, if any, and returns the target orientation that
/// the single bound orbit camera should take. The hit is removed whatever
/// the outcome, so each click is consumed exactly once.
pub fn consume_hit(router: &mut HitRouter, bound_cameras: usize) -> (r: Result<
    Option<Orientation>,
    BindingError,
>)
    requires
        old(router).wf(),
    ensures
        final(router).wf(),
        final(router)@ == consumed(old(router)@),
        r == consume_outcome(old(router)@.pending, bound_cameras as nat),
{
    match router.take_hit() {
        None => Ok(None),
        Some(region) => {
            if bound_cameras == 1 {
                Ok(Some(lookup(region)))
            } else if bound_cameras == 0 {
                Err(BindingError::NoCamera)
            } else {
                Err(BindingError::SeveralCameras)
            }
        },
    }
}

/// After a consumer pass no hit is pending, whether or not one was before.
pub proof fn lemma_consume_clears(v: RouterView)
    ensures
        consumed(v).pending == None::<CubeRegion>,
        consumed(v).states == v.states,
        consumed(v).feedback == v.feedback,
{
}

/// A second consumer pass with no click in between changes nothing and
/// yields no orientation, however many cameras are bound.
pub proof fn lemma_consume_idempotent(v: RouterView, bound_cameras: nat)
    ensures
        consumed(consumed(v)) == consumed(v),
        consume_outcome(consumed(v).pending, bound_cameras) == Ok::<
            Option<Orientation>,
            BindingError,
        >(None),
{
}

} // verus!
