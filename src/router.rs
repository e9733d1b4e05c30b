use vstd::prelude::*;

use crate::region::{index_of, CubeRegion, REGION_COUNT};

verus! {

/// A pointer event delivered to one region surface.
#[derive(Clone, Copy, Debug, PartialEq, Eq, Structural)]
pub enum PointerEvent {
    Enter,
    Exit,
    Click,
}

/// The interaction state of one region surface.
#[derive(Clone, Copy, Debug, PartialEq, Eq, Structural)]
pub enum SurfaceState {
    Idle,
    Hovered,
    Armed,
}

/// The material variant a surface should show.
#[derive(Clone, Copy, Debug, PartialEq, Eq, Structural)]
pub enum Material {
    Idle,
    Hover,
    Active,
}

/// The state a surface moves to on an event, whatever state it was in.
pub open spec fn next_state(event: PointerEvent) -> SurfaceState {
    match event {
        PointerEvent::Enter => SurfaceState::Hovered,
        PointerEvent::Exit => SurfaceState::Idle,
        PointerEvent::Click => SurfaceState::Armed,
    }
}

/// The material to apply on an event; none when feedback is off.
pub open spec fn material_for(event: PointerEvent, feedback: bool) -> Option<Material> {
    if !feedback {
        None
    } else {
        match event {
            PointerEvent::Enter => Some(Material::Hover),
            PointerEvent::Exit => Some(Material::Idle),
            PointerEvent::Click => Some(Material::Active),
        }
    }
}

/// The abstract state of a router: whether surfaces show feedback, the state
/// of each surface (by canonical index), and the single pending hit.
pub struct RouterView {
    pub feedback: bool,
    pub states: Seq<SurfaceState>,
    pub pending: Option<CubeRegion>,
}

/// What one pointer event does to a router: the surface moves to its next
/// state, and a click records its region as the pending hit, replacing any
/// earlier one.
pub open spec fn pointer_step(v: RouterView, region: CubeRegion, event: PointerEvent) -> RouterView {
    RouterView {
        feedback: v.feedback,
        states: v.states.update(index_of(region) as int, next_state(event)),
        pending: if event == PointerEvent::Click {
            Some(region)
        } else {
            v.pending
        },
    }
}

/// Turns pointer events on region surfaces into at most one pending hit.
pub struct HitRouter {
    feedback: bool,
    states: Vec<SurfaceState>,
    pending: Option<CubeRegion>,
}

impl HitRouter {
    /// The router's abstract state.
    pub closed spec fn view(&self) -> RouterView {
        RouterView { feedback: self.feedback, states: self.states@, pending: self.pending }
    }

    /// One state per region.
    pub closed spec fn wf(&self) -> bool {
        self.states@.len() == REGION_COUNT
    }

    /// A router with every surface idle and no pending hit.
    pub fn new(feedback: bool) -> (r: HitRouter)
        ensures
            r.wf(),
            r@.feedback == feedback,
            r@.states.len() == REGION_COUNT,
            forall|i: int| 0 <= i < REGION_COUNT ==> r@.states[i] == SurfaceState::Idle,
            r@.pending == None::<CubeRegion>,
    {
        let mut states: Vec<SurfaceState> = Vec::new();
        let mut i: usize = 0;
        while i < REGION_COUNT
            invariant
                i <= REGION_COUNT,
                states@.len() == i,
                forall|j: int| 0 <= j < i ==> states@[j] == SurfaceState::Idle,
            decreases REGION_COUNT - i,
        {
            states.push(SurfaceState::Idle);
            i = i + 1;
        }
        HitRouter { feedback, states, pending: None }
    }

    /// Whether surfaces show hover and click feedback.
    pub fn feedback(&self) -> (b: bool)
        ensures
            b == self@.feedback,
    {
        self.feedback
    }

    /// The current state of a region's surface.
    pub fn state(&self, region: CubeRegion) -> (s: SurfaceState)
        requires
            self.wf(),
        ensures
            s == self@.states[index_of(region) as int],
    {
        self.states[region.index()]
    }

    /// The pending hit, if a click has not been consumed yet.
    pub fn pending(&self) -> (p: Option<CubeRegion>)
        ensures
            p == self@.pending,
    {
        self.pending
    }

    /// Handles one pointer event on a region's surface and returns the
    /// material the surface should switch to, if any.
    pub fn on_pointer(&mut self, region: CubeRegion, event: PointerEvent) -> (m: Option<Material>)
        requires
            old(self).wf(),
        ensures
            final(self).wf(),
            final(self)@ == pointer_step(old(self)@, region, event),
            m == material_for(event, old(self)@.feedback),
    {
        let i = region.index();
        self.states.set(i, next_state_of(event));
        match event {
            PointerEvent::Click => {
                self.pending = Some(region);
            },
            _ => {},
        }
        material_of(event, self.feedback)
    }

    /// Removes the pending hit and returns it; surface states are kept.
    pub fn take_hit(&mut self) -> (p: Option<CubeRegion>)
        requires
            old(self).wf(),
        ensures
            final(self).wf(),
            p == old(self)@.pending,
            final(self)@ == (RouterView { pending: None, ..old(self)@ }),
    {
        self.pending.take()
    }
}

/// The state a surface moves to on an event.
pub fn next_state_of(event: PointerEvent) -> (s: SurfaceState)
    ensures
        s == next_state(event),
{
    match event {
        PointerEvent::Enter => SurfaceState::Hovered,
        PointerEvent::Exit => SurfaceState::Idle,
        PointerEvent::Click => SurfaceState::Armed,
    }
}

/// The material to apply on an event, given whether feedback is on.
pub fn material_of(event: PointerEvent, feedback: bool) -> (m: Option<Material>)
    ensures
        m == material_for(event, feedback),
{
    if !feedback {
        None
    } else {
        match event {
            PointerEvent::Enter => Some(Material::Hover),
            PointerEvent::Exit => Some(Material::Idle),
            PointerEvent::Click => Some(Material::Active),
        }
    }
}

} // verus!
