use bevy_viewcube::builder::{build_regions, Axis, QuarterTurn};
use bevy_viewcube::driver::{consume_hit, BindingError};
use bevy_viewcube::layout::{sync_frame, viewport_rect, GizmoLayout, IndicatorSource, ViewportRect};
use bevy_viewcube::orientation::{lookup, Orientation};
use bevy_viewcube::region::{CubeRegion, Direction, REGION_COUNT};
use bevy_viewcube::router::{HitRouter, Material, PointerEvent, SurfaceState};
use bevy_viewcube::BevyViewCubePlugin;

fn all_regions() -> Vec<CubeRegion> {
    (0..REGION_COUNT).map(CubeRegion::from_index).collect()
}

fn find(d: Direction) -> CubeRegion {
    all_regions()
        .into_iter()
        .find(|r| r.direction() == d)
        .expect("every non-zero sign triple is a region")
}

#[test]
fn table_uses_only_canonical_angles() {
    for r in all_regions() {
        let o = lookup(r);
        assert!((-3..=4).contains(&o.yaw), "{:?}", r);
        assert!((-2..=2).contains(&o.pitch), "{:?}", r);
    }
}

#[test]
fn mirrored_regions_differ_in_sign_only() {
    for a in all_regions() {
        let d = a.direction();
        let lr = find(Direction { x: -d.x, y: d.y, z: d.z });
        if d.x != 0 {
            assert_eq!(lookup(lr).yaw, -lookup(a).yaw);
        }
        assert_eq!(lookup(lr).pitch, lookup(a).pitch);
        let tb = find(Direction { x: d.x, y: -d.y, z: d.z });
        assert_eq!(lookup(tb).yaw, lookup(a).yaw);
        assert_eq!(lookup(tb).pitch, -lookup(a).pitch);
    }
}

#[test]
fn top_corners_share_pitch() {
    let corners = [
        CubeRegion::FrontLeftTop,
        CubeRegion::FrontRightTop,
        CubeRegion::BackLeftTop,
        CubeRegion::BackRightTop,
    ];
    for c in corners {
        assert_eq!(lookup(c).pitch, 1);
        assert_eq!(lookup(c).yaw.abs() % 2, 1);
    }
}

#[test]
fn named_regions_give_literal_targets() {
    assert_eq!(lookup(CubeRegion::Right), Orientation { yaw: 2, pitch: 0 });
    assert_eq!(lookup(CubeRegion::Top), Orientation { yaw: 0, pitch: 2 });
    assert_eq!(lookup(CubeRegion::BackLeftBottom), Orientation { yaw: -3, pitch: -1 });
    assert_eq!(lookup(CubeRegion::Back), Orientation { yaw: 4, pitch: 0 });
    assert_eq!(lookup(CubeRegion::Front), Orientation { yaw: 0, pitch: 0 });
    let quarter = std::f32::consts::PI / 4.0;
    let right = lookup(CubeRegion::Right);
    assert_eq!(right.yaw as f32 * quarter, std::f32::consts::FRAC_PI_2);
    assert_eq!(right.pitch as f32 * quarter, 0.0);
}

#[test]
fn click_then_consume_turns_camera() {
    let mut router = HitRouter::new(true);
    router.on_pointer(CubeRegion::Right, PointerEvent::Enter);
    router.on_pointer(CubeRegion::Right, PointerEvent::Click);
    assert_eq!(router.pending(), Some(CubeRegion::Right));
    let r = consume_hit(&mut router, 1);
    assert_eq!(r, Ok(Some(Orientation { yaw: 2, pitch: 0 })));
    assert_eq!(router.pending(), None);
}

#[test]
fn last_click_of_a_tick_wins() {
    let mut router = HitRouter::new(true);
    router.on_pointer(CubeRegion::Top, PointerEvent::Click);
    router.on_pointer(CubeRegion::BackLeftBottom, PointerEvent::Click);
    assert_eq!(router.pending(), Some(CubeRegion::BackLeftBottom));
    assert_eq!(consume_hit(&mut router, 1), Ok(Some(Orientation { yaw: -3, pitch: -1 })));
}

#[test]
fn consumer_clears_pending_hit_always() {
    let mut router = HitRouter::new(true);
    assert_eq!(consume_hit(&mut router, 1), Ok(None));
    assert_eq!(router.pending(), None);
    router.on_pointer(CubeRegion::Left, PointerEvent::Click);
    assert_eq!(consume_hit(&mut router, 0), Err(BindingError::NoCamera));
    assert_eq!(router.pending(), None);
    router.on_pointer(CubeRegion::Left, PointerEvent::Click);
    assert_eq!(consume_hit(&mut router, 2), Err(BindingError::SeveralCameras));
    assert_eq!(router.pending(), None);
}

#[test]
fn second_consume_is_a_no_op() {
    let mut router = HitRouter::new(true);
    router.on_pointer(CubeRegion::FrontTop, PointerEvent::Click);
    assert_eq!(consume_hit(&mut router, 1), Ok(Some(Orientation { yaw: 0, pitch: 1 })));
    let state = router.state(CubeRegion::FrontTop);
    assert_eq!(consume_hit(&mut router, 1), Ok(None));
    assert_eq!(router.pending(), None);
    assert_eq!(router.state(CubeRegion::FrontTop), state);
}

#[test]
fn surface_state_machine() {
    let mut router = HitRouter::new(true);
    assert_eq!(router.state(CubeRegion::Front), SurfaceState::Idle);
    assert_eq!(router.on_pointer(CubeRegion::Front, PointerEvent::Enter), Some(Material::Hover));
    assert_eq!(router.state(CubeRegion::Front), SurfaceState::Hovered);
    assert_eq!(router.pending(), None);
    assert_eq!(router.on_pointer(CubeRegion::Front, PointerEvent::Exit), Some(Material::Idle));
    assert_eq!(router.state(CubeRegion::Front), SurfaceState::Idle);
    router.on_pointer(CubeRegion::Front, PointerEvent::Enter);
    assert_eq!(router.on_pointer(CubeRegion::Front, PointerEvent::Click), Some(Material::Active));
    assert_eq!(router.state(CubeRegion::Front), SurfaceState::Armed);
    assert_eq!(router.state(CubeRegion::Back), SurfaceState::Idle);
}

#[test]
fn no_feedback_means_no_material_change() {
    let mut router = HitRouter::new(false);
    assert!(!router.feedback());
    assert_eq!(router.on_pointer(CubeRegion::Back, PointerEvent::Enter), None);
    assert_eq!(router.on_pointer(CubeRegion::Back, PointerEvent::Click), None);
    assert_eq!(router.pending(), Some(CubeRegion::Back));
}

#[test]
fn full_hd_viewports() {
    assert_eq!(
        viewport_rect(GizmoLayout::Full, 1920, 1080),
        ViewportRect { x: 0, y: 756, width: 384, height: 324 }
    );
    assert_eq!(
        viewport_rect(GizmoLayout::Corner, 1920, 1080),
        ViewportRect { x: 0, y: 972, width: 192, height: 108 }
    );
}

#[test]
fn viewport_width_doubles_with_window() {
    let a = viewport_rect(GizmoLayout::Full, 1000, 800);
    let b = viewport_rect(GizmoLayout::Full, 2000, 800);
    assert_eq!(b.width, 2 * a.width);
    assert_eq!(a.x, 0);
    assert_eq!(b.x, 0);
    assert_eq!(a.y, b.y);
    assert_eq!(a.height, b.height);
}

#[test]
fn viewport_edge_sizes() {
    assert_eq!(viewport_rect(GizmoLayout::Full, 0, 0), ViewportRect { x: 0, y: 0, width: 0, height: 0 });
    let big = viewport_rect(GizmoLayout::Full, u32::MAX, u32::MAX);
    assert_eq!(big.width, (u32::MAX as u64 * 2 / 10) as u32);
    assert_eq!(big.y, (u32::MAX as u64 * 7 / 10) as u32);
    assert_eq!(viewport_rect(GizmoLayout::Full, 3, 9), ViewportRect { x: 0, y: 6, width: 0, height: 2 });
}

#[test]
fn indicator_falls_back_to_identity() {
    assert_eq!(sync_frame(GizmoLayout::Full, 1920, 1080, 1).indicator, IndicatorSource::InverseOfCamera);
    assert_eq!(sync_frame(GizmoLayout::Full, 1920, 1080, 0).indicator, IndicatorSource::Identity);
    assert_eq!(sync_frame(GizmoLayout::Full, 1920, 1080, 3).indicator, IndicatorSource::Identity);
    assert_eq!(
        sync_frame(GizmoLayout::Corner, 1920, 1080, 1).viewport,
        ViewportRect { x: 0, y: 972, width: 192, height: 108 }
    );
}

#[test]
fn simple_builder_places_six_faces() {
    let v = build_regions(false);
    assert_eq!(v.len(), 6);
    let right = v.iter().find(|p| p.region == CubeRegion::Right).unwrap();
    assert_eq!(right.offset, Direction { x: 1, y: 0, z: 0 });
    assert_eq!(
        right.rotation,
        vec![QuarterTurn { axis: Axis::Z, turns: -1 }, QuarterTurn { axis: Axis::Y, turns: 1 }]
    );
    let top = v.iter().find(|p| p.region == CubeRegion::Top).unwrap();
    assert!(top.rotation.is_empty());
    assert!(v.iter().all(|p| p.region.is_face()));
}

#[test]
fn full_builder_places_each_region_once() {
    let v = build_regions(true);
    assert_eq!(v.len(), 26);
    for r in all_regions() {
        assert_eq!(v.iter().filter(|p| p.region == r).count(), 1);
    }
    let corner = v.iter().find(|p| p.region == CubeRegion::BackLeftBottom).unwrap();
    assert_eq!(corner.offset, Direction { x: -1, y: -1, z: -1 });
    assert!(corner.rotation.is_empty());
}

#[test]
fn plugin_default_is_simple() {
    let p = BevyViewCubePlugin::default();
    assert!(!p.use_powerful_viewcube);
    assert_eq!(p.regions().len(), 6);
    assert_eq!(BevyViewCubePlugin { use_powerful_viewcube: true }.regions().len(), 26);
}

#[test]
fn index_round_trip() {
    for i in 0..REGION_COUNT {
        assert_eq!(CubeRegion::from_index(i).index(), i);
    }
}
