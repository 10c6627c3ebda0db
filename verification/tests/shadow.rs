use benilla_app::entities::hierarchy::mark_ready;
use benilla_app::shadow::geometry::{
    append_skinned, append_triangles, casts_realtime_shadow, collect_entity_geometry,
    empty_cutout_mesh, empty_shadow_mesh, judge, restore_mesh_buffers, take_mesh_buffers, Collected,
    Joints, ModelBlend, ModelKind, Part, Point, Seat, Verdict, Wanted, Weights,
};
use benilla_app::shadow::lanes::{
    aim_world_shadow, collect_character_shadows, rebuild_character_caster, trace_collection,
    update_world_shadow, CharacterLane, FreshHandles, LaneClock, Traced, WorldShadowRuntime,
};
use benilla_app::shadow::quality::{
    apply_shadow_quality, clamp_shadow_map_size, QualitySinks, RebuildRate, ShadowFiltering,
    ShadowQuality, DEFAULT_SHADOW_MAP_SIZE, LARGE_MAP, SMALL_MAP,
};
use benilla_app::shadow::rig::{
    aim_rig, aims_at_moon, declare_demand, has_bearing, join_layer, leave_layer, light_elevation,
    reach_scale, relayer, settle_rig, shadow_reach_extension, sun_snap_due, take_demand, Direction,
    Handover, RigCamera, RigInputs, RigState, ShadowBody, ShadowFrame, SHADOW_LAYER,
    SHADOW_REACH_CAP_BITS, SUN_SNAP_BITS,
};
use benilla_app::single::Single;
use std::collections::{HashMap, HashSet};

const MAX_CASTER_HEIGHT: f32 = 35.0;
const STATIC_REBUILD_STEP: f32 = 16.0;
const CASTER_RANGE: f32 = 80.0;
const MIN_SHADOW_SUN_ELEVATION: f32 = 0.314;
const MAX_SHADOW_SUN_ELEVATION: f32 = 1.134;

type Vec3 = (f32, f32, f32);

fn n(v: f32) -> Single {
    Single::from_bits(v.to_bits())
}

fn f(v: Single) -> f32 {
    f32::from_bits(v.bits)
}

fn length(v: Vec3) -> f32 {
    (v.0 * v.0 + v.1 * v.1 + v.2 * v.2).sqrt()
}

fn normalize(v: Vec3) -> Vec3 {
    let l = length(v);
    (v.0 / l, v.1 / l, v.2 / l)
}

/// Turns a direction round the vertical.
fn turned(v: Vec3, angle: f32) -> Vec3 {
    let (s, c) = angle.sin_cos();
    (v.0 * c + v.2 * s, v.1, v.2 * c - v.0 * s)
}

fn angle_between(a: Vec3, b: Vec3) -> f32 {
    let dot = a.0 * b.0 + a.1 * b.1 + a.2 * b.2;
    (dot / (length(a) * length(b))).clamp(-1.0, 1.0).acos()
}

fn direction(v: Vec3) -> Direction {
    Direction {
        x: n(v.0),
        y: n(v.1),
        z: n(v.2),
    }
}

fn snaps(held: Option<Vec3>, live: Vec3) -> bool {
    let angle = held.map_or(0.0, |h| angle_between(h, live));
    sun_snap_due(held.map(direction), n(angle))
}

fn reach(travel: Vec3) -> f32 {
    let down = -travel.1;
    let run = length((travel.0, 0.0, travel.2));
    f(shadow_reach_extension(n(down), n(MAX_CASTER_HEIGHT * run / down)))
}

fn collection_reach(travel: Vec3, distance: f32) -> f32 {
    distance + STATIC_REBUILD_STEP + reach(travel)
}

/// The direction the light travels in, away from a body that stands towards `to_sun`.
fn travel_of(to_sun: Vec3) -> Vec3 {
    if length(to_sun) == 0.0 {
        return (0.0, 0.0, -1.0);
    }
    let s = normalize(to_sun);
    let run = (s.0, 0.0, s.2);
    let bearing = if has_bearing(n(length(run))) {
        normalize(run)
    } else {
        (0.0, 0.0, -1.0)
    };
    let e = f(light_elevation(n(s.1.clamp(-1.0, 1.0).asin())));
    (-bearing.0 * e.cos(), -e.sin(), -bearing.2 * e.cos())
}

#[test]
fn character_only_mode_never_admits_environment_casters() {
    assert!(casts_realtime_shadow(ModelKind::Creature, ModelBlend::Opaque, true, false));
    assert!(casts_realtime_shadow(ModelKind::Creature, ModelBlend::AlphaTest, true, false));
    assert!(!casts_realtime_shadow(ModelKind::Creature, ModelBlend::Blend, true, false));
    for kind in [ModelKind::GameObject, ModelKind::Doodad, ModelKind::Wmo] {
        assert!(!casts_realtime_shadow(kind, ModelBlend::Opaque, true, false));
        assert!(!casts_realtime_shadow(kind, ModelBlend::AlphaTest, true, false));
    }
}

#[test]
fn player_shadow_the_shadow_sun_snaps_on_first_write_holds_under_drift_and_rearms() {
    let threshold = f32::from_bits(SUN_SNAP_BITS);
    let held = normalize((0.3, -0.8, 0.52));
    assert!(snaps(None, held), "first write always fires");
    let small = turned(held, threshold * 0.5);
    assert!(!snaps(Some(held), small), "sub-threshold drift holds");
    let large = turned(held, threshold * 2.0);
    assert!(snaps(Some(held), large), "over-threshold snaps");
    assert!(!snaps(Some(large), large), "identical direction never rewrites");
    let drift_from_new = turned(large, threshold * 0.5);
    assert!(
        !snaps(Some(large), drift_from_new),
        "window re-arms around the snapped direction"
    );
}

#[test]
fn shadow_core_the_shadow_sun_snaps_on_first_write_holds_under_drift_and_rearms() {
    let threshold = f32::from_bits(SUN_SNAP_BITS);
    assert_eq!(threshold, 8.0e-4);
    let held = normalize((0.3, -0.8, 0.52));
    assert!(snaps(None, held), "first write always fires");
    let small = turned(held, threshold * 0.5);
    assert!(!snaps(Some(held), small), "sub-threshold drift holds");
    let large = turned(held, threshold * 2.0);
    assert!(snaps(Some(held), large), "over-threshold snaps");
    assert!(!snaps(Some(large), large), "identical direction never rewrites");
}

#[test]
fn player_shadow_shadow_reach_follows_the_sun_and_is_capped() {
    let cap = f32::from_bits(SHADOW_REACH_CAP_BITS);
    let diagonal = normalize((1.0, -1.0, 0.0));
    assert!((reach(diagonal) - MAX_CASTER_HEIGHT).abs() < 1e-3);
    let e = 20.0f32.to_radians();
    let night = (e.cos(), -e.sin(), 0.0);
    let expected = MAX_CASTER_HEIGHT * e.cos() / e.sin();
    assert!((reach(night) - expected).abs() < 1e-2);
    assert!(expected < cap);
    assert_eq!(reach((0.0, -1.0, 0.0)), 0.0);
    assert_eq!(reach((0.0, 0.0, -1.0)), cap);
    assert!(
        collection_reach((0.0, -1.0, 0.0), CASTER_RANGE) >= CASTER_RANGE + STATIC_REBUILD_STEP
    );
}

#[test]
fn shadow_core_shadow_reach_follows_the_sun_and_is_capped() {
    let cap = f32::from_bits(SHADOW_REACH_CAP_BITS);
    assert_eq!(cap, 120.0);
    let diagonal = normalize((1.0, -1.0, 0.0));
    assert!((reach(diagonal) - MAX_CASTER_HEIGHT).abs() < 1e-3);
    assert_eq!(reach((0.0, -1.0, 0.0)), 0.0);
    assert_eq!(reach((0.0, 0.0, -1.0)), cap);
    let distance = 80.0;
    assert!(collection_reach((0.0, -1.0, 0.0), distance) >= distance + STATIC_REBUILD_STEP);
}

#[test]
fn a_low_light_is_capped() {
    let low = normalize((1.0, -0.1, 0.0));
    assert_eq!(reach(low), 120.0);
    assert_eq!(f(shadow_reach_extension(n(0.001), n(7.0))), 120.0);
    assert_eq!(f(shadow_reach_extension(n(0.002), n(7.0))), 7.0);
    assert_eq!(f(reach_scale(n(9.0))), 2.0);
    assert_eq!(f(reach_scale(n(0.1))), 0.25);
    assert_eq!(f(reach_scale(n(1.5))), 1.5);
}

#[test]
fn player_shadow_an_out_of_range_index_drops_its_whole_triangle_and_no_others() {
    let mut out = Vec::new();
    append_triangles(&vec![0, 1, 2, 1, 2, 9, 2, 0, 1], 3, 10, &mut out);
    assert_eq!(out, vec![10, 11, 12, 12, 10, 11]);
}

#[test]
fn shadow_core_an_out_of_range_index_drops_its_whole_triangle_and_no_others() {
    let mut out = Vec::new();
    append_triangles(&vec![0, 1, 2, 1, 2, 9, 2, 0, 1], 3, 10, &mut out);
    assert_eq!(out, vec![10, 11, 12, 12, 10, 11]);
}

#[test]
fn a_trailing_partial_triple_is_ignored() {
    let mut out = Vec::new();
    append_triangles(&vec![0, 1, 2, 0, 1], 3, 0, &mut out);
    assert_eq!(out, vec![0, 1, 2]);
}

#[test]
fn each_lane_admits_only_its_own_kinds() {
    assert!(casts_realtime_shadow(ModelKind::Creature, ModelBlend::Opaque, true, false));
    assert!(casts_realtime_shadow(ModelKind::Creature, ModelBlend::AlphaTest, true, false));
    assert!(!casts_realtime_shadow(ModelKind::Creature, ModelBlend::Blend, true, false));
    assert!(!casts_realtime_shadow(ModelKind::Doodad, ModelBlend::Opaque, true, false));
    for kind in [ModelKind::GameObject, ModelKind::Doodad, ModelKind::Wmo] {
        assert!(casts_realtime_shadow(kind, ModelBlend::Opaque, false, true));
        assert!(!casts_realtime_shadow(kind, ModelBlend::AlphaTest, false, true));
    }
    assert!(!casts_realtime_shadow(ModelKind::Creature, ModelBlend::Opaque, false, true));
}

#[test]
fn the_rig_hands_over_to_the_moon_only_where_neither_body_casts() {
    let moon_under = -0.17_f32;
    let t = travel_of(normalize((0.7, moon_under, 0.7)));
    assert!(t.1 < 0.0, "a moonrise basis still points down");
    assert!(
        ((-t.1).asin() - MIN_SHADOW_SUN_ELEVATION).abs() < 1e-3,
        "a low moon is pinned to the floor elevation, so its shadows cannot smear to the horizon"
    );
}

#[test]
fn the_moving_sun_is_clamped_in_elevation_but_keeps_its_bearing() {
    let t = travel_of(normalize((0.6, -0.5, 0.6)));
    assert!(t.1 < 0.0, "travel points down even for a set sun");
    assert!(
        ((-t.1).asin() - MIN_SHADOW_SUN_ELEVATION).abs() < 1e-3,
        "a set sun is pinned to the floor elevation"
    );
    let high = normalize((0.02, 0.999, 0.02));
    assert!(
        ((-travel_of(high).1).asin() - MAX_SHADOW_SUN_ELEVATION).abs() < 1e-2,
        "a near-zenith sun is capped at the ceiling elevation"
    );
    let te = travel_of(normalize((1.0, 0.4, 0.0)));
    assert!(
        te.0 < 0.0 && te.2.abs() < 1e-3,
        "travel points away from the sun's horizontal bearing"
    );
    assert_eq!(travel_of((0.0, 0.0, 0.0)), (0.0, 0.0, -1.0));
    assert!(!has_bearing(n(1e-4)));
}

fn due(gate: &mut RebuildRate, now: f32, rate: u32) -> bool {
    let elapsed = match gate.last() {
        Some(last) => now - f(last) >= 1.0 / rate as f32,
        None => false,
    };
    gate.due(n(now), rate, elapsed)
}

#[test]
fn the_rebuild_gate_paces_from_the_last_grant_and_first_call_is_always_due() {
    let mut gate = RebuildRate::new();
    assert!(due(&mut gate, 10.0, 30), "first call has nothing to show yet");
    assert!(!due(&mut gate, 10.01, 30), "10 ms later is inside a 33 ms interval");
    assert!(!due(&mut gate, 10.03, 30), "still inside, measured from the grant");
    assert!(due(&mut gate, 10.04, 30), "past 1/30 s, due again");
    assert!(!due(&mut gate, 10.05, 30), "the grant reset the clock");
    gate.reset();
    assert!(due(&mut gate, 10.051, 30));
}

#[test]
fn the_rebuild_gate_has_an_every_frame_arm_and_survives_a_clock_reset() {
    let mut gate = RebuildRate::new();
    for t in 0..5 {
        assert!(due(&mut gate, 100.0 + t as f32 * 0.001, 0), "rate 0 never gates");
    }
    let mut gate = RebuildRate::new();
    assert!(due(&mut gate, 100.0, 15));
    assert!(!due(&mut gate, 100.01, 15));
    assert!(due(&mut gate, 0.0, 15), "a clock that went backwards is due, not stuck");
}

#[test]
fn the_shadow_map_size_snaps_onto_the_power_of_two_ladder() {
    assert_eq!(clamp_shadow_map_size(2048), 2048);
    assert_eq!(clamp_shadow_map_size(1024), 1024);
    assert_eq!(clamp_shadow_map_size(4096), 4096);
    assert_eq!(clamp_shadow_map_size(0), 1024, "clamped to the floor");
    assert_eq!(clamp_shadow_map_size(99_999), 4096, "clamped to the ceiling");
    assert_eq!(clamp_shadow_map_size(1500), 2048, "1500 is above the 1448 log midpoint");
    assert_eq!(clamp_shadow_map_size(1400), 1024, "1400 < 1448");
    let sizes = [SMALL_MAP, DEFAULT_SHADOW_MAP_SIZE, LARGE_MAP];
    assert!(sizes.iter().all(|s| s.is_power_of_two()));
    assert!(sizes.contains(&DEFAULT_SHADOW_MAP_SIZE));
}

#[test]
fn the_ladder_steps_at_the_geometric_means() {
    assert_eq!(clamp_shadow_map_size(1448), 1024);
    assert_eq!(clamp_shadow_map_size(1449), 2048);
    assert_eq!(clamp_shadow_map_size(2896), 2048);
    assert_eq!(clamp_shadow_map_size(2897), 4096);
    assert_eq!(clamp_shadow_map_size(u32::MAX), 4096);
}

#[test]
fn quality_is_written_only_where_it_differs() {
    let quality = ShadowQuality {
        shadow_map_size: 3000,
        shadow_filter: 0,
        character_shadow_rate: 30,
        world_shadow_rate: 15,
        shadow_caster_reach: n(1.0),
    };
    let mut sinks = QualitySinks {
        map_size: 2048,
        gaussian: true,
        cameras: vec![None, Some(ShadowFiltering::Gaussian), Some(ShadowFiltering::Hardware2x2)],
        traced: None,
    };
    let writes = apply_shadow_quality(quality, &sinks, true);
    assert_eq!(writes.map_size, Some(4096));
    assert_eq!(writes.gaussian, Some(false));
    assert_eq!(writes.method, ShadowFiltering::Hardware2x2);
    assert_eq!(writes.cameras, vec![true, true, false]);
    assert!(writes.report.is_some());
    sinks.map_size = 4096;
    sinks.gaussian = false;
    sinks.cameras = vec![Some(ShadowFiltering::Hardware2x2)];
    sinks.traced = writes.report;
    let again = apply_shadow_quality(quality, &sinks, true);
    assert_eq!(again.map_size, None);
    assert_eq!(again.gaussian, None);
    assert_eq!(again.cameras, vec![false]);
    assert!(again.report.is_none());
    sinks.traced = None;
    assert!(apply_shadow_quality(quality, &sinks, false).report.is_none());
}

fn point(x: f32) -> Point {
    Point {
        x: n(x),
        y: n(0.0),
        z: n(0.0),
    }
}

fn part(entity: u64, kind: ModelKind, placed: Option<f32>, rigged: Option<f32>) -> Part {
    Part {
        entity,
        kind,
        blend: ModelBlend::Opaque,
        occludes: true,
        placed: placed.map(n),
        rigged: rigged.map(n),
        points: vec![point(1.0), point(2.0), point(3.0)],
        indices: vec![0, 1, 2],
    }
}

#[test]
fn a_collection_brings_what_stands_in_reach() {
    let wanted = Wanted {
        creatures: true,
        environment: true,
        short_reach: n(100.0),
        tall_reach: n(400.0),
    };
    let mut hidden = part(4, ModelKind::Creature, Some(1.0), None);
    hidden.occludes = false;
    let mut broken = part(5, ModelKind::Creature, Some(1.0), None);
    broken.indices = vec![0, 1, 3];
    let mut clear = part(6, ModelKind::Wmo, Some(1.0), None);
    clear.blend = ModelBlend::AlphaTest;
    let parts = vec![
        part(1, ModelKind::Creature, Some(100.0), None),
        part(2, ModelKind::Creature, Some(101.0), None),
        part(3, ModelKind::Doodad, None, Some(400.0)),
        hidden,
        broken,
        clear,
        part(7, ModelKind::GameObject, None, None),
    ];
    let mut positions = vec![point(9.0)];
    let mut indices = Vec::new();
    let found = collect_entity_geometry(&parts, &wanted, &mut positions, &mut indices);
    assert_eq!(
        found,
        Collected {
            admitted: 3,
            rejected: 1,
            built: vec![1, 3],
        }
    );
    assert_eq!(positions.len(), 10);
    assert_eq!(indices, vec![1, 2, 3, 4, 5, 6]);
    assert_eq!(judge(&parts[1], &wanted), Verdict::Passed);
    assert_eq!(judge(&parts[3], &wanted), Verdict::Rejected);
    assert_eq!(judge(&parts[5], &wanted), Verdict::Passed);
}

#[test]
fn a_part_is_measured_by_its_transform_before_its_rig() {
    let wanted = Wanted {
        creatures: true,
        environment: false,
        short_reach: n(100.0),
        tall_reach: n(100.0),
    };
    let far = part(1, ModelKind::Creature, Some(900.0), Some(1.0));
    assert_eq!(judge(&far, &wanted), Verdict::Passed);
    let odd = part(1, ModelKind::Creature, Some(f32::NAN), None);
    assert_eq!(judge(&odd, &wanted), Verdict::Admitted);
}

#[test]
fn a_mesh_gets_its_buffers_back() {
    let mut mesh = empty_cutout_mesh();
    restore_mesh_buffers(&mut mesh, vec![point(1.0)], vec![0]);
    let (positions, indices) = take_mesh_buffers(&mut mesh);
    assert!(positions.is_empty() && indices.is_empty());
    assert!(mesh.positions.is_none() && mesh.indices.is_none());
    assert_eq!(mesh.coords, Some(Vec::new()));
    restore_mesh_buffers(&mut mesh, positions, indices);
    assert_eq!(mesh, empty_cutout_mesh());
    assert_ne!(mesh, empty_shadow_mesh());
    assert!(empty_shadow_mesh().coords.is_none());
}

#[test]
fn a_vertex_without_skinning_data_keeps_its_place() {
    let joints = vec![Joints { a: 0, b: 5, c: 1, d: 1 }];
    let weights = vec![Weights { a: n(0.5), b: n(0.5), c: n(0.0), d: n(-1.0) }];
    let seats = append_skinned(2, &joints, &weights, Some(2));
    assert_eq!(
        seats,
        vec![
            Seat::Blended { a: true, b: false, c: false, d: false },
            Seat::Root,
        ]
    );
    assert_eq!(append_skinned(1, &Vec::new(), &weights, Some(0)), vec![Seat::Origin]);
    assert!(append_skinned(2, &joints, &weights, None).is_empty());
}

fn camera(layers: Option<u64>) -> RigCamera {
    RigCamera {
        entity: 1,
        layers,
        marker: None,
    }
}

#[test]
fn a_camera_gets_its_layers_back() {
    for layers in [None, Some(1), Some(0b110)] {
        let joined = join_layer(camera(layers));
        assert_eq!(joined.layers, Some(layers.unwrap_or(1) | SHADOW_LAYER));
        assert_eq!(join_layer(joined), joined);
        assert_eq!(leave_layer(joined), camera(layers));
    }
    assert_eq!(leave_layer(camera(Some(SHADOW_LAYER))), camera(Some(SHADOW_LAYER)));
    let moved = relayer(&vec![camera(None), camera(Some(2))], true);
    assert_eq!(moved[1].layers, Some(2 | SHADOW_LAYER));
    assert_eq!(relayer(&moved, false), vec![camera(None), camera(Some(2))]);
}

fn inputs() -> RigInputs {
    RigInputs {
        demand: true,
        in_world: true,
        sun_weight: n(1.0),
        moon_strength: n(0.0),
        distance: n(80.0),
        published_distance: n(80.0),
        sun_found: true,
        fresh_sun: 11,
        fresh_material: 12,
    }
}

const DOWN: RigState = RigState {
    sun: None,
    sun_written: None,
    material: None,
    cascade_distance: None,
};

const IDLE: ShadowFrame = ShadowFrame {
    active: false,
    suspended: false,
    material: None,
};

#[test]
fn a_rig_comes_up_settles_and_goes_down() {
    let mut rig = DOWN;
    let mut frame = IDLE;
    let plan = settle_rig(&inputs(), &mut rig, &mut frame);
    assert!(plan.wanted && plan.spawn_sun && plan.make_material && !plan.refit);
    assert_eq!(rig.sun, Some(11));
    assert_eq!(rig.material, Some(12));
    let handover = Handover {
        wanted: Some(ShadowBody::Sun),
        aimed: Some(ShadowBody::Sun),
    };
    assert!(!aims_at_moon(&handover));
    let live = direction((0.0, -1.0, 0.0));
    let aim = aim_rig(&handover, live, n(0.0), Some(false), &mut rig, &mut frame);
    assert!(aim.turn);
    assert_eq!(aim.switch_shadows, Some(true));
    assert_eq!(aim.aim_written, Some(ShadowBody::Sun));
    assert!(frame.active);
    assert_eq!(frame.material, Some(12));
    let held = rig;
    let plan = settle_rig(&inputs(), &mut rig, &mut frame);
    assert!(!plan.spawn_sun && !plan.make_material && !plan.refit && !plan.publish_distance);
    assert_eq!(rig, held);
    let aim = aim_rig(&handover, live, n(0.0), Some(true), &mut rig, &mut frame);
    assert!(!aim.turn);
    assert_eq!(aim.switch_shadows, None);
    let off = RigInputs {
        demand: false,
        ..inputs()
    };
    let plan = settle_rig(&off, &mut rig, &mut frame);
    assert_eq!(plan.despawn, Some(11));
    assert_eq!(plan.drop_material, Some(12));
    assert_eq!(rig.sun_written, None);
    assert!(!frame.active);
}

#[test]
fn a_light_removed_from_outside_is_replaced() {
    let mut rig = RigState {
        sun: Some(3),
        sun_written: Some(direction((0.0, -1.0, 0.0))),
        material: Some(4),
        cascade_distance: Some(n(80.0)),
    };
    let mut frame = IDLE;
    let gone = RigInputs {
        sun_found: false,
        ..inputs()
    };
    let plan = settle_rig(&gone, &mut rig, &mut frame);
    assert!(plan.restart_handover && plan.spawn_sun && !plan.make_material);
    assert_eq!(rig.sun, Some(11));
    assert_eq!(rig.sun_written, None);
}

#[test]
fn a_new_distance_refits_the_cascade_and_is_published() {
    let mut rig = RigState {
        sun: Some(3),
        sun_written: None,
        material: Some(4),
        cascade_distance: Some(n(80.0)),
    };
    let mut frame = IDLE;
    let further = RigInputs {
        distance: n(120.0),
        ..inputs()
    };
    let plan = settle_rig(&further, &mut rig, &mut frame);
    assert!(plan.refit && plan.publish_distance);
    assert_eq!(rig.cascade_distance, Some(n(120.0)));
}

#[test]
fn work_is_suspended_while_neither_body_casts() {
    let mut rig = DOWN;
    let mut frame = IDLE;
    let night = RigInputs {
        sun_weight: n(0.0),
        ..inputs()
    };
    settle_rig(&night, &mut rig, &mut frame);
    assert!(frame.suspended);
    let moonlit = RigInputs {
        moon_strength: n(0.4),
        ..night
    };
    settle_rig(&moonlit, &mut rig, &mut frame);
    assert!(!frame.suspended);
}

#[test]
fn a_hand_over_turns_the_light_whatever_the_angle() {
    let live = direction((0.0, -1.0, 0.0));
    let mut rig = RigState {
        sun: Some(3),
        sun_written: Some(live),
        material: None,
        cascade_distance: None,
    };
    let mut frame = IDLE;
    let handover = Handover {
        wanted: Some(ShadowBody::Moon),
        aimed: Some(ShadowBody::Sun),
    };
    assert!(aims_at_moon(&handover));
    let aim = aim_rig(&handover, live, n(0.0), Some(true), &mut rig, &mut frame);
    assert!(aim.turn);
    assert_eq!(aim.aim_written, Some(ShadowBody::Moon));
    let lost = aim_rig(&handover, live, n(0.0), None, &mut rig, &mut frame);
    assert!(!lost.turn);
    assert!(!frame.active);
}

#[test]
fn demand_is_asked_anew_each_frame() {
    let mut demand = false;
    declare_demand(&mut demand, true);
    declare_demand(&mut demand, false);
    assert!(take_demand(&mut demand));
    assert!(!take_demand(&mut demand));
}

fn clock(on: bool, now: f32, elapsed: bool) -> LaneClock {
    LaneClock {
        on,
        now: n(now),
        rate: 30,
        elapsed,
        fresh_caster: 21,
        fresh_mesh: 22,
    }
}

const STANDING: ShadowFrame = ShadowFrame {
    active: true,
    suspended: false,
    material: Some(12),
};

#[test]
fn a_lane_fills_a_fresh_caster_at_once_and_then_paces() {
    let mut lane = CharacterLane {
        caster: None,
        mesh: None,
        rate: RebuildRate::new(),
        ready: HashSet::from([5]),
    };
    let plan = collect_character_shadows(&clock(true, 1.0, false), &STANDING, &mut lane);
    assert!(plan.spawn && plan.rebuild);
    assert_eq!(lane.caster, Some(21));
    let plan = collect_character_shadows(&clock(true, 1.01, false), &STANDING, &mut lane);
    assert!(!plan.spawn && !plan.rebuild);
    let plan = collect_character_shadows(&clock(true, 1.1, true), &STANDING, &mut lane);
    assert!(plan.rebuild);
    assert!(lane.ready.contains(&5));
    let suspended = ShadowFrame {
        suspended: true,
        ..STANDING
    };
    let plan = collect_character_shadows(&clock(true, 1.2, true), &suspended, &mut lane);
    assert!(!plan.rebuild);
    assert_eq!(plan.despawn, None);
    assert!(lane.ready.is_empty());
    let plan = collect_character_shadows(&clock(true, 1.21, false), &STANDING, &mut lane);
    assert!(plan.rebuild, "the cadence was re-armed");
    let plan = collect_character_shadows(&clock(false, 1.3, false), &STANDING, &mut lane);
    assert_eq!(plan.despawn, Some(21));
    assert_eq!(plan.drop_mesh, Some(22));
    assert_eq!(lane.caster, None);
}

#[test]
fn a_lane_without_a_material_waits() {
    let mut lane = CharacterLane {
        caster: None,
        mesh: None,
        rate: RebuildRate::new(),
        ready: HashSet::new(),
    };
    let bare = ShadowFrame {
        material: None,
        ..STANDING
    };
    let plan = collect_character_shadows(&clock(true, 1.0, false), &bare, &mut lane);
    assert!(!plan.spawn && !plan.rebuild);
    assert_eq!(lane.rate.last(), None);
}

#[test]
fn the_standalone_caster_starts_afresh() {
    let fresh = FreshHandles {
        caster: 1,
        sun: 2,
        mesh: 3,
        material: 4,
    };
    let mut runtime = WorldShadowRuntime {
        dynamic_caster: None,
        sun: None,
        sun_written: None,
        dynamic_mesh: None,
        material: None,
    };
    let plan = update_world_shadow(true, true, &fresh, &mut runtime);
    assert!(plan.spawn && plan.on_layer);
    assert_eq!(plan.rebuild, Some(3));
    let live = direction((0.0, -1.0, 0.0));
    assert!(!aim_world_shadow(live, n(0.0), false, &mut runtime));
    assert!(aim_world_shadow(live, n(0.0), true, &mut runtime));
    assert!(!aim_world_shadow(live, n(0.0), true, &mut runtime));
    assert!(aim_world_shadow(live, n(1.0), true, &mut runtime));
    let plan = update_world_shadow(true, true, &fresh, &mut runtime);
    assert!(!plan.spawn);
    assert_eq!(plan.rebuild, Some(3));
    let plan = update_world_shadow(true, false, &fresh, &mut runtime);
    assert_eq!(plan.despawn_caster, Some(1));
    assert_eq!(plan.despawn_sun, Some(2));
    assert_eq!(plan.drop_mesh, Some(3));
    assert_eq!(plan.drop_material, Some(4));
    assert!(!plan.on_layer);
    assert_eq!(runtime.sun_written, None);
}

#[test]
fn a_collection_is_reported_when_it_changes() {
    let mut traced = Traced {
        triangles: 0,
        admitted: 0,
        rejected: 0,
    };
    let now = Traced {
        triangles: 4,
        admitted: 2,
        rejected: 1,
    };
    assert_eq!(trace_collection(false, now, &mut traced), None);
    assert_eq!(trace_collection(true, now, &mut traced), Some(now));
    assert_eq!(trace_collection(true, now, &mut traced), None);
}

#[test]
fn a_built_part_readies_everything_above_it() {
    let parents = HashMap::from([(1, 2), (2, 3), (9, 8)]);
    let ready = mark_ready(&vec![1], &parents);
    assert_eq!(ready, HashSet::from([1, 2, 3]));
    assert!(mark_ready(&Vec::new(), &parents).is_empty());
}

#[test]
fn a_rebuilt_lane_holds_its_creatures_and_names_them() {
    let mut lane = CharacterLane {
        caster: Some(21),
        mesh: Some(22),
        rate: RebuildRate::new(),
        ready: HashSet::from([99]),
    };
    let mut mesh = empty_shadow_mesh();
    restore_mesh_buffers(&mut mesh, vec![point(9.0)], vec![0, 0, 0]);
    let parts = vec![
        part(1, ModelKind::Creature, Some(1.0), None),
        part(2, ModelKind::Doodad, Some(1.0), None),
        part(3, ModelKind::Creature, Some(500.0), None),
    ];
    let parents = HashMap::from([(1, 10), (10, 11), (3, 30)]);
    let counts =
        rebuild_character_caster(&parts, n(100.0), n(100.0), &parents, &mut mesh, &mut lane);
    assert_eq!(
        counts,
        Traced {
            triangles: 1,
            admitted: 1,
            rejected: 0,
        }
    );
    assert_eq!(mesh.indices, Some(vec![0, 1, 2]));
    assert_eq!(mesh.positions.as_ref().map(Vec::len), Some(3));
    assert_eq!(lane.ready, HashSet::from([1, 10, 11]));
}
