use benilla_app::entities::budget::{budget_spell_lights, LiveLight, SPELL_LIGHTS_MAX};
use benilla_app::entities::carried::{
    flame_seed, spawn_area_spell_light, spawn_carried_lights, spawn_spell_light,
    track_carried_light_motion, CarriedLightMotion, LightChild, LightRole, ModelLight,
    SpellLightInfo, STILL_DRIFT_SQUARED_BITS, STILL_HOLD_BITS,
};
use benilla_app::entities::claims::{
    claim_carried_light_rooms, claims_at, decide_claims, lane_worthy, may_claim, owner_lane,
    room_to_claim, CarriedClaims, ClaimNeed, ClaimSet, ClaimedRoom, ComponentWrite, InteriorAnchor,
    Placement, Preferred, WmoRoom, ANCHOR_WALK_DEPTH, CLAIM_DRIFT_SQUARED_BITS,
};
use benilla_app::entities::lifecycle::{
    advance_fx_anim, advance_spell_light, decay_span, envelope, writes_brightness, AnimClip,
    EnvelopeTerms, FxAnimLife, FxStage, FxStep, Host, SpellLight, SpellLightMode, ANIM_DECAY,
    ANIM_HOLD,
};
use benilla_app::shadow::geometry::Point;
use benilla_app::single::Single;
use std::collections::HashMap;

const SPELL_LIGHT_RAMP: f32 = 0.1;
const SPELL_REAP_FADE: f32 = 0.25;
const SPELL_AREA_RAMP: f32 = 0.25;
const SPELL_AREA_FADE: f32 = 0.4;
const SPELL_AREA_BREATH_DEPTH: f32 = 0.08;
const SPELL_AREA_BREATH_HZ: f32 = 0.7;
const CLAIM_DRIFT: f32 = 0.5;
const LIT_ROOM_EXT_DENY: u16 = 0x8000;

fn n(v: f32) -> Single {
    Single::from_bits(v.to_bits())
}

fn f(v: Single) -> f32 {
    f32::from_bits(v.bits)
}

fn point(p: [f32; 3]) -> Point {
    Point {
        x: n(p[0]),
        y: n(p[1]),
        z: n(p[2]),
    }
}

const BONE_PIVOT: [f32; 3] = [1.0, 0.0, 0.5];

fn light(light_type: u16, bone: i16, position: [f32; 3], visibility_off: bool) -> ModelLight {
    ModelLight {
        light_type,
        bone,
        visibility_off,
        position: point(position),
        rebased: point([
            position[0] - BONE_PIVOT[0],
            position[1] - BONE_PIVOT[1],
            position[2] - BONE_PIVOT[2],
        ]),
        synthetic: false,
        spell: None,
    }
}

const FRAME: u64 = 100;
const JOINT: u64 = 200;

fn joints() -> HashMap<i16, u64> {
    HashMap::from([(3, JOINT)])
}

#[test]
fn only_casting_lights_spawn_and_they_ride_their_bone() {
    let lights = vec![
        light(1, 3, [2.0, 0.0, 1.5], false),
        light(0, 3, [2.0, 0.0, 1.5], false),
        light(1, 3, [2.0, 0.0, 1.5], true),
        light(1, -1, [0.0, 0.0, 4.0], false),
    ];
    let spawned = spawn_carried_lights(&lights, FRAME, true, &joints(), true);
    assert_eq!(spawned.len(), 2, "the directional and the dark one stay out");
    assert_eq!(spawned[0].parent, JOINT);
    assert_eq!(spawned[0].local, point([1.0, 0.0, 1.0]));
    assert_eq!(spawned[1].parent, FRAME);
    assert_eq!(spawned[1].local, point([0.0, 0.0, 4.0]));
    assert_eq!(spawned[0].block, 0);
    assert_eq!(spawned[1].block, 3);
}

#[test]
fn a_body_carried_light_is_marked_and_a_placed_one_is_not() {
    for held in [true, false] {
        let lights = vec![light(1, -1, [0.0, 0.0, 4.0], false)];
        let marked: Vec<bool> = spawn_carried_lights(&lights, FRAME, held, &HashMap::new(), true)
            .iter()
            .map(|c| matches!(c.role, LightRole::Glow { held: true, .. }))
            .collect();
        assert_eq!(marked, vec![held], "held = {held}");
    }
}

#[test]
fn a_synthetic_light_stays_on_the_rest_pose_pivot() {
    let mut synth = light(1, 3, [2.0, 0.0, 1.5], false);
    synth.synthetic = true;
    let spawned = spawn_carried_lights(&vec![synth], FRAME, true, &joints(), true);
    assert_eq!(spawned.len(), 1);
    assert_eq!(spawned[0].parent, FRAME, "the frame, never the joint");
    assert_eq!(
        spawned[0].local,
        point([2.0, 0.0, 1.5]),
        "raw model-space position, NOT rebased by the bone pivot"
    );
    assert!(matches!(
        spawned[0].role,
        LightRole::Glow {
            synthetic: true,
            held: true,
            owner: FRAME
        }
    ));
}

fn spell_light(position: [f32; 3]) -> ModelLight {
    ModelLight {
        spell: Some(SpellLightInfo {
            school: 4,
            onset: n(0.5),
        }),
        ..light(1, -1, position, false)
    }
}

#[test]
fn a_spell_block_is_a_burst_and_can_be_switched_off() {
    let lights = vec![spell_light([1.0, 2.0, 3.0])];
    let spawned = spawn_carried_lights(&lights, FRAME, false, &HashMap::new(), true);
    assert_eq!(
        spawned,
        vec![LightChild {
            block: 0,
            parent: FRAME,
            local: point([1.0, 2.0, 3.0]),
            role: LightRole::Spell {
                school: 4,
                onset: n(0.5),
                mode: SpellLightMode::Burst { span: n(0.6) },
            },
        }]
    );
    assert!(spawn_carried_lights(&lights, FRAME, false, &HashMap::new(), false).is_empty());
}

#[test]
fn an_effect_takes_its_first_spell_block() {
    let lights = vec![light(1, -1, [9.0, 9.0, 9.0], false), spell_light([1.0, 2.0, 3.0])];
    let child = spawn_spell_light(&lights, FRAME, SpellLightMode::Missile, true).expect("a light");
    assert_eq!(child.block, 1);
    assert_eq!(child.parent, FRAME);
    assert_eq!(child.local, point([1.0, 2.0, 3.0]));
    assert!(spawn_spell_light(&lights, FRAME, SpellLightMode::Missile, false).is_none());
    assert!(spawn_spell_light(&Vec::new(), FRAME, SpellLightMode::Missile, true).is_none());
}

#[test]
fn an_area_light_hangs_over_its_anchor() {
    let lights = vec![spell_light([1.0, 2.0, 3.0])];
    let own = spawn_area_spell_light(&lights, true, 12_345, true).expect("a light");
    assert_eq!(own.source, Some(0));
    assert_eq!(own.local, point([1.0, 2.0, 3.0]));
    assert_eq!(own.phase_step, 345);
    assert_eq!(f(own.onset), 0.0);
    let plain = spawn_area_spell_light(&Vec::new(), true, 7, true).expect("a light");
    assert_eq!(plain.source, None);
    assert_eq!(plain.local, point([0.0, 0.0, 0.0]));
    assert!(spawn_area_spell_light(&lights, false, 7, true).is_none());
    assert!(spawn_area_spell_light(&lights, true, 7, false).is_none());
}

#[test]
fn two_copies_of_a_flame_do_not_burn_in_step() {
    assert_eq!(flame_seed(0, 1), 1u64.rotate_left(11) as u32);
    assert_eq!(flame_seed(5, u64::MAX), 5 ^ u32::MAX);
    assert_ne!(flame_seed(5, 1), flame_seed(5, 2));
}

#[test]
fn a_carried_light_casts_only_after_it_holds_still() {
    let here = point([0.0, 0.0, 0.0]);
    let motion = track_carried_light_motion(None, here, n(0.0), n(0.0));
    assert!(!motion.settled(), "born moving is not settled");
    let credited = n(f(motion.still_for) + 1.0);
    let motion = track_carried_light_motion(Some(motion), here, n(0.0), credited);
    assert!(motion.settled(), "held still past STILL_HOLD");
    let credited = n(f(motion.still_for) + 1.0 / 60.0);
    let there = point([1.0, 0.0, 0.0]);
    let motion = track_carried_light_motion(Some(motion), there, n(1.0), credited);
    assert!(!motion.settled(), "moved further than STILL_DRIFT");
    assert_eq!(motion.last, there);
}

#[test]
fn a_settled_light_keeps_its_record() {
    assert_eq!(f32::from_bits(STILL_DRIFT_SQUARED_BITS), 0.05f32 * 0.05f32);
    assert_eq!(f32::from_bits(STILL_HOLD_BITS), 0.75);
    let settled = CarriedLightMotion {
        last: point([1.0, 0.0, 0.0]),
        still_for: n(0.75),
    };
    let there = point([1.04, 0.0, 0.0]);
    let drift = (1.04f32 - 1.0) * (1.04f32 - 1.0);
    assert_eq!(
        track_carried_light_motion(Some(settled), there, n(drift), n(0.8)),
        settled
    );
}

#[test]
fn a_claim_set_is_rebuilt_only_on_residency_room_or_drift() {
    let room = |group| Some(WmoRoom { instance: 1, group });
    let held = CarriedClaims {
        set: None,
        at: point([10.0, 2.0, -4.0]),
        generation: 7,
        room: room(3),
    };
    let drifted = |by: f32| {
        let moved = 10.0f32 + by - 10.0;
        n(moved * moved)
    };
    assert!(held.fresh(n(0.0), 7, room(3)), "nothing moved: no walk this frame");
    assert!(
        held.fresh(drifted(CLAIM_DRIFT * 0.9), 7, room(3)),
        "a wobble inside the drift budget still stands"
    );
    assert!(
        !held.fresh(drifted(CLAIM_DRIFT * 1.1), 7, room(3)),
        "past CLAIM_DRIFT the set was measured somewhere else"
    );
    assert!(
        !held.fresh(n(0.0), 8, room(3)),
        "a placement streamed in or out: the claim's instance key may be stale"
    );
    assert!(!held.fresh(n(0.0), 7, room(4)), "the bearer changed room");
    assert!(!held.fresh(n(0.0), 7, None), "the bearer left the building");
    assert_eq!(f32::from_bits(CLAIM_DRIFT_SQUARED_BITS), CLAIM_DRIFT * CLAIM_DRIFT);
}

#[test]
fn a_spell_light_claims_while_it_flies_and_a_torch_still_must_settle() {
    let moving = CarriedLightMotion {
        last: point([0.0, 0.0, 0.0]),
        still_for: n(0.0),
    };
    let parked = CarriedLightMotion {
        last: point([0.0, 0.0, 0.0]),
        still_for: Single::from_bits(STILL_HOLD_BITS),
    };
    assert!(may_claim(true, Some(moving)), "a missile's light claims mid-flight");
    assert!(may_claim(true, None), "and on its very first frame");
    assert!(!may_claim(false, Some(moving)), "a walking bearer's torch still waits");
    assert!(may_claim(false, Some(parked)), "a placed brazier settles and claims");
    assert!(!may_claim(false, None), "born moving is not a licence to claim");
}

fn set(groups: &[u16], any_interior: bool) -> ClaimSet {
    ClaimSet {
        instance: 1,
        groups: groups.to_vec(),
        fades: Vec::new(),
        any_interior,
    }
}

#[test]
fn an_anchorless_spell_light_takes_the_interior_lane_from_its_claims_alone() {
    assert!(
        lane_worthy(&set(&[3, 4], true), LIT_ROOM_EXT_DENY),
        "a corridor and the room past its doorway: the walls must see the bolt"
    );
    assert!(
        !lane_worthy(&set(&[3, 4], false), LIT_ROOM_EXT_DENY),
        "an all-exterior set reaches no room lane"
    );
    assert!(
        !lane_worthy(&set(&[3, 4 | LIT_ROOM_EXT_DENY], true), LIT_ROOM_EXT_DENY),
        "one district-scale shell in the set and the light stays on the cobbles it lights"
    );
}

const NOWHERE: InteriorAnchor = InteriorAnchor {
    room: None,
    lane: Single { bits: 0 },
};

#[test]
fn a_light_finds_its_bearers_anchor() {
    let anchor = InteriorAnchor {
        room: Some(WmoRoom { instance: 1, group: 2 }),
        lane: n(1.0),
    };
    let parents: HashMap<u64, u64> = (1..200).map(|e| (e, e + 1)).collect();
    let near = HashMap::from([(3, anchor)]);
    assert_eq!(owner_lane(1, &parents, &near), anchor);
    assert_eq!(owner_lane(4, &parents, &near), NOWHERE);
    let last = HashMap::from([(ANCHOR_WALK_DEPTH as u64, anchor)]);
    assert_eq!(owner_lane(1, &parents, &last), anchor);
    let far = HashMap::from([(ANCHOR_WALK_DEPTH as u64 + 1, anchor)]);
    assert_eq!(owner_lane(1, &parents, &far), NOWHERE);
}

#[test]
fn a_preferred_building_is_asked_first() {
    let places = vec![
        Placement { entity: 1, holds: false },
        Placement { entity: 2, holds: true },
        Placement { entity: 3, holds: true },
    ];
    let prefer = |first, second| Preferred { first, second };
    assert_eq!(claims_at(&places, prefer(Some(3), None)), Some(3));
    assert_eq!(claims_at(&places, prefer(Some(1), Some(3))), Some(3));
    assert_eq!(claims_at(&places, prefer(Some(1), Some(9))), Some(2));
    assert_eq!(claims_at(&vec![places[0]], prefer(None, None)), None);
}

#[test]
fn a_room_is_held_until_the_bearer_has_crossed_out() {
    let room = Some(WmoRoom { instance: 1, group: 2 });
    let record = ClaimedRoom {
        applied: room,
        seen: room,
        lane: true,
    };
    let silent = |lane: f32| InteriorAnchor {
        room: None,
        lane: n(lane),
    };
    assert_eq!(room_to_claim(silent(0.5), Some(record)), room);
    assert_eq!(room_to_claim(silent(0.49), Some(record)), None);
    assert_eq!(room_to_claim(silent(1.0), None), None);
}

#[test]
fn claims_are_built_kept_and_dropped() {
    let want = Some(WmoRoom { instance: 5, group: 2 });
    assert_eq!(decide_claims(&None, want, n(0.0), 7, false), ClaimNeed::Drop);
    let build = ClaimNeed::Build {
        prefer: Preferred {
            first: Some(5),
            second: None,
        },
    };
    assert_eq!(decide_claims(&None, want, n(0.0), 7, true), build);
    let anchor = InteriorAnchor {
        room: want,
        lane: n(1.0),
    };
    let at = point([0.0, 0.0, 0.0]);
    let out = claim_carried_light_rooms(
        anchor,
        None,
        None,
        build,
        Some(set(&[2], true)),
        at,
        7,
        LIT_ROOM_EXT_DENY,
    );
    assert_eq!(out.writes.lane, Some(true));
    assert_eq!(out.writes.room, ComponentWrite::Insert);
    assert_eq!(out.writes.lit_rooms, ComponentWrite::Insert);
    assert_eq!(decide_claims(&out.claims, want, n(0.0), 7, true), ClaimNeed::Keep);
    let kept = claim_carried_light_rooms(
        anchor,
        Some(out.claimed),
        out.claims,
        ClaimNeed::Keep,
        None,
        at,
        7,
        LIT_ROOM_EXT_DENY,
    );
    assert_eq!(kept.writes.lane, None);
    assert_eq!(kept.writes.room, ComponentWrite::Leave);
    assert_eq!(kept.writes.lit_rooms, ComponentWrite::Leave);
    assert_eq!(
        decide_claims(&kept.claims, None, n(0.0), 7, true),
        ClaimNeed::Build {
            prefer: Preferred {
                first: None,
                second: Some(1)
            }
        }
    );
    let gone = claim_carried_light_rooms(
        NOWHERE,
        Some(kept.claimed),
        kept.claims,
        ClaimNeed::Drop,
        None,
        at,
        8,
        LIT_ROOM_EXT_DENY,
    );
    assert_eq!(gone.writes.lane, Some(false));
    assert_eq!(gone.writes.room, ComponentWrite::Remove);
    assert_eq!(gone.writes.lit_rooms, ComponentWrite::Remove);
    assert_eq!(gone.claimed.seen, want);
}

/// One clip of `anim_id`, with the loop flag `looping`, on graph node `node`.
fn clip(anim_id: u16, node: u32, looping: bool) -> AnimClip {
    AnimClip {
        anim_id,
        node,
        looping,
        duration: n(1.0),
    }
}

#[test]
fn state_arms_the_birth_and_watches_for_the_handover() {
    let (life, repeats) = FxAnimLife::arm(&clip(0, 0, false), FxStage::State);
    assert!(matches!(life, FxAnimLife::Birth(0)));
    assert!(!repeats);
}

#[test]
fn relive_repeats_even_a_clamping_sequence() {
    let (life, repeats) = FxAnimLife::arm(&clip(0, 0, false), FxStage::Relive);
    assert!(matches!(life, FxAnimLife::Settled(_)));
    assert!(repeats);
}

#[test]
fn oneshot_follows_the_sequence_flag_only() {
    let (life, repeats) = FxAnimLife::arm(&clip(0, 0, false), FxStage::OneShot);
    assert!(matches!(life, FxAnimLife::Settled(_)));
    assert!(!repeats);
    let (_, repeats) = FxAnimLife::arm(&clip(0, 0, true), FxStage::OneShot);
    assert!(repeats);
}

#[test]
fn decay_span_is_the_gate_and_the_lifetime() {
    let mut decay = clip(ANIM_DECAY, 2, false);
    decay.duration = n(1.1);
    let with = vec![clip(0, 0, false), clip(ANIM_HOLD, 1, true), decay];
    assert_eq!(decay_span(Some(&with)).map(f), Some(1.1));
    let without = vec![clip(0, 0, false), clip(ANIM_HOLD, 1, true)];
    assert_eq!(decay_span(Some(&without)), None);
    assert_eq!(decay_span(None), None);
}

#[test]
fn a_birth_hands_over_once_and_a_reap_plays_the_decay() {
    let clips = vec![clip(0, 0, false), clip(ANIM_HOLD, 1, true), clip(ANIM_DECAY, 2, false)];
    let mut life = Some(FxAnimLife::Birth(0));
    assert_eq!(advance_fx_anim(&mut life, &clips, Some(0), false), FxStep::Wait);
    assert_eq!(advance_fx_anim(&mut life, &clips, None, false), FxStep::Wait);
    assert_eq!(
        advance_fx_anim(&mut life, &clips, Some(1), false),
        FxStep::Hold { stop: 0, play: 1 }
    );
    assert_eq!(advance_fx_anim(&mut life, &clips, Some(1), false), FxStep::Wait);
    assert_eq!(
        advance_fx_anim(&mut life, &clips, Some(9), true),
        FxStep::Decay { stop: 1, fade: 2 }
    );
    assert_eq!(life, None);
    assert_eq!(advance_fx_anim(&mut life, &clips, Some(9), true), FxStep::Wait);
}

#[test]
fn a_model_without_a_hold_parks_and_one_without_a_decay_ends() {
    let clips = vec![clip(0, 4, false)];
    let mut life = Some(FxAnimLife::Birth(4));
    assert_eq!(advance_fx_anim(&mut life, &clips, Some(1), false), FxStep::Park);
    assert_eq!(life, Some(FxAnimLife::Settled(4)));
    assert_eq!(advance_fx_anim(&mut life, &clips, Some(1), true), FxStep::End);
    assert_eq!(life, None);
}

fn brightness(light: &SpellLight) -> f32 {
    let t = f(light.age) - f(light.onset);
    let ramp = f(light.mode.ramp());
    let span = match light.mode {
        SpellLightMode::Burst { span } => f(span).max(1e-3),
        _ => 1.0,
    };
    let phase = match light.mode {
        SpellLightMode::Area { phase } => f(phase),
        _ => 0.0,
    };
    let swell = 1.0
        + SPELL_AREA_BREATH_DEPTH
            * (std::f32::consts::TAU * SPELL_AREA_BREATH_HZ * t + phase).sin();
    let terms = EnvelopeTerms {
        since_onset: n(t),
        ramped: n(t / ramp),
        burst_left: n(1.0 - (t - ramp).max(0.0) / span),
        swell: n(swell),
        fade_left: n(1.0 - f(light.reaped) / f(light.mode.reap_fade())),
    };
    envelope(light.mode, &terms).map_or(0.0, |e| f(e.up) * f(e.down) * f(e.reap))
}

fn lit(base: f32, onset: f32, mode: SpellLightMode) -> SpellLight {
    SpellLight::new(n(base), n(onset), mode)
}

fn at(mut light: SpellLight, age: f32) -> f32 {
    light.age = n(age);
    brightness(&light)
}

#[test]
fn the_spell_envelope_ramps_holds_and_bursts() {
    let kit = || lit(100.0, 0.0, SpellLightMode::Kit);
    assert_eq!(at(kit(), 0.0), 0.0, "nothing on the spawn frame");
    assert!((at(kit(), SPELL_LIGHT_RAMP * 0.5) - 0.5).abs() < 1e-3);
    assert_eq!(at(kit(), SPELL_LIGHT_RAMP), 1.0);
    assert_eq!(at(kit(), 30.0), 1.0, "an aura holds for as long as it stands");
    assert_eq!(at(lit(1.0, 0.0, SpellLightMode::Missile), 5.0), 1.0);
    let burst = || lit(1.0, 0.0, SpellLightMode::Burst { span: n(0.6) });
    assert_eq!(at(burst(), SPELL_LIGHT_RAMP), 1.0);
    assert!((at(burst(), SPELL_LIGHT_RAMP + 0.3) - 0.5).abs() < 1e-3);
    assert_eq!(at(burst(), SPELL_LIGHT_RAMP + 0.6), 0.0);
    assert_eq!(at(burst(), 10.0), 0.0, "and stays gone");
    let fuse = || lit(1.0, 1.5, SpellLightMode::Burst { span: n(0.6) });
    assert_eq!(at(fuse(), 1.4), 0.0);
    assert!((at(fuse(), 1.5 + SPELL_LIGHT_RAMP) - 1.0).abs() < 1e-6);
    let mut reaped = kit();
    reaped.age = n(5.0);
    reaped.reaped = n(SPELL_REAP_FADE * 0.5);
    assert!((brightness(&reaped) - 0.5).abs() < 1e-3);
    reaped.reaped = n(SPELL_REAP_FADE);
    assert_eq!(brightness(&reaped), 0.0);
}

#[test]
fn an_area_light_ramps_slowly_breathes_and_fades_out() {
    let area = || lit(100.0, 0.0, SpellLightMode::Area { phase: n(0.0) });
    let swell = |t: f32| {
        1.0 + SPELL_AREA_BREATH_DEPTH * (std::f32::consts::TAU * SPELL_AREA_BREATH_HZ * t).sin()
    };
    assert!(at(area(), SPELL_LIGHT_RAMP) < 0.5, "not a flash");
    let half = SPELL_AREA_RAMP * 0.5;
    assert!((at(area(), half) - 0.5 * swell(half)).abs() < 1e-3);
    assert!((at(area(), SPELL_AREA_RAMP) - swell(SPELL_AREA_RAMP)).abs() < 1e-3);
    let period = 1.0 / SPELL_AREA_BREATH_HZ;
    assert!((at(area(), period) - 1.0).abs() < 1e-3, "one period, back to base");
    assert!(
        (at(area(), period * 1.25) - (1.0 + SPELL_AREA_BREATH_DEPTH)).abs() < 1e-3,
        "the swell is centred on the base, not clamped below it"
    );
    assert!((at(area(), period * 1.75) - (1.0 - SPELL_AREA_BREATH_DEPTH)).abs() < 1e-3);
    for step in 0..200 {
        let v = at(area(), 1.0 + step as f32 * 0.05);
        assert!(
            (1.0 - SPELL_AREA_BREATH_DEPTH - 1e-3..=1.0 + SPELL_AREA_BREATH_DEPTH + 1e-3)
                .contains(&v),
            "the hold never drifts off its base: {v}"
        );
    }
    let mut ending = area();
    ending.age = n(8.0);
    ending.reaped = n(SPELL_AREA_FADE * 0.5);
    assert!(!ending.reap_complete());
    assert!(brightness(&ending) < 0.55 && brightness(&ending) > 0.45);
    ending.reaped = n(SPELL_AREA_FADE);
    assert_eq!(brightness(&ending), 0.0);
    assert!(ending.reap_complete());
    let mut kit_ending = lit(1.0, 0.0, SpellLightMode::Kit);
    kit_ending.reaped = n(SPELL_REAP_FADE * 0.5);
    assert!(!kit_ending.reap_complete());
}

#[test]
fn each_light_ends_with_its_own_host() {
    let decaying = Some(Host {
        decaying: true,
        fading: false,
    });
    let fading = Some(Host {
        decaying: false,
        fading: true,
    });
    let mut kit = lit(1.0, 0.0, SpellLightMode::Kit);
    assert!(!advance_spell_light(&mut kit, n(1.0), n(9.0), fading));
    assert_eq!(f(kit.reaped), 0.0);
    assert!(!advance_spell_light(&mut kit, n(1.1), n(9.0), decaying));
    assert_eq!(f(kit.reaped), 9.0);
    assert_eq!(f(kit.age), 1.1);
    let mut area = lit(1.0, 0.0, SpellLightMode::Area { phase: n(0.0) });
    assert!(!advance_spell_light(&mut area, n(1.0), n(9.0), decaying));
    assert!(!advance_spell_light(&mut area, n(1.0), n(0.3), fading));
    assert!(advance_spell_light(&mut area, n(1.1), n(0.4), fading));
    let mut flying = lit(1.0, 0.0, SpellLightMode::Missile);
    assert!(!advance_spell_light(&mut flying, n(1.0), n(9.0), decaying));
    assert_eq!(f(flying.reaped), 0.0);
    assert!(writes_brightness(n(0.0011)));
    assert!(!writes_brightness(n(0.001)));
}

fn live(entity: u64, area: bool, age: f32) -> LiveLight {
    LiveLight {
        entity,
        area,
        age: n(age),
    }
}

#[test]
fn the_oldest_lights_go_first_and_area_lights_last() {
    let mut lights: Vec<LiveLight> =
        (0..SPELL_LIGHTS_MAX as u64).map(|e| live(e, false, e as f32)).collect();
    assert!(budget_spell_lights(&lights).is_empty());
    lights.push(live(90, true, 1000.0));
    lights.push(live(91, true, 2000.0));
    assert_eq!(budget_spell_lights(&lights), vec![23, 22]);
    let areas: Vec<LiveLight> =
        (0..26u64).map(|e| live(e, e != 7, (e % 13) as f32)).collect();
    assert_eq!(budget_spell_lights(&areas), vec![7, 12]);
}
