//! What holds of every light that a model or a spell brings: what it hangs from, how it lives, and
//! how it ends.
use crate::entities::budget::{budget_spell_lights, LiveLight};
use crate::entities::carried::{
    child_of, children_of, flame_seed, spawn_area_spell_light, spawn_carried_lights,
    spawn_spell_light, track_carried_light_motion, turned, AreaLight, CarriedLightMotion,
    LightChild, LightRole, ModelLight,
};
use crate::entities::lifecycle::{
    advance_fx_anim, advance_spell_light, decay_span, envelope, find, writes_brightness, AnimClip,
    Envelope, EnvelopeTerms, FxAnimLife, FxStage, FxStep, Host, SpellLight, SpellLightMode,
};
use crate::shadow::geometry::Point;
use crate::single::{Single, ONE_BITS, ZERO_BITS};
use std::collections::HashMap;
use vstd::prelude::*;

verus! {

/// The place a light hangs at: in its bone's joint, seen from the joint, where it was authored and
/// the model has the joint; and else in the model's frame, at its own place.
pub open spec fn hangs_from(light: ModelLight, frame: u64, joints: Map<i16, u64>, parent: u64, local: Point) -> bool {
    if !light.synthetic && joints.contains_key(light.bone) {
        parent == joints[light.bone] && local == light.rebased
    } else {
        parent == frame && local == light.position
    }
}

/// A block spawns a light exactly where it throws from a point, is not authored dark, and is no
/// spell's while spell lights are off.
pub open spec fn spawns(light: ModelLight, spells: bool) -> bool {
    light.light_type == 1 && !light.visibility_off && (light.spell is Some ==> spells)
}

/// A block that spawns a light spawns it where it hangs and as what it is: a spell's light is a
/// burst of 0.6 seconds with its school and its onset, and any other is a glow that the model
/// owns, held where a body carries it.
pub proof fn a_block_spawns_its_own_light(
    light: ModelLight,
    block: usize,
    frame: u64,
    held: bool,
    joints: Map<i16, u64>,
    spells: bool,
)
    ensures
        child_of(light, block, frame, held, joints, spells) is Some <==> spawns(light, spells),
        child_of(light, block, frame, held, joints, spells) matches Some(child) ==> {
            &&& child.block == block
            &&& hangs_from(light, frame, joints, child.parent, child.local)
            &&& light.spell matches Some(fx) ==> (child.role matches LightRole::Spell { school, onset, mode } && school
                == fx.school && onset == fx.onset && (mode matches SpellLightMode::Burst { span } && span.bits
                == 0x3F19_999A))
            &&& light.spell is None ==> (child.role matches LightRole::Glow { synthetic, held: h, owner } && synthetic
                == light.synthetic && h == held && owner == frame)
        },
{
}

/// A model with one block more at its end spawns what it spawned before and then, where that
/// block spawns one, its light.
pub proof fn a_later_block_spawns_later(
    lights: Seq<ModelLight>,
    light: ModelLight,
    frame: u64,
    held: bool,
    joints: Map<i16, u64>,
    spells: bool,
)
    requires
        lights.len() < usize::MAX,
    ensures
        ({
            let before = children_of(lights, frame, held, joints, spells);
            let after = children_of(lights.push(light), frame, held, joints, spells);
            &&& !spawns(light, spells) ==> after == before
            &&& spawns(light, spells) ==> after.len() == before.len() + 1 && after.drop_last() == before
                && after.last().block == lights.len() && hangs_from(
                light,
                frame,
                joints,
                after.last().parent,
                after.last().local,
            )
        }),
{
    let more = lights.push(light);
    assert(more.drop_last() =~= lights);
    a_block_spawns_its_own_light(light, lights.len() as usize, frame, held, joints, spells);
    let before = children_of(lights, frame, held, joints, spells);
    let after = children_of(more, frame, held, joints, spells);
    if spawns(light, spells) {
        assert(after.drop_last() =~= before);
    }
}

/// A model with a single block spawns its light or none, as the block alone decides.
pub proof fn a_single_block_decides_alone(
    lights: &Vec<ModelLight>,
    frame: u64,
    held: bool,
    joints: &HashMap<i16, u64>,
    spells: bool,
    r: Vec<LightChild>,
    light: ModelLight,
)
    requires
        call_ensures(spawn_carried_lights, (lights, frame, held, joints, spells), r),
        lights@ == seq![light],
    ensures
        !spawns(light, spells) ==> r@.len() == 0,
        spawns(light, spells) ==> r@.len() == 1 && r@[0].block == 0 && hangs_from(
            light,
            frame,
            joints@,
            r@[0].parent,
            r@[0].local,
        ) && (r@[0].role is Spell <==> light.spell is Some),
{
    let none: Seq<ModelLight> = seq![];
    assert(lights@ =~= none.push(light));
    a_later_block_spawns_later(none, light, frame, held, joints@, spells);
    a_block_spawns_its_own_light(light, 0, frame, held, joints@, spells);
}

/// A luminous effect throws one light, that of its first spell block, at the block's place under
/// the effect's root and in the life it is given; an area's hangs from its anchor and comes up at
/// once. Neither is there while spell lights are off.
pub proof fn an_effect_throws_the_light_of_its_first_spell_block(
    lights: &Vec<ModelLight>,
    root: u64,
    mode: SpellLightMode,
    spells: bool,
    luminous: bool,
    child: Option<LightChild>,
    area: Option<AreaLight>,
    k: int,
)
    requires
        call_ensures(spawn_spell_light, (lights, root, mode, spells), child),
        call_ensures(spawn_area_spell_light, (lights, luminous, root, spells), area),
    ensures
        !spells ==> child is None && area is None,
        !luminous ==> area is None,
        spells && luminous ==> area is Some,
        spells && 0 <= k < lights@.len() && lights@[k].spell is Some ==> (child matches Some(c) && c.block <= k),
        child matches Some(c) ==> {
            &&& c.parent == root
            &&& c.block < lights@.len()
            &&& c.local == lights@[c.block as int].position
            &&& c.role matches LightRole::Spell { school, onset, mode: m }
            &&& m == mode
            &&& lights@[c.block as int].spell matches Some(fx)
            &&& fx.school == school
            &&& fx.onset == onset
        },
        area matches Some(a) ==> {
            &&& a.parent == root
            &&& a.onset.bits == 0
            &&& a.phase_step == root % 1000
            &&& child matches Some(c) ==> a.source == Some(c.block) && a.local == c.local
            &&& child is None ==> a.source is None && a.local.x.bits == 0 && a.local.y.bits == 0 && a.local.z.bits == 0
        },
{
    if spells {
        if let Some(a) = area {
            if let Some(c) = child {
                assert(lights@[c.block as int].spell is Some);
                if let Some(at) = a.source {
                    assert(lights@[at as int].spell is Some);
                }
            } else if let Some(at) = a.source {
                assert(lights@[at as int].spell is Some);
            }
        }
    }
}

/// A flame's seed is its place mixed with what it hangs from: the low bits of the parent shifted
/// up by eleven, with the parent's eleven highest below them, and a parent of zero leaves the
/// place alone.
pub proof fn a_flames_seed_mixes_place_and_parent(place: u32, parent: u64, r: u32)
    requires
        call_ensures(flame_seed, (place, parent), r),
    ensures
        (r ^ place) >> 11 == parent & 0x1F_FFFF,
        (r ^ place) & 0x7FF == parent >> 53,
        parent == 0 ==> r == place,
{
    let t = turned(parent);
    assert((place ^ t) ^ place == t) by (bit_vector);
    assert((((parent << 11) | (parent >> 53)) as u32) >> 11 == parent & 0x1F_FFFFu64 && (((parent << 11) | (parent
        >> 53)) as u32) & 0x7FFu32 == parent >> 53) by (bit_vector);
    assert(parent == 0 ==> place ^ (((parent << 11) | (parent >> 53)) as u32) == place) by (bit_vector);
}

/// A light that has stood still is credited the frame while it is not settled, and starts over as
/// soon as it drifts more than 0.05 yards; where it last moved to is changed by a drift alone.
pub proof fn a_still_light_is_credited_its_frame(
    m: CarriedLightMotion,
    place: Point,
    drift_squared: Single,
    credited: Single,
    r: CarriedLightMotion,
    first: CarriedLightMotion,
)
    requires
        call_ensures(track_carried_light_motion, (Some(m), place, drift_squared, credited), r),
        call_ensures(track_carried_light_motion, (None, place, drift_squared, credited), first),
    ensures
        first.last == place && first.still_for.bits == 0,
        (Single { bits: 0x3B23_D70B }).below(drift_squared) ==> r.last == place && r.still_for.bits == 0,
        !(Single { bits: 0x3B23_D70B }).below(drift_squared) ==> r.last == m.last,
        !(Single { bits: 0x3B23_D70B }).below(drift_squared) && m.still_for.below(Single { bits: 0x3F40_0000 })
            ==> r.still_for == credited,
        !(Single { bits: 0x3B23_D70B }).below(drift_squared) && (Single { bits: 0x3F40_0000 }).at_most(m.still_for)
            ==> r.still_for == m.still_for,
{
}

/// A model is searched for the first of its clips with a number, and has none exactly where no
/// clip has it.
pub proof fn the_first_clip_of_a_number_is_found(clips: &Vec<AnimClip>, id: u16, r: Option<AnimClip>, k: int)
    requires
        call_ensures(find, (clips, id), r),
        0 <= k < clips@.len(),
        clips@[k].anim_id == id,
        forall|j: int| 0 <= j < k ==> (#[trigger] clips@[j]).anim_id != id,
    ensures
        r == Some(clips@[k]),
{
    if let Some(clip) = r {
        let at = choose|at: int| #[trigger]
            crate::entities::lifecycle::first_clip(clips@, id, at) && clips@[at] == clip;
        assert(crate::entities::lifecycle::first_clip(clips@, id, at) && clips@[at] == clip);
        if at < k {
            assert(clips@[at].anim_id != id);
        } else if k < at {
            assert(clips@[k].anim_id != id);
        }
    } else {
        assert(clips@[k].anim_id != id);
    }
}

/// An effect that stands waits to hand over from its birth; one that plays once or again and again
/// has nothing to hand over. A clip repeats where it loops, and always where it is to play again.
pub proof fn only_a_standing_effect_hands_over(clip: &AnimClip, stage: FxStage, r: (FxAnimLife, bool))
    requires
        call_ensures(FxAnimLife::arm, (clip, stage), r),
    ensures
        stage == FxStage::State ==> r.0 == FxAnimLife::Birth(clip.node),
        stage != FxStage::State ==> r.0 == FxAnimLife::Settled(clip.node),
        stage == FxStage::Relive ==> r.1,
        stage != FxStage::Relive ==> r.1 == clip.looping,
{
}

/// A reaped effect ends at once: what it played is stopped and its fade-out, animation 159, plays
/// where the model has one; a birth that still played is not handed over.
pub proof fn a_reap_comes_before_a_handover(
    life: &mut Option<FxAnimLife>,
    clips: &Vec<AnimClip>,
    completions: Option<u32>,
    r: FxStep,
    armed: u32,
    fade: Option<AnimClip>,
)
    requires
        call_ensures(advance_fx_anim, (life, clips, completions, true), r),
        *old(life) == Some(FxAnimLife::Birth(armed)) || *old(life) == Some(FxAnimLife::Settled(armed)),
        call_ensures(find, (clips, 159), fade),
    ensures
        *final(life) is None,
        fade matches Some(clip) ==> r == (FxStep::Decay { stop: armed, fade: clip.node }),
        fade is None ==> r == FxStep::End,
{
}

/// A birth that has ended once is stopped and the hold, animation 158, plays for good; without
/// one the model stays where it is. A birth that has not ended waits, and so does all that has
/// nothing to hand over.
pub proof fn a_birth_that_ended_hands_over(
    life: &mut Option<FxAnimLife>,
    clips: &Vec<AnimClip>,
    completions: Option<u32>,
    r: FxStep,
    armed: u32,
    hold: Option<AnimClip>,
)
    requires
        call_ensures(advance_fx_anim, (life, clips, completions, false), r),
        call_ensures(find, (clips, 158), hold),
    ensures
        *old(life) == Some(FxAnimLife::Birth(armed)) && (completions matches Some(n) && n >= 1) ==> {
            &&& hold matches Some(clip) ==> r == (FxStep::Hold { stop: armed, play: clip.node }) && *final(life) == Some(
                FxAnimLife::Settled(clip.node),
            )
            &&& hold is None ==> r == FxStep::Park && *final(life) == Some(FxAnimLife::Settled(armed))
        },
        completions is None || completions == Some(0u32) ==> r == FxStep::Wait && *final(life) == *old(life),
        *old(life) == Some(FxAnimLife::Settled(armed)) ==> r == FxStep::Wait && *final(life) == *old(life),
        *old(life) is None ==> r == FxStep::Wait && *final(life) is None,
{
}

/// A reaped effect renders on for as long as its fade-out lasts, and not at all without one.
pub proof fn a_fade_out_lasts_as_long_as_its_clip(clips: &Vec<AnimClip>, fade: Option<AnimClip>, r: Option<Single>, none: Option<Single>)
    requires
        call_ensures(find, (clips, 159), fade),
        call_ensures(decay_span, (Some(clips),), r),
        call_ensures(decay_span, (None,), none),
    ensures
        fade matches Some(clip) ==> r == Some(clip.duration),
        fade is None ==> r is None,
        none is None,
{
}

/// An area light comes up in a quarter of a second and goes dark in 0.4; every other light comes
/// up in a tenth and goes dark in a quarter.
pub proof fn an_area_light_takes_its_time(mode: SpellLightMode, up: Single, down: Single)
    requires
        call_ensures(SpellLightMode::ramp, (mode,), up),
        call_ensures(SpellLightMode::reap_fade, (mode,), down),
    ensures
        mode is Area ==> up.bits == 0x3E80_0000 && down.bits == 0x3ECC_CCCD,
        !(mode is Area) ==> up.bits == 0x3DCC_CCCD && down.bits == 0x3E80_0000,
{
}

/// A light is dark up to its onset; after it, it comes up to full and no further, a burst fades by
/// what its span leaves, an area breathes by its swell, and every light fades after its host by
/// what that leaves, each of these held between none and all.
pub proof fn a_light_shines_by_its_three_factors(mode: SpellLightMode, terms: &EnvelopeTerms, r: Option<Envelope>)
    requires
        call_ensures(envelope, (mode, terms), r),
        !terms.since_onset.not_a_number() && !terms.ramped.not_a_number() && !terms.burst_left.not_a_number()
            && !terms.fade_left.not_a_number(),
    ensures
        r is None <==> terms.since_onset.at_most(Single { bits: ZERO_BITS }),
        r matches Some(e) ==> {
            let zero = Single { bits: ZERO_BITS };
            let one = Single { bits: ONE_BITS };
            &&& terms.ramped.at_most(one) ==> e.up == terms.ramped
            &&& one.below(terms.ramped) ==> e.up == one
            &&& mode is Kit || mode is Missile ==> e.down == one
            &&& mode is Area ==> e.down == terms.swell
            &&& mode is Burst && zero.at_most(terms.burst_left) && terms.burst_left.at_most(one) ==> e.down
                == terms.burst_left
            &&& mode is Burst && terms.burst_left.below(zero) ==> e.down == zero
            &&& mode is Burst && one.below(terms.burst_left) ==> e.down == one
            &&& zero.at_most(terms.fade_left) && terms.fade_left.at_most(one) ==> e.reap == terms.fade_left
            &&& terms.fade_left.below(zero) ==> e.reap == zero
            &&& one.below(terms.fade_left) ==> e.reap == one
        },
{
    reveal(Single::clamped);
}

/// A frame ages every light. It fades a held light while its effect decays and an area light
/// while its area fades, and no other; and only an area light that has gone dark is despawned.
pub proof fn a_light_fades_after_its_own_host(
    light: &mut SpellLight,
    aged: Single,
    faded: Single,
    host: Option<Host>,
    r: bool,
)
    requires
        call_ensures(advance_spell_light, (light, aged, faded, host), r),
    ensures
        final(light).age == aged,
        final(light).base == old(light).base && final(light).onset == old(light).onset && final(light).mode == old(
            light).mode,
        old(light).mode is Kit ==> (host matches Some(h) ==> (h.decaying ==> final(light).reaped == faded) && (!h.decaying
            ==> final(light).reaped == old(light).reaped)),
        old(light).mode is Area ==> (host matches Some(h) ==> (h.fading ==> final(light).reaped == faded) && (!h.fading
            ==> final(light).reaped == old(light).reaped)),
        old(light).mode is Missile || old(light).mode is Burst || host is None ==> final(light).reaped == old(
            light).reaped && !r,
        r ==> old(light).mode is Area && (Single { bits: 0x3ECC_CCCD }).at_most(faded),
        old(light).mode is Area && (host matches Some(h) && h.fading) && (Single { bits: 0x3ECC_CCCD }).at_most(faded)
            ==> r,
{
}

/// A fresh light is new-born, and no host has left it.
pub proof fn a_fresh_light_has_no_age(base: Single, onset: Single, mode: SpellLightMode, r: SpellLight)
    requires
        call_ensures(SpellLight::new, (base, onset, mode), r),
    ensures
        r.base == base && r.onset == onset && r.mode == mode,
        r.age.bits == 0 && r.reaped.bits == 0,
{
}

/// Brightness is written past a step of a thousandth, and not at it.
pub proof fn a_small_change_is_not_written(gap: Single, r: bool)
    requires
        call_ensures(writes_brightness, (gap,), r),
    ensures
        r <==> (Single { bits: 0x3A83_126F }).below(gap),
        gap.bits == 0x3A83_126F ==> !r,
{
}

/// As many lights go as there are over twenty-four, no light goes twice, and of two alike the one
/// listed first goes first.
pub proof fn only_the_surplus_goes(lights: &Vec<LiveLight>, r: Vec<usize>, i: int, j: int)
    requires
        call_ensures(budget_spell_lights, (lights,), r),
    ensures
        lights@.len() <= 24 ==> r@.len() == 0,
        lights@.len() > 24 ==> r@.len() == lights@.len() - 24,
        0 <= i < j < r@.len() ==> r@[i] != r@[j] && r@[i] < lights@.len(),
        0 <= i < j < r@.len() && lights@[r@[i] as int].area == lights@[r@[j] as int].area && lights@[r@[i] as int].age
            == lights@[r@[j] as int].age ==> r@[i] < r@[j],
{
    if 0 <= i < j < r@.len() {
        assert(crate::entities::budget::goes_first(lights@, r@[i] as int, r@[j] as int));
    }
}

} // verus!
