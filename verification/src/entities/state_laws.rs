//! What holds of every light's standing: its claims, its stillness, and its end.
use crate::entities::carried::{spell_block, CarriedLightMotion, ModelLight};
use crate::entities::claims::{CarriedClaims, WmoRoom};
use crate::entities::lifecycle::{
    arm_decay, find, AnimClip, FxAnimLife, FxStage, SpellLight, SpellLightMode,
};
use crate::single::Single;
use vstd::prelude::*;

verus! {

/// Claims stand while the buildings and the room are the same and the light is within half a unit
/// of where it claimed, the square of which is a quarter; any change of the three ends them.
pub proof fn any_change_ends_the_claims(
    claims: &CarriedClaims,
    drift_squared: Single,
    generation: u32,
    room: Option<WmoRoom>,
    r: bool,
)
    requires
        call_ensures(CarriedClaims::fresh, (claims, drift_squared, generation, room), r),
    ensures
        claims.generation != generation ==> !r,
        claims.room != room ==> !r,
        (Single { bits: 0x3E80_0000 }).below(drift_squared) ==> !r,
        claims.generation == generation && claims.room == room && drift_squared.at_most(Single { bits: 0x3E80_0000 }) ==> r,
{
}

/// A light is settled from three quarters of a second of stillness on.
pub proof fn a_light_settles_after_three_quarters_of_a_second(motion: &CarriedLightMotion, r: bool)
    requires
        call_ensures(CarriedLightMotion::settled, (motion,), r),
    ensures
        r <==> (Single { bits: 0x3F40_0000 }).at_most(motion.still_for),
{
}

/// A reaped light is dark a quarter of a second after its host, and one over an area after four
/// tenths.
pub proof fn a_reaped_light_is_dark_after_its_fade(light: &SpellLight, r: bool, fade: Single)
    requires
        call_ensures(SpellLight::reap_complete, (light,), r),
        call_ensures(SpellLightMode::reap_fade, (light.mode,), fade),
    ensures
        r <==> fade.at_most(light.reaped),
        light.mode is Area ==> fade.bits == 0x3ECC_CCCD,
        !(light.mode is Area) ==> fade.bits == 0x3E80_0000,
{
}

/// An effect plays the clip it was armed with, whichever life it leads.
pub proof fn an_effect_plays_the_clip_it_was_armed_with(clip: &AnimClip, stage: FxStage, armed: (FxAnimLife, bool), node: u32)
    requires
        call_ensures(FxAnimLife::arm, (clip, stage), armed),
        call_ensures(FxAnimLife::armed, (&armed.0,), node),
    ensures
        node == clip.node,
{
}

/// A reaped effect plays the first clip numbered 159, where the model has one.
pub proof fn a_reaped_effect_plays_its_fade_out(clips: &Vec<AnimClip>, fade: Option<AnimClip>, r: Option<u32>)
    requires
        call_ensures(find, (clips, 159), fade),
        call_ensures(arm_decay, (clips,), r),
    ensures
        fade is None ==> r is None,
        fade matches Some(clip) ==> r == Some(clip.node),
{
}

/// The spell light that is found is the first of a model's lights that is one.
pub proof fn the_first_spell_light_is_found(lights: &Vec<ModelLight>, r: Option<usize>, k: int)
    requires
        call_ensures(spell_block, (lights,), r),
        0 <= k < lights@.len(),
    ensures
        r matches Some(at) ==> at < lights@.len() && lights@[at as int].spell is Some,
        r matches Some(at) ==> (k < at ==> lights@[k].spell is None),
{
}

} // verus!
