//! What the panel offers is what the knobs behind it take: each slider ends where its knob is
//! held, and each offered number is kept as it is.
use crate::cvars::knobs::{
    after_gains, after_interior, after_shadow, held, InteriorConfig, LightGains, ShadowConfig,
    MAX_ENTITY_RATE, MAX_INTERIOR_DEBUG, MAX_TORCH_CASTERS, MAX_TORCH_DYNAMIC,
};
use crate::graphics::panel::{
    debug_knobs, fire_knobs, interior_knobs, night_knobs, offered, sun_knobs, torch_knobs, Options,
    PanelKnob, Widget,
};
use crate::shadow::quality::{on_ladder, snapping_lands_on_the_ladder, MAX_SHADOW_RATE};
use crate::single::{lemma_whole, lemma_whole_count, Single};
use crate::text::lower;
use vstd::arithmetic::power2::lemma2_to64;
use vstd::prelude::*;

verus! {

/// The number that a slider shows for `v`: the nearest between its ends.
pub open spec fn slid(knob: PanelKnob, v: Single) -> Single {
    match knob.widget {
        Widget::Slider { low, high } => v.clamped(low, high),
        _ => v,
    }
}

/// A slider over the whole numbers from `low` to `high`.
pub open spec fn runs_over(knob: PanelKnob, low: nat, high: nat) -> bool {
    knob.widget matches Widget::Integer { low: l, high: h } && l.is_whole(low) && h.is_whole(high)
}

/// Each slider of a light gain ends where the gain is held: a number written to the setting lands
/// where the slider would show it.
pub proof fn gain_sliders_end_where_the_gains_are_held(k: LightGains, v: Single)
    ensures
        after_gains(k, lower("nightGain"@), v) == Some(LightGains { night_gain: slid(night_knobs()[0], v), ..k }),
        after_gains(k, lower("interiorGain"@), v) == Some(LightGains { interior_gain: slid(interior_knobs()[1], v), ..k }),
        after_gains(k, lower("interiorBakeFloor"@), v) == Some(LightGains { interior_bake_floor: slid(interior_knobs()[4], v), ..k }),
        after_gains(k, lower("interiorDaylight"@), v) == Some(LightGains { interior_daylight: slid(interior_knobs()[7], v), ..k }),
        after_gains(k, lower("fireLightGain"@), v) == Some(LightGains { fire_light_gain: slid(fire_knobs()[0], v), ..k }),
        after_gains(k, lower("spellLightGain"@), v) == Some(LightGains { spell_light_gain: slid(fire_knobs()[1], v), ..k }),
        after_gains(k, lower("fireFlicker"@), v) == Some(LightGains { fire_flicker: slid(fire_knobs()[2], v), ..k }),
{
    lemma_gain_keys();
}

proof fn lemma_gain_keys()
    ensures
        lower("nightGain"@) == "nightgain"@ && "nightgain"@.len() == 9,
        lower("interiorGain"@) == "interiorgain"@ && "interiorgain"@.len() == 12,
        lower("interiorBakeFloor"@) == "interiorbakefloor"@ && "interiorbakefloor"@.len() == 17,
        lower("interiorDaylight"@) == "interiordaylight"@ && "interiordaylight"@.len() == 16,
        lower("fireLightGain"@) == "firelightgain"@ && "firelightgain"@.len() == 13,
        lower("spellLightGain"@) == "spelllightgain"@ && "spelllightgain"@.len() == 14,
        lower("fireFlicker"@) == "fireflicker"@ && "fireflicker"@.len() == 11,
{
    reveal_strlit("nightGain");
    reveal_strlit("nightgain");
    reveal_strlit("interiorGain");
    reveal_strlit("interiorgain");
    reveal_strlit("interiorBakeFloor");
    reveal_strlit("interiorbakefloor");
    reveal_strlit("interiorDaylight");
    reveal_strlit("interiordaylight");
    reveal_strlit("fireLightGain");
    reveal_strlit("firelightgain");
    reveal_strlit("spellLightGain");
    reveal_strlit("spelllightgain");
    reveal_strlit("fireFlicker");
    reveal_strlit("fireflicker");
    assert(lower("nightGain"@) =~= "nightgain"@);
    assert(lower("interiorGain"@) =~= "interiorgain"@);
    assert(lower("interiorBakeFloor"@) =~= "interiorbakefloor"@);
    assert(lower("interiorDaylight"@) =~= "interiordaylight"@);
    assert(lower("fireLightGain"@) =~= "firelightgain"@);
    assert(lower("spellLightGain"@) =~= "spelllightgain"@);
    assert(lower("fireFlicker"@) =~= "fireflicker"@);
}

proof fn lemma_interior_keys()
    ensures
        "interiorlight"@.len() == 13 && "interiorlight"@[8] == 'l',
        lower("interiorAmbient"@) == "interiorambient"@ && "interiorambient"@.len() == 15,
        lower("interiorFill"@) == "interiorfill"@ && "interiorfill"@.len() == 12,
        lower("interiorExposure"@) == "interiorexposure"@ && "interiorexposure"@.len() == 16,
        lower("interiorAttenScale"@) == "interiorattenscale"@ && "interiorattenscale"@.len() == 18 && "interiorattenscale"@[8] == 'a',
        "interiorroomgate"@.len() == 16,
        "interiorshadows"@.len() == 15,
        "exteriorshadows"@.len() == 15,
        lower("interiorShadowCasters"@) == "interiorshadowcasters"@ && "interiorshadowcasters"@.len() == 21
            && "interiorshadowcasters"@[14] == 'c',
        lower("interiorShadowDynamic"@) == "interiorshadowdynamic"@ && "interiorshadowdynamic"@.len() == 21
            && "interiorshadowdynamic"@[14] == 'd',
        lower("interiorShadowEntityRate"@) == "interiorshadowentityrate"@ && "interiorshadowentityrate"@.len() == 24,
        lower("interiorShadowSoft"@) == "interiorshadowsoft"@ && "interiorshadowsoft"@.len() == 18 && "interiorshadowsoft"@[8] == 's',
        lower("torchShadowStrength"@) == "torchshadowstrength"@ && "torchshadowstrength"@.len() == 19,
        lower("interiorDebug"@) == "interiordebug"@ && "interiordebug"@.len() == 13 && "interiordebug"@[8] == 'd',
{
    reveal_strlit("interiorlight");
    reveal_strlit("interiorAmbient");
    reveal_strlit("interiorambient");
    reveal_strlit("interiorFill");
    reveal_strlit("interiorfill");
    reveal_strlit("interiorExposure");
    reveal_strlit("interiorexposure");
    reveal_strlit("interiorAttenScale");
    reveal_strlit("interiorattenscale");
    reveal_strlit("interiorroomgate");
    reveal_strlit("interiorshadows");
    reveal_strlit("exteriorshadows");
    reveal_strlit("interiorShadowCasters");
    reveal_strlit("interiorshadowcasters");
    reveal_strlit("interiorShadowDynamic");
    reveal_strlit("interiorshadowdynamic");
    reveal_strlit("interiorShadowEntityRate");
    reveal_strlit("interiorshadowentityrate");
    reveal_strlit("interiorShadowSoft");
    reveal_strlit("interiorshadowsoft");
    reveal_strlit("torchShadowStrength");
    reveal_strlit("torchshadowstrength");
    reveal_strlit("interiorDebug");
    reveal_strlit("interiordebug");
    assert(lower("interiorAmbient"@) =~= "interiorambient"@);
    assert(lower("interiorFill"@) =~= "interiorfill"@);
    assert(lower("interiorExposure"@) =~= "interiorexposure"@);
    assert(lower("interiorAttenScale"@) =~= "interiorattenscale"@);
    assert(lower("interiorShadowCasters"@) =~= "interiorshadowcasters"@);
    assert(lower("interiorShadowDynamic"@) =~= "interiorshadowdynamic"@);
    assert(lower("interiorShadowEntityRate"@) =~= "interiorshadowentityrate"@);
    assert(lower("interiorShadowSoft"@) =~= "interiorshadowsoft"@);
    assert(lower("torchShadowStrength"@) =~= "torchshadowstrength"@);
    assert(lower("interiorDebug"@) =~= "interiordebug"@);
}

/// Each slider of an interior setting ends where the setting is held.
pub proof fn interior_sliders_end_where_the_settings_are_held(k: InteriorConfig, v: Single)
    ensures
        after_interior(k, lower("interiorAmbient"@), v) == Some(InteriorConfig { ambient: slid(interior_knobs()[2], v), ..k }),
        after_interior(k, lower("interiorFill"@), v) == Some(InteriorConfig { fill: slid(interior_knobs()[3], v), ..k }),
        after_interior(k, lower("interiorExposure"@), v) == Some(InteriorConfig { exposure: slid(interior_knobs()[5], v), ..k }),
        after_interior(k, lower("interiorAttenScale"@), v) == Some(InteriorConfig { atten_scale: slid(interior_knobs()[6], v), ..k }),
        after_interior(k, lower("interiorShadowSoft"@), v) == Some(InteriorConfig { shadow_soft: slid(torch_knobs()[4], v), ..k }),
        after_interior(k, lower("torchShadowStrength"@), v) == Some(InteriorConfig { torch_strength: slid(torch_knobs()[5], v), ..k }),
{
    lemma_interior_keys();
    assert("interiorambient"@ != "interiorshadows"@ && "interiorexposure"@ != "interiorroomgate"@) by {
        reveal_strlit("interiorambient");
        reveal_strlit("interiorshadows");
        reveal_strlit("interiorexposure");
        reveal_strlit("interiorroomgate");
        assert("interiorambient"@[8] != "interiorshadows"@[8]);
        assert("interiorexposure"@[8] != "interiorroomgate"@[8]);
    }
}

/// Each slider over whole numbers of an interior setting runs over the numbers that the setting
/// is held to.
pub proof fn interior_counts_run_over_what_is_held(k: InteriorConfig, v: Single)
    ensures
        runs_over(torch_knobs()[2], 1, MAX_TORCH_CASTERS as nat),
        after_interior(k, lower("interiorShadowCasters"@), v) == Some(
            InteriorConfig { shadow_casters: held(v.count(u32::MAX as int), 1, MAX_TORCH_CASTERS as int) as u32, ..k },
        ),
        runs_over(torch_knobs()[3], 1, MAX_TORCH_DYNAMIC as nat),
        after_interior(k, lower("interiorShadowDynamic"@), v) == Some(
            InteriorConfig { shadow_dynamic: held(v.count(u32::MAX as int), 1, MAX_TORCH_DYNAMIC as int) as u32, ..k },
        ),
        runs_over(torch_knobs()[6], 0, MAX_ENTITY_RATE as nat),
        after_interior(k, lower("interiorShadowEntityRate"@), v) == Some(
            InteriorConfig { shadow_entity_rate: held(v.count(u32::MAX as int), 0, MAX_ENTITY_RATE as int) as u32, ..k },
        ),
{
    lemma_interior_keys();
    lemma2_to64();
    lemma_whole(Single { bits: 0 }, 0, 0);
    lemma_whole(Single { bits: 0x3F80_0000 }, 1, 127);
    lemma_whole(Single { bits: 0x4180_0000 }, 16, 131);
    lemma_whole(Single { bits: 0x4100_0000 }, 8, 130);
    lemma_whole(Single { bits: 0x4370_0000 }, 240, 134);
}

proof fn lemma_shadow_keys()
    ensures
        "gxvsync"@.len() == 7,
        "worldshadows"@.len() == 12,
        "charactershadows"@.len() == 16,
        lower("shadowDistance"@) == "shadowdistance"@ && "shadowdistance"@.len() == 14,
        lower("shadowMapSize"@) == "shadowmapsize"@ && "shadowmapsize"@.len() == 13,
        "shadowfilter"@.len() == 12,
        lower("characterShadowRate"@) == "charactershadowrate"@ && "charactershadowrate"@.len() == 19,
        lower("worldShadowRate"@) == "worldshadowrate"@ && "worldshadowrate"@.len() == 15,
        lower("shadowCasterReach"@) == "shadowcasterreach"@ && "shadowcasterreach"@.len() == 17,
{
    reveal_strlit("gxvsync");
    reveal_strlit("worldshadows");
    reveal_strlit("charactershadows");
    reveal_strlit("shadowDistance");
    reveal_strlit("shadowdistance");
    reveal_strlit("shadowMapSize");
    reveal_strlit("shadowmapsize");
    reveal_strlit("shadowfilter");
    reveal_strlit("characterShadowRate");
    reveal_strlit("charactershadowrate");
    reveal_strlit("worldShadowRate");
    reveal_strlit("worldshadowrate");
    reveal_strlit("shadowCasterReach");
    reveal_strlit("shadowcasterreach");
    assert(lower("shadowDistance"@) =~= "shadowdistance"@);
    assert(lower("shadowMapSize"@) =~= "shadowmapsize"@);
    assert(lower("characterShadowRate"@) =~= "charactershadowrate"@);
    assert(lower("worldShadowRate"@) =~= "worldshadowrate"@);
    assert(lower("shadowCasterReach"@) =~= "shadowcasterreach"@);
}

/// Each slider of a sun shadow setting ends where the setting is held.
pub proof fn sun_sliders_end_where_the_settings_are_held(k: ShadowConfig, v: Single)
    ensures
        after_shadow(k, lower("shadowDistance"@), v) == Some(ShadowConfig { shadow_distance: slid(sun_knobs()[2], v), ..k }),
        after_shadow(k, lower("shadowCasterReach"@), v) == Some(ShadowConfig { shadow_caster_reach: slid(sun_knobs()[7], v), ..k }),
        runs_over(sun_knobs()[5], 0, MAX_SHADOW_RATE as nat),
        after_shadow(k, lower("characterShadowRate"@), v) == Some(
            ShadowConfig { character_shadow_rate: held(v.count(u32::MAX as int), 0, MAX_SHADOW_RATE as int) as u32, ..k },
        ),
        runs_over(sun_knobs()[6], 0, MAX_SHADOW_RATE as nat),
        after_shadow(k, lower("worldShadowRate"@), v) == Some(
            ShadowConfig { world_shadow_rate: held(v.count(u32::MAX as int), 0, MAX_SHADOW_RATE as int) as u32, ..k },
        ),
{
    lemma_shadow_keys();
    lemma2_to64();
    lemma_whole(Single { bits: 0 }, 0, 0);
    lemma_whole(Single { bits: 0x42F0_0000 }, 120, 133);
}

/// The offered map sizes are the rungs of the ladder, and each is kept as it is.
pub proof fn every_offered_map_size_is_kept(k: ShadowConfig, i: int, v: Single)
    requires
        0 <= i < offered(Options::MapSizes).len(),
        v.is_whole(offered(Options::MapSizes)[i] as nat),
    ensures
        sun_knobs()[3].widget == Widget::Choice(Options::MapSizes),
        on_ladder(offered(Options::MapSizes)[i] as int),
        after_shadow(k, lower("shadowMapSize"@), v) == Some(
            ShadowConfig { shadow_map_size: offered(Options::MapSizes)[i], ..k },
        ),
{
    let size = offered(Options::MapSizes)[i];
    lemma_shadow_keys();
    lemma_whole_count(v, size as nat, u32::MAX as int);
    snapping_lands_on_the_ladder(size as int, size as int);
}

/// Every offered overlay is kept as it is, and the last of them is the highest there is.
pub proof fn every_offered_overlay_is_kept(k: InteriorConfig, i: int, v: Single)
    requires
        0 <= i < offered(Options::DebugModes).len(),
        v.is_whole(offered(Options::DebugModes)[i] as nat),
    ensures
        debug_knobs()[0].widget == Widget::Choice(Options::DebugModes),
        offered(Options::DebugModes).last() == MAX_INTERIOR_DEBUG,
        after_interior(k, lower("interiorDebug"@), v) == Some(
            InteriorConfig { debug: offered(Options::DebugModes)[i], ..k },
        ),
{
    lemma_interior_keys();
    lemma_whole_count(v, offered(Options::DebugModes)[i] as nat, u32::MAX as int);
}

} // verus!
