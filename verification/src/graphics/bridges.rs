//! The bridges from the graphics settings to the renderers: each renderer's value is written
//! exactly where it differs, so that an idle frame writes nothing.
use crate::cvars::knobs::{InteriorConfig, LightGains};
use crate::single::{Single, ONE_BITS, ZERO_BITS};
use crate::text::same_text;
use vstd::prelude::*;

verus! {

/// The number two.
pub const TWO_BITS: u32 = 0x4000_0000;

/// The number one half.
pub const HALF_BITS: u32 = 0x3F00_0000;

/// The highest tier of moving foliage.
pub const MAX_WIND: u8 = 2;

/// What the interior renderer goes by.
#[derive(Clone, Copy, Debug)]
pub struct DynamicInteriors {
    pub enabled: bool,
    pub ambient: Single,
    pub fill: Single,
    pub exposure: Single,
    pub atten_scale: Single,
    pub room_gate: bool,
    pub debug: u32,
    pub flicker: Single,
    pub night_gain: Single,
    pub interior_gain: Single,
    pub daylight: Single,
    pub bake_floor: Single,
}

/// The two say the same.
pub open spec fn same_interiors(a: DynamicInteriors, b: DynamicInteriors) -> bool {
    &&& a.enabled == b.enabled
    &&& a.ambient.same_number(b.ambient)
    &&& a.fill.same_number(b.fill)
    &&& a.exposure.same_number(b.exposure)
    &&& a.atten_scale.same_number(b.atten_scale)
    &&& a.room_gate == b.room_gate
    &&& a.debug == b.debug
    &&& a.flicker.same_number(b.flicker)
    &&& a.night_gain.same_number(b.night_gain)
    &&& a.interior_gain.same_number(b.interior_gain)
    &&& a.daylight.same_number(b.daylight)
    &&& a.bake_floor.same_number(b.bake_floor)
}

fn interiors_agree(a: &DynamicInteriors, b: &DynamicInteriors) -> (r: bool)
    ensures
        r == same_interiors(*a, *b),
{
    a.enabled == b.enabled && a.ambient.equals(b.ambient) && a.fill.equals(b.fill)
        && a.exposure.equals(b.exposure) && a.atten_scale.equals(b.atten_scale) && a.room_gate
        == b.room_gate && a.debug == b.debug && a.flicker.equals(b.flicker)
        && a.night_gain.equals(b.night_gain) && a.interior_gain.equals(b.interior_gain)
        && a.daylight.equals(b.daylight) && a.bake_floor.equals(b.bake_floor)
}

/// The settings of water, lava and moon shadows.
#[derive(Clone, Copy, Debug)]
pub struct SceneDials {
    pub water_quality: u8,
    pub lava_light_gain: Single,
    pub moon_shadow_strength: Single,
}

/// The renderers' values of water, lava, fire, spells and moon shadows.
#[derive(Clone, Copy, Debug)]
pub struct SceneValues {
    pub water_quality: u8,
    pub lava_light_gain: Single,
    pub fire_light_gain: Single,
    pub spell_light_gain: Single,
    pub moon_shadow_strength: Single,
}

/// What one pass of the bridge writes.
#[derive(Clone, Copy, Debug)]
pub struct BridgeWrites {
    pub water_quality: Option<u8>,
    pub lava_light_gain: Option<Single>,
    pub fire_light_gain: Option<Single>,
    pub spell_light_gain: Option<Single>,
    pub moon_shadow_strength: Option<Single>,
    pub interiors: Option<DynamicInteriors>,
}

/// What the interior settings amount to; a capture's daylight stands before the setting's.
pub open spec fn wanted_interiors(
    interior: InteriorConfig,
    gains: LightGains,
    capture: Option<Single>,
) -> DynamicInteriors {
    DynamicInteriors {
        enabled: interior.light,
        ambient: interior.ambient,
        fill: interior.fill,
        exposure: interior.exposure,
        atten_scale: interior.atten_scale,
        room_gate: interior.room_gate,
        debug: interior.debug,
        flicker: gains.fire_flicker,
        night_gain: gains.night_gain,
        interior_gain: gains.interior_gain,
        daylight: match capture {
            Some(daylight) => daylight,
            None => gains.interior_daylight,
        },
        bake_floor: gains.interior_bake_floor,
    }
}

/// A number that has to be written: the wanted one, where it differs from what is there.
pub open spec fn number_write(there: Single, wanted: Single) -> Option<Single> {
    if there.same_number(wanted) {
        None
    } else {
        Some(wanted)
    }
}

fn write_number(there: Single, wanted: Single) -> (r: Option<Single>)
    ensures
        r == number_write(there, wanted),
{
    if there.equals(wanted) {
        None
    } else {
        Some(wanted)
    }
}

/// Publishes the settings to the renderers, each value where it differs.
pub fn bridge(
    dials: &SceneDials,
    interior: &InteriorConfig,
    gains: &LightGains,
    capture: Option<Single>,
    there: &SceneValues,
    interiors: &DynamicInteriors,
) -> (r: BridgeWrites)
    ensures
        r.water_quality == if there.water_quality == dials.water_quality {
            None
        } else {
            Some(dials.water_quality)
        },
        r.lava_light_gain == number_write(there.lava_light_gain, dials.lava_light_gain),
        r.fire_light_gain == number_write(there.fire_light_gain, gains.fire_light_gain),
        r.spell_light_gain == number_write(there.spell_light_gain, gains.spell_light_gain),
        r.moon_shadow_strength == number_write(
            there.moon_shadow_strength,
            dials.moon_shadow_strength,
        ),
        r.interiors == if same_interiors(*interiors, wanted_interiors(*interior, *gains, capture)) {
            None
        } else {
            Some(wanted_interiors(*interior, *gains, capture))
        },
{
    let want = DynamicInteriors {
        enabled: interior.light,
        ambient: interior.ambient,
        fill: interior.fill,
        exposure: interior.exposure,
        atten_scale: interior.atten_scale,
        room_gate: interior.room_gate,
        debug: interior.debug,
        flicker: gains.fire_flicker,
        night_gain: gains.night_gain,
        interior_gain: gains.interior_gain,
        daylight: match capture {
            Some(daylight) => daylight,
            None => gains.interior_daylight,
        },
        bake_floor: gains.interior_bake_floor,
    };
    BridgeWrites {
        water_quality: if there.water_quality == dials.water_quality {
            None
        } else {
            Some(dials.water_quality)
        },
        lava_light_gain: write_number(there.lava_light_gain, dials.lava_light_gain),
        fire_light_gain: write_number(there.fire_light_gain, gains.fire_light_gain),
        spell_light_gain: write_number(there.spell_light_gain, gains.spell_light_gain),
        moon_shadow_strength: write_number(there.moon_shadow_strength, dials.moon_shadow_strength),
        interiors: if interiors_agree(interiors, &want) {
            None
        } else {
            Some(want)
        },
    }
}

/// What has just been published is left alone: a number that is one is written once.
pub proof fn a_published_value_is_left_alone(wanted: Single)
    requires
        !wanted.not_a_number(),
    ensures
        number_write(wanted, wanted) is None,
{
}

/// The daylight that a capture pins: in a development build under capture, the number asked for,
/// where it is finite, held to zero and one.
pub open spec fn pinned_daylight(dev: bool, capturing: bool, asked: Option<Single>) -> Option<Single> {
    match asked {
        Some(v) if dev && capturing && v.finite() => Some(
            v.clamped(Single { bits: ZERO_BITS }, Single { bits: ONE_BITS }),
        ),
        _ => None,
    }
}

/// Reads the daylight that a capture pins.
pub fn capture_daylight(dev: bool, capturing: bool, asked: Option<Single>) -> (r: Option<Single>)
    ensures
        r == pinned_daylight(dev, capturing, asked),
{
    if !dev || !capturing {
        return None;
    }
    let zero = Single { bits: ZERO_BITS };
    let one = Single { bits: ONE_BITS };
    match asked {
        Some(v) => if v.is_finite() {
            Some(v.clamp(zero, one))
        } else {
            None
        },
        None => None,
    }
}

/// The tier of foliage wind that a capture pins, in a development build only.
pub fn foliage_wind_pin(dev: bool, pinned: Option<u8>) -> (r: Option<u8>)
    ensures
        r == if dev {
            pinned
        } else {
            None
        },
{
    if dev {
        pinned
    } else {
        None
    }
}

/// The renderers' values that the graphics programme's own settings reach.
#[derive(Clone, Copy, Debug, PartialEq, Eq, Structural)]
pub struct GfxState {
    pub sky_dither: bool,
    pub foliage_wind: u8,
    pub rain_surfaces: bool,
}

/// What a changed setting writes.
#[derive(Clone, Copy, Debug)]
pub enum GfxWrite {
    /// Nothing.
    Nothing,
    SkyDither(bool),
    FoliageWind(u8),
    /// The fog takes the number as it stands.
    FogModel(Single),
    RainSurfaces(bool),
}

/// The tier of foliage wind that a setting asks for: the pinned one, else the number, each held to
/// the tiers there are.
pub open spec fn wind_tier(pin: Option<u8>, number: Single) -> int {
    match pin {
        Some(p) => if p > MAX_WIND {
            MAX_WIND as int
        } else {
            p as int
        },
        None => number.clamped(Single { bits: ZERO_BITS }, Single { bits: TWO_BITS }).count(
            u8::MAX as int,
        ),
    }
}

/// What a changed setting writes, by its lowercased name: a switch is on from one half up.
pub open spec fn gfx_write(
    key: Seq<char>,
    number: Single,
    pin: Option<u8>,
    state: GfxState,
) -> GfxWrite {
    let on = (Single { bits: HALF_BITS }).at_most(number);
    if key == "skydither"@ {
        if state.sky_dither == on {
            GfxWrite::Nothing
        } else {
            GfxWrite::SkyDither(on)
        }
    } else if key == "foliagewind"@ {
        if state.foliage_wind == wind_tier(pin, number) {
            GfxWrite::Nothing
        } else {
            GfxWrite::FoliageWind(wind_tier(pin, number) as u8)
        }
    } else if key == "fogmodel"@ {
        GfxWrite::FogModel(number)
    } else if key == "rainsurfaces"@ {
        if state.rain_surfaces == on {
            GfxWrite::Nothing
        } else {
            GfxWrite::RainSurfaces(on)
        }
    } else {
        GfxWrite::Nothing
    }
}

/// Decides what a changed setting writes.
pub fn on_cvar(key: &str, number: Single, pin: Option<u8>, state: &GfxState) -> (r: GfxWrite)
    ensures
        r == gfx_write(key@, number, pin, *state),
{
    let half = Single { bits: HALF_BITS };
    let zero = Single { bits: ZERO_BITS };
    let two = Single { bits: TWO_BITS };
    let on = half.is_at_most(number);
    if same_text(key, "skydither") {
        if state.sky_dither == on {
            GfxWrite::Nothing
        } else {
            GfxWrite::SkyDither(on)
        }
    } else if same_text(key, "foliagewind") {
        let want: u8 = match pin {
            Some(p) => if p > MAX_WIND {
                MAX_WIND
            } else {
                p
            },
            None => number.clamp(zero, two).to_step(),
        };
        if state.foliage_wind == want {
            GfxWrite::Nothing
        } else {
            GfxWrite::FoliageWind(want)
        }
    } else if same_text(key, "fogmodel") {
        GfxWrite::FogModel(number)
    } else if same_text(key, "rainsurfaces") {
        if state.rain_surfaces == on {
            GfxWrite::Nothing
        } else {
            GfxWrite::RainSurfaces(on)
        }
    } else {
        GfxWrite::Nothing
    }
}

/// Publishes the sky's tier: the pinned one, else the setting's, held to the highest there is,
/// and only where it differs.
pub fn sky_bridge(setting: u8, pin: Option<u8>, highest: u8, there: u8) -> (r: Option<u8>)
    ensures
        ({
            let asked = match pin {
                Some(p) => p,
                None => setting,
            };
            let want = if asked > highest {
                highest
            } else {
                asked
            };
            r == if there == want {
                None
            } else {
                Some(want)
            }
        }),
{
    let asked: u8 = match pin {
        Some(p) => p,
        None => setting,
    };
    let want: u8 = if asked > highest {
        highest
    } else {
        asked
    };
    if there == want {
        None
    } else {
        Some(want)
    }
}

/// Names the texture filter of a mode, for the log.
pub fn filter_name(mode: u32) -> (r: &'static str)
    ensures
        r@ == if mode == 3 {
            "bilinear + nearest-mip select, aniso off"@
        } else if mode == 4 {
            "trilinear, aniso off"@
        } else {
            "trilinear + aniso"@
        },
{
    if mode == 3 {
        "bilinear + nearest-mip select, aniso off"
    } else if mode == 4 {
        "trilinear, aniso off"
    } else {
        "trilinear + aniso"
    }
}

} // verus!
