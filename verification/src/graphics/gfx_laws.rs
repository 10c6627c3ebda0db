//! What holds of every way from a graphics setting to its renderer.
use crate::cvars::knobs::{InteriorConfig, LightGains};
use crate::cvars::registered::Registered;
use crate::graphics::bridges::{
    bridge, capture_daylight, filter_name, foliage_wind_pin, on_cvar, sky_bridge, BridgeWrites,
    DynamicInteriors, GfxState, GfxWrite, SceneDials, SceneValues,
};
use crate::graphics::panel::{
    all_said, apply_preset, debug_knobs, default_of, fire_knobs, heading, interior_knobs, knobs_of,
    night_knobs, options_of, reset, reset_all, row, sun_knobs, torch_knobs, CvarWrite, Options,
    PanelEdit, PanelGroup, PanelKnob, Preset,
};
use crate::single::{lemma_whole, whole_part_grows, Single, ZERO_BITS};
use crate::text::decimal_digits;
use vstd::arithmetic::power2::{lemma2_to64, lemma_pow2_pos, pow2};
use vstd::prelude::*;

verus! {

/// A renderer's number after a pass is the setting's: it is written where it was another, and
/// what is written is the setting.
pub open spec fn follows(written: Option<Single>, there: Single, setting: Single) -> bool {
    &&& written matches Some(number) ==> number == setting && !there.same_number(setting)
    &&& written is None ==> there.same_number(setting)
}

/// After a pass of the bridge every renderer goes by its own setting: water, lava and moon shadows
/// by theirs, fires and spells by their gains.
pub proof fn every_renderer_goes_by_its_own_setting(
    dials: &SceneDials,
    interior: &InteriorConfig,
    gains: &LightGains,
    capture: Option<Single>,
    there: &SceneValues,
    interiors: &DynamicInteriors,
    r: BridgeWrites,
)
    requires
        call_ensures(bridge, (dials, interior, gains, capture, there, interiors), r),
    ensures
        r.water_quality matches Some(quality) ==> quality == dials.water_quality && there.water_quality != quality,
        r.water_quality is None ==> there.water_quality == dials.water_quality,
        follows(r.lava_light_gain, there.lava_light_gain, dials.lava_light_gain),
        follows(r.fire_light_gain, there.fire_light_gain, gains.fire_light_gain),
        follows(r.spell_light_gain, there.spell_light_gain, gains.spell_light_gain),
        follows(r.moon_shadow_strength, there.moon_shadow_strength, dials.moon_shadow_strength),
{
}

/// What the interior renderer is given is what the settings say, each number under its own name;
/// only a capture's daylight stands before the setting's.
pub proof fn the_interior_renderer_is_given_its_settings(
    dials: &SceneDials,
    interior: &InteriorConfig,
    gains: &LightGains,
    capture: Option<Single>,
    there: &SceneValues,
    interiors: &DynamicInteriors,
    r: BridgeWrites,
)
    requires
        call_ensures(bridge, (dials, interior, gains, capture, there, interiors), r),
    ensures
        r.interiors matches Some(given) ==> {
            &&& given.enabled == interior.light
            &&& given.ambient == interior.ambient
            &&& given.fill == interior.fill
            &&& given.exposure == interior.exposure
            &&& given.atten_scale == interior.atten_scale
            &&& given.room_gate == interior.room_gate
            &&& given.debug == interior.debug
            &&& given.flicker == gains.fire_flicker
            &&& given.night_gain == gains.night_gain
            &&& given.interior_gain == gains.interior_gain
            &&& given.bake_floor == gains.interior_bake_floor
            &&& capture matches Some(daylight) ==> given.daylight == daylight
            &&& capture is None ==> given.daylight == gains.interior_daylight
        },
        r.interiors is None ==> {
            &&& interiors.enabled == interior.light
            &&& interiors.ambient.same_number(interior.ambient)
            &&& interiors.fill.same_number(interior.fill)
            &&& interiors.exposure.same_number(interior.exposure)
            &&& interiors.atten_scale.same_number(interior.atten_scale)
            &&& interiors.room_gate == interior.room_gate
            &&& interiors.debug == interior.debug
            &&& interiors.flicker.same_number(gains.fire_flicker)
            &&& interiors.night_gain.same_number(gains.night_gain)
            &&& interiors.interior_gain.same_number(gains.interior_gain)
            &&& interiors.bake_floor.same_number(gains.interior_bake_floor)
            &&& capture matches Some(daylight) ==> interiors.daylight.same_number(daylight)
            &&& capture is None ==> interiors.daylight.same_number(gains.interior_daylight)
        },
{
}

/// A second pass over what the first has written writes nothing more, where every setting is a
/// number.
pub proof fn a_second_pass_writes_nothing(
    dials: &SceneDials,
    interior: &InteriorConfig,
    gains: &LightGains,
    capture: Option<Single>,
    there: &SceneValues,
    interiors: &DynamicInteriors,
    first: BridgeWrites,
    again: BridgeWrites,
)
    requires
        call_ensures(bridge, (dials, interior, gains, capture, there, interiors), first),
        call_ensures(
            bridge,
            (
                dials,
                interior,
                gains,
                capture,
                &(SceneValues {
                    water_quality: first.water_quality.unwrap_or(there.water_quality),
                    lava_light_gain: first.lava_light_gain.unwrap_or(there.lava_light_gain),
                    fire_light_gain: first.fire_light_gain.unwrap_or(there.fire_light_gain),
                    spell_light_gain: first.spell_light_gain.unwrap_or(there.spell_light_gain),
                    moon_shadow_strength: first.moon_shadow_strength.unwrap_or(there.moon_shadow_strength),
                }),
                &first.interiors.unwrap_or(*interiors),
            ),
            again,
        ),
        !dials.lava_light_gain.not_a_number() && !dials.moon_shadow_strength.not_a_number(),
        !gains.fire_light_gain.not_a_number() && !gains.spell_light_gain.not_a_number(),
        !interior.ambient.not_a_number() && !interior.fill.not_a_number() && !interior.exposure.not_a_number()
            && !interior.atten_scale.not_a_number(),
        !gains.fire_flicker.not_a_number() && !gains.night_gain.not_a_number() && !gains.interior_gain.not_a_number()
            && !gains.interior_bake_floor.not_a_number() && !gains.interior_daylight.not_a_number(),
        capture matches Some(daylight) ==> !daylight.not_a_number(),
    ensures
        again.water_quality is None,
        again.lava_light_gain is None,
        again.fire_light_gain is None,
        again.spell_light_gain is None,
        again.moon_shadow_strength is None,
        again.interiors is None,
{
}

/// A capture pins a daylight only in a development build, only while capturing, and only one that
/// is a finite number, which it holds between none and all.
pub proof fn a_daylight_is_pinned_under_capture_alone(dev: bool, capturing: bool, asked: Single, r: Option<Single>, none: Option<Single>)
    requires
        call_ensures(capture_daylight, (dev, capturing, Some(asked)), r),
        call_ensures(capture_daylight, (dev, capturing, None), none),
    ensures
        none is None,
        r is Some <==> dev && capturing && asked.finite(),
        r matches Some(pinned) ==> {
            let zero = Single { bits: 0 };
            let one = Single { bits: 0x3F80_0000 };
            &&& zero.at_most(asked) && asked.at_most(one) ==> pinned == asked
            &&& asked.below(zero) ==> pinned == zero
            &&& one.below(asked) ==> pinned == one
        },
{
    reveal(Single::clamped);
}

/// The tier of foliage wind is pinned in a development build alone.
pub proof fn wind_is_pinned_in_development_alone(pinned: Option<u8>, dev: Option<u8>, shipped: Option<u8>)
    requires
        call_ensures(foliage_wind_pin, (true, pinned), dev),
        call_ensures(foliage_wind_pin, (false, pinned), shipped),
    ensures
        dev == pinned,
        shipped is None,
{
}

proof fn lemma_wind(number: Single)
    ensures
        ({
            let tier = number.clamped(Single { bits: ZERO_BITS }, Single { bits: 0x4000_0000 }).count(255);
            &&& 0 <= tier <= 2
            &&& !number.not_a_number() && !number.negative() && number.units() < pow2(149) ==> tier == 0
            &&& number.negative() || number.not_a_number() ==> tier == 0
            &&& (Single { bits: 0x4000_0000 }).at_most(number) ==> tier == 2
            &&& !number.not_a_number() && !number.negative() && pow2(149) <= number.units() < 2 * pow2(149) ==> tier
                == 1
        }),
{
    reveal(Single::clamped);
    reveal(Single::count);
    lemma2_to64();
    lemma_pow2_pos(149);
    let two = Single { bits: 0x4000_0000 };
    lemma_whole(two, 2, 128);
    let p = pow2(149) as int;
    let inside = number.clamped(Single { bits: ZERO_BITS }, two);
    vstd::arithmetic::div_mod::lemma_div_by_multiple(2, p);
    if !inside.not_a_number() && !inside.negative() {
        whole_part_grows(inside, two);
        let u = inside.units() as int;
        if u < p {
            vstd::arithmetic::div_mod::lemma_basic_div(u, p);
        } else if u < 2 * p {
            vstd::arithmetic::div_mod::lemma_fundamental_div_mod_converse(u, p, 1, u - p);
        }
    }
    if !number.not_a_number() && !number.negative() && two.below(number) {
        whole_part_grows(two, number);
    }
}

/// A changed setting writes its own renderer and no other: a switch is on from one half up, the
/// fog takes its number as it stands, and the wind takes a pinned tier before the number's whole
/// part, each held to two. A renderer that stands there is not written, and a name that is none of
/// the four writes nothing.
pub proof fn a_changed_setting_writes_its_own_renderer(
    key: &str,
    number: Single,
    pin: Option<u8>,
    state: &GfxState,
    r: GfxWrite,
)
    requires
        call_ensures(on_cvar, (key, number, pin, state), r),
    ensures
        r matches GfxWrite::SkyDither(on) ==> key@ == "skydither"@ && (on <==> (Single { bits: 0x3F00_0000 }).at_most(
            number,
        )) && on != state.sky_dither,
        r matches GfxWrite::RainSurfaces(on) ==> key@ == "rainsurfaces"@ && (on <==> (Single {
            bits: 0x3F00_0000,
        }).at_most(number)) && on != state.rain_surfaces,
        r matches GfxWrite::FogModel(taken) ==> key@ == "fogmodel"@ && taken == number,
        r matches GfxWrite::FoliageWind(tier) ==> key@ == "foliagewind"@ && tier <= 2 && tier != state.foliage_wind && (
        pin matches Some(p) ==> (p <= 2 ==> tier == p) && (p > 2 ==> tier == 2)),
        key@ == "fogmodel"@ ==> r is FogModel,
        key@ == "skydither"@ && state.sky_dither != (Single { bits: 0x3F00_0000 }).at_most(number) ==> r is SkyDither,
        key@ == "rainsurfaces"@ && state.rain_surfaces != (Single { bits: 0x3F00_0000 }).at_most(number)
            ==> r is RainSurfaces,
        key@ == "foliagewind"@ ==> (pin matches Some(p) ==> (p <= 2 && p != state.foliage_wind ==> r is FoliageWind)),
        key@ == "foliagewind"@ && pin is None && (Single { bits: 0x4000_0000 }).at_most(number) ==> (state.foliage_wind
            != 2 ==> r == GfxWrite::FoliageWind(2)),
        key@ == "foliagewind"@ && pin is None && (number.negative() || number.not_a_number() || number.units()
            < pow2(149)) ==> (state.foliage_wind != 0 ==> r == GfxWrite::FoliageWind(0)),
        key@ == "foliagewind"@ && pin is None && !number.not_a_number() && !number.negative() && pow2(149)
            <= number.units() < 2 * pow2(149) ==> (state.foliage_wind != 1 ==> r == GfxWrite::FoliageWind(1)),
        key@ != "skydither"@ && key@ != "rainsurfaces"@ && key@ != "fogmodel"@ && key@ != "foliagewind"@ ==> r
            == GfxWrite::Nothing,
{
    lemma_wind(number);
    reveal_strlit("skydither");
    reveal_strlit("rainsurfaces");
    reveal_strlit("fogmodel");
    reveal_strlit("foliagewind");
    assert("skydither"@.len() == 9 && "rainsurfaces"@.len() == 12 && "fogmodel"@.len() == 8 && "foliagewind"@.len()
        == 11);
}

/// The sky's tier is the pinned one where there is one and else the setting's, never above the
/// highest there is, and it is published where another was.
pub proof fn the_sky_takes_the_pinned_tier_first(setting: u8, pin: u8, highest: u8, there: u8, pinned: Option<u8>, free: Option<u8>)
    requires
        call_ensures(sky_bridge, (setting, Some(pin), highest, there), pinned),
        call_ensures(sky_bridge, (setting, None, highest, there), free),
    ensures
        pinned matches Some(tier) ==> tier != there && tier <= highest && (pin <= highest ==> tier == pin) && (pin
            > highest ==> tier == highest),
        pinned is None ==> there <= highest && (pin <= highest ==> there == pin) && (pin > highest ==> there == highest),
        free matches Some(tier) ==> tier != there && tier <= highest && (setting <= highest ==> tier == setting) && (
        setting > highest ==> tier == highest),
        free is None ==> there <= highest && (setting <= highest ==> there == setting) && (setting > highest ==> there
            == highest),
{
}

/// The three texture filters have three names: modes three and four name themselves, and every
/// other mode is the full filter.
pub proof fn three_filters_have_three_names(mode: u32, r: &'static str, three: &'static str, four: &'static str)
    requires
        call_ensures(filter_name, (mode,), r),
        call_ensures(filter_name, (3,), three),
        call_ensures(filter_name, (4,), four),
    ensures
        three@ != four@,
        r@ == three@ <==> mode == 3,
        r@ == four@ <==> mode == 4,
        mode != 3 && mode != 4 ==> r@ == "trilinear + aniso"@,
{
    reveal_strlit("bilinear + nearest-mip select, aniso off");
    reveal_strlit("trilinear, aniso off");
    reveal_strlit("trilinear + aniso");
    assert("bilinear + nearest-mip select, aniso off"@.len() == 40);
    assert("trilinear, aniso off"@.len() == 20);
    assert("trilinear + aniso"@.len() == 17);
}

/// The row at `at` is the first that registers `name`.
pub open spec fn first_row(rows: Seq<Registered>, name: Seq<char>, at: int) -> bool {
    &&& 0 <= at < rows.len()
    &&& rows[at].name@ == name
    &&& forall|k: int| 0 <= k < at ==> (#[trigger] rows[k]).name@ != name
}

proof fn lemma_first_default(rows: Seq<Registered>, name: Seq<char>, at: int)
    requires
        first_row(rows, name, at),
    ensures
        default_of(rows, name) == rows[at].default@,
    decreases at,
{
    if at > 0 {
        assert(rows[0].name@ != name);
        let rest = rows.drop_first();
        assert(rest[at - 1] == rows[at]);
        assert forall|k: int| 0 <= k < at - 1 implies (#[trigger] rest[k]).name@ != name by {
            assert(rest[k] == rows[k + 1]);
        }
        lemma_first_default(rest, name, at - 1);
    }
}

proof fn lemma_said(writes: Seq<CvarWrite>, k: int)
    requires
        0 <= k < writes.len(),
    ensures
        all_said(writes).len() == writes.len(),
        all_said(writes)[k] == (writes[k].name@, writes[k].value@),
{
}

/// A reset writes each setting once, in its place, under its own name and with the default of the
/// first row that registers it.
pub proof fn a_reset_writes_each_setting_its_default(
    knobs: &Vec<PanelKnob>,
    rows: &Vec<Registered>,
    r: Vec<CvarWrite>,
    k: int,
    at: int,
)
    requires
        call_ensures(reset, (knobs, rows), r),
        0 <= k < knobs@.len(),
        first_row(rows@, knobs@[k].name@, at),
    ensures
        r@.len() == knobs@.len(),
        r@[k].name@ == knobs@[k].name@,
        r@[k].value@ == rows@[at].default@,
{
    assert(all_said(r@).len() == r@.len());
    lemma_said(r@, k);
    lemma_first_default(rows@, knobs@[k].name@, at);
}

/// A full reset reaches every setting of every group of the panel, and gives each the default of
/// the first row that registers it.
pub proof fn a_full_reset_reaches_every_group(
    rows: &Vec<Registered>,
    r: Vec<CvarWrite>,
    group: PanelGroup,
    knobs: Vec<PanelKnob>,
    k: int,
    at: int,
)
    requires
        call_ensures(reset_all, (rows,), r),
        call_ensures(knobs_of, (group,), knobs),
        0 <= k < knobs@.len(),
        first_row(rows@, knobs@[k].name@, at),
    ensures
        exists|w: int|
            0 <= w < r@.len() && (#[trigger] r@[w]).name@ == knobs@[k].name@ && r@[w].value@ == rows@[at].default@,
{
    let a = interior_knobs().len() as int;
    let b = a + fire_knobs().len();
    let c = b + torch_knobs().len();
    let d = c + sun_knobs().len();
    let e = d + night_knobs().len();
    let w = match group {
        PanelGroup::Interior => k,
        PanelGroup::Fire => a + k,
        PanelGroup::Torch => b + k,
        PanelGroup::Sun => c + k,
        PanelGroup::Night => d + k,
        PanelGroup::Debug => e + k,
    };
    let all = interior_knobs() + fire_knobs() + torch_knobs() + sun_knobs() + night_knobs() + debug_knobs();
    assert(all[w] == knobs@[k]);
    assert(all_said(r@).len() == r@.len());
    lemma_said(r@, w);
    lemma_first_default(rows@, knobs@[k].name@, at);
    assert(r@[w].name@ == knobs@[k].name@);
}

/// The presets write the gain, the ambient light, the fill and the bake floor, in this order: a
/// dim room and a bright one with values of their own, the default one with the registered
/// defaults.
pub proof fn a_preset_writes_its_own_values(
    rows: &Vec<Registered>,
    dim: Vec<CvarWrite>,
    bright: Vec<CvarWrite>,
    plain: Vec<CvarWrite>,
    k: int,
    at: int,
)
    requires
        call_ensures(apply_preset, (Preset::Dim, rows), dim),
        call_ensures(apply_preset, (Preset::Bright, rows), bright),
        call_ensures(apply_preset, (Preset::Default, rows), plain),
        0 <= k < 4,
        first_row(rows@, dim@[k].name@, at),
    ensures
        dim@.len() == 4 && bright@.len() == 4 && plain@.len() == 4,
        dim@[k].name@ == bright@[k].name@ && bright@[k].name@ == plain@[k].name@,
        dim@[k].name@ == seq!["interiorGain"@, "interiorAmbient"@, "interiorFill"@, "interiorBakeFloor"@][k],
        plain@[k].value@ == rows@[at].default@,
        dim@[k].value@ == seq!["0.5"@, "0.015"@, "0.08"@, "0.08"@][k],
        bright@[k].value@ == seq!["1.0"@, "0.04"@, "0.16"@, "0.2"@][k],
{
    assert(all_said(dim@).len() == dim@.len());
    assert(all_said(bright@).len() == bright@.len());
    assert(all_said(plain@).len() == plain@.len());
    lemma_said(dim@, k);
    lemma_said(bright@, k);
    lemma_said(plain@, k);
    lemma_first_default(rows@, dim@[k].name@, at);
}

/// The lists a setting is chosen from go upwards, and a map's edge doubles from one entry to the
/// next.
pub proof fn the_lists_go_upwards(options: Options, r: Vec<u32>, k: int)
    requires
        call_ensures(options_of, (options,), r),
        0 <= k < r@.len() - 1,
    ensures
        r@[k] < r@[k + 1],
        options == Options::MapSizes ==> r@.len() == 3 && r@[0] == 1024 && r@[k + 1] == 2 * r@[k],
        options == Options::DebugModes ==> r@.len() == 5 && r@[0] == 0 && r@[k + 1] == r@[k] + 1,
{
}

/// No two groups of the panel share a heading.
pub proof fn every_group_has_its_own_heading(a: PanelGroup, b: PanelGroup, of_a: &'static str, of_b: &'static str)
    requires
        call_ensures(heading, (a,), of_a),
        call_ensures(heading, (b,), of_b),
        of_a@ == of_b@,
    ensures
        a == b,
{
    reveal_strlit("Interior light");
    reveal_strlit("Fire");
    reveal_strlit("Torch shadows");
    reveal_strlit("Sun shadows");
    reveal_strlit("Night");
    reveal_strlit("Debug");
    assert("Interior light"@.len() == 14 && "Fire"@.len() == 4 && "Torch shadows"@.len() == 13);
    assert("Sun shadows"@.len() == 11 && "Night"@.len() == 5 && "Debug"@.len() == 5);
    assert("Night"@[0] == 'N' && "Debug"@[0] == 'D');
}

/// An edit writes the setting it was made to: a ticked box one, a cleared one zero, a choice the
/// number chosen, a slider the text it shows, and nothing where nothing was touched.
pub proof fn an_edit_writes_the_setting_it_was_made_to(knob: &PanelKnob, edit: PanelEdit, r: Option<CvarWrite>)
    requires
        call_ensures(row, (knob, edit), r),
    ensures
        r is None <==> edit is Untouched,
        r matches Some(write) ==> write.name == knob.name,
        edit == PanelEdit::Ticked(true) ==> (r matches Some(write) && write.value@ == "1"@),
        edit == PanelEdit::Ticked(false) ==> (r matches Some(write) && write.value@ == "0"@),
        edit matches PanelEdit::Chosen(option) ==> (r matches Some(write) && write.value@ == decimal_digits(
            option as nat,
        )),
        edit matches PanelEdit::Slid(text) ==> (r matches Some(write) && write.value@ == text@),
{
}

} // verus!
