//! What holds of every setting write.
use crate::cvars::knobs::{
    after_display, after_follow, after_gains, after_interior, after_look, after_scene,
    after_shadow, after_sound, after_view, after_write, zoom_level, ClutterDensity,
    DisplayConfig, FollowConfig, InteriorConfig, Knobs, LightGains, Limits, LookConfig, Reading,
    SceneConfig, ShadowConfig, SoundConfig, ViewConfig, EIGHT_BITS, FIFTH_BITS, FIVE_BITS,
    FORTY_BITS, FOUR_BITS, HALF_BITS, HUNDREDTH_BITS, MAX_ANISO, MAX_ENTITY_RATE,
    MAX_INTERIOR_DEBUG, MAX_MINIMAP_ZOOM, MAX_TORCH_CASTERS, MAX_TORCH_DYNAMIC, MAX_WEATHER_STEP,
    NEAR_CLIP_TOP_BITS, NINETY_BITS, ONE_AND_A_HALF_BITS, QUARTER_BITS, TENTH_BITS, THREE_BITS,
    THREE_HUNDRED_SIXTY_BITS, TWO_BITS, TWO_HUNDRED_BITS, TWO_HUNDRED_FIFTY_SIX_BITS,
    TWO_HUNDRED_SEVENTY_BITS,
};
use crate::cvars::persist::{loaded_knobs, loads, synced_knobs};
use crate::cvars::registered::Registered;
use crate::cvars::row_laws::{lemma_ground_cover_is_the_scenes, numbers_are_taken_by_name};
use crate::shadow::quality::{on_ladder, MAX_SHADOW_FILTER, MAX_SHADOW_RATE};
use crate::single::{
    lemma_five, lemma_power_of_two, whole_part_grows, Single, ONE_BITS, ZERO_BITS,
};
use crate::text::lower;
use vstd::arithmetic::power2::{lemma2_to64, lemma_pow2_pos, pow2};
use vstd::prelude::*;

verus! {

/// No number, or one between the two ends.
pub open spec fn ranged(v: Single, low: Single, high: Single) -> bool {
    v.not_a_number() || (low.at_most(v) && v.at_most(high))
}

proof fn lemma_zoom_level(v: Single)
    ensures
        0 <= zoom_level(v) <= MAX_MINIMAP_ZOOM,
{
    reveal(Single::clamped);
    reveal(Single::count);
    let held = v.clamped(Single { bits: ZERO_BITS }, Single { bits: FIVE_BITS });
    if !held.not_a_number() && !held.negative() {
        whole_part_grows(held, Single { bits: FIVE_BITS });
        lemma_five();
    }
}

/// The sound settings stand inside their ranges.
pub open spec fn sound_in_range(k: SoundConfig) -> bool {
    &&& ranged(k.master, Single { bits: ZERO_BITS }, Single { bits: ONE_BITS })
    &&& ranged(k.sfx, Single { bits: ZERO_BITS }, Single { bits: ONE_BITS })
    &&& ranged(k.music, Single { bits: ZERO_BITS }, Single { bits: ONE_BITS })
    &&& ranged(k.ambience, Single { bits: ZERO_BITS }, Single { bits: ONE_BITS })
}

proof fn lemma_sound_in_range(k: SoundConfig, key: Seq<char>, v: Single)
    requires
        sound_in_range(k),
    ensures
        after_sound(k, key, v) matches Some(next) ==> sound_in_range(next),
{
    reveal(Single::clamped);
}

/// The view and click settings stand inside their ranges.
pub open spec fn view_in_range(k: ViewConfig, limits: Limits) -> bool {
    &&& ranged(k.ui_scale, Single { bits: HALF_BITS }, Single { bits: ONE_AND_A_HALF_BITS })
    &&& ranged(k.farclip, limits.farclip.0, limits.farclip.1)
    &&& ranged(k.nearclip, Single { bits: HUNDREDTH_BITS }, Single { bits: NEAR_CLIP_TOP_BITS })
}

proof fn lemma_view_in_range(k: ViewConfig, key: Seq<char>, v: Single, limits: Limits)
    requires
        view_in_range(k, limits),
        limits.wf(),
    ensures
        after_view(k, key, v, limits) matches Some(next) ==> view_in_range(next, limits),
{
    reveal(Single::clamped);
}

/// The mouse look settings stand inside their ranges.
pub open spec fn look_in_range(k: LookConfig) -> bool {
    &&& ranged(k.sensitivity, Single { bits: HALF_BITS }, Single { bits: ONE_AND_A_HALF_BITS })
    &&& ranged(k.yaw_speed, Single { bits: TENTH_BITS }, Single { bits: THREE_HUNDRED_SIXTY_BITS })
    &&& ranged(k.pitch_speed, Single { bits: TENTH_BITS }, Single { bits: THREE_HUNDRED_SIXTY_BITS })
}

proof fn lemma_look_in_range(k: LookConfig, key: Seq<char>, v: Single)
    requires
        look_in_range(k),
    ensures
        after_look(k, key, v) matches Some(next) ==> look_in_range(next),
{
    reveal(Single::clamped);
}

/// The camera follow settings stand inside their ranges.
pub open spec fn follow_in_range(k: FollowConfig) -> bool {
    &&& ranged(k.distance_factor, Single { bits: ONE_BITS }, Single { bits: TWO_BITS })
    &&& ranged(k.yaw_speed, Single { bits: NINETY_BITS }, Single { bits: TWO_HUNDRED_SEVENTY_BITS })
}

proof fn lemma_follow_in_range(k: FollowConfig, key: Seq<char>, v: Single, reading: Reading)
    requires
        follow_in_range(k),
    ensures
        after_follow(k, key, v, reading) matches Some(next) ==> follow_in_range(next),
{
    reveal(Single::clamped);
}

/// The scene settings stand inside their ranges.
pub open spec fn scene_in_range(k: SceneConfig, limits: Limits) -> bool {
    &&& match k.clutter {
        ClutterDensity::Stop(v) => ranged(v, Single { bits: ZERO_BITS }, Single { bits: TWO_BITS }),
        ClutterDensity::Cells(v) => ranged(v, Single { bits: ONE_BITS }, Single { bits: TWO_HUNDRED_FIFTY_SIX_BITS }),
    }
    &&& k.weather_density <= MAX_WEATHER_STEP
    &&& ranged(k.display_gamma, limits.gamma.0, limits.gamma.1)
    &&& k.outdoor_zoom <= MAX_MINIMAP_ZOOM
    &&& k.inside_zoom <= MAX_MINIMAP_ZOOM
}

proof fn lemma_scene_in_range(k: SceneConfig, key: Seq<char>, v: Single, limits: Limits)
    requires
        scene_in_range(k, limits),
        limits.wf(),
    ensures
        after_scene(k, key, v, limits) matches Some(next) ==> scene_in_range(next, limits),
{
    reveal(Single::clamped);
    lemma_zoom_level(v);
}

/// The shadow settings stand inside their ranges.
pub open spec fn shadow_in_range(k: ShadowConfig) -> bool {
    &&& ranged(k.shadow_distance, Single { bits: FORTY_BITS }, Single { bits: TWO_HUNDRED_BITS })
    &&& on_ladder(k.shadow_map_size as int)
    &&& k.shadow_filter <= MAX_SHADOW_FILTER
    &&& k.character_shadow_rate <= MAX_SHADOW_RATE
    &&& k.world_shadow_rate <= MAX_SHADOW_RATE
    &&& ranged(k.shadow_caster_reach, Single { bits: QUARTER_BITS }, Single { bits: TWO_BITS })
}

proof fn lemma_shadow_in_range(k: ShadowConfig, key: Seq<char>, v: Single)
    requires
        shadow_in_range(k),
    ensures
        after_shadow(k, key, v) matches Some(next) ==> shadow_in_range(next),
{
    reveal(Single::clamped);
}

/// The interior settings stand inside their ranges.
pub open spec fn interior_in_range(k: InteriorConfig) -> bool {
    &&& ranged(k.ambient, Single { bits: ZERO_BITS }, Single { bits: ONE_BITS })
    &&& ranged(k.fill, Single { bits: ZERO_BITS }, Single { bits: TWO_BITS })
    &&& ranged(k.exposure, Single { bits: QUARTER_BITS }, Single { bits: EIGHT_BITS })
    &&& ranged(k.atten_scale, Single { bits: ZERO_BITS }, Single { bits: EIGHT_BITS })
    &&& 1 <= k.shadow_casters <= MAX_TORCH_CASTERS
    &&& 1 <= k.shadow_dynamic <= MAX_TORCH_DYNAMIC
    &&& k.shadow_entity_rate <= MAX_ENTITY_RATE
    &&& ranged(k.shadow_soft, Single { bits: HALF_BITS }, Single { bits: THREE_BITS })
    &&& ranged(k.torch_strength, Single { bits: ZERO_BITS }, Single { bits: ONE_BITS })
    &&& k.debug <= MAX_INTERIOR_DEBUG
}

proof fn lemma_interior_in_range(k: InteriorConfig, key: Seq<char>, v: Single)
    requires
        interior_in_range(k),
    ensures
        after_interior(k, key, v) matches Some(next) ==> interior_in_range(next),
{
    reveal(Single::clamped);
}

/// The light gains stand inside their ranges.
pub open spec fn gains_in_range(k: LightGains) -> bool {
    &&& ranged(k.night_gain, Single { bits: FIFTH_BITS }, Single { bits: ONE_AND_A_HALF_BITS })
    &&& ranged(k.interior_gain, Single { bits: FIFTH_BITS }, Single { bits: ONE_AND_A_HALF_BITS })
    &&& ranged(k.interior_daylight, Single { bits: ZERO_BITS }, Single { bits: ONE_BITS })
    &&& ranged(k.interior_bake_floor, Single { bits: ZERO_BITS }, Single { bits: ONE_BITS })
    &&& ranged(k.fire_light_gain, Single { bits: ZERO_BITS }, Single { bits: FOUR_BITS })
    &&& ranged(k.spell_light_gain, Single { bits: ZERO_BITS }, Single { bits: FOUR_BITS })
    &&& ranged(k.fire_flicker, Single { bits: ZERO_BITS }, Single { bits: TWO_BITS })
}

proof fn lemma_gains_in_range(k: LightGains, key: Seq<char>, v: Single)
    requires
        gains_in_range(k),
    ensures
        after_gains(k, key, v) matches Some(next) ==> gains_in_range(next),
{
    reveal(Single::clamped);
}

/// The display settings stand inside their ranges.
pub open spec fn display_in_range(k: DisplayConfig, limits: Limits) -> bool {
    &&& ranged(k.render_scale, limits.render_scale.0, limits.render_scale.1)
    &&& 1 <= k.aniso <= MAX_ANISO
}

proof fn lemma_display_in_range(k: DisplayConfig, key: Seq<char>, v: Single, reading: Reading, limits: Limits)
    requires
        display_in_range(k, limits),
        limits.wf(),
    ensures
        after_display(k, key, v, reading, limits) matches Some(next) ==> display_in_range(next, limits),
{
    reveal(Single::clamped);
}

/// Every knob with a range stands inside it, or holds no number.
pub open spec fn in_range(k: Knobs, limits: Limits) -> bool {
    &&& sound_in_range(k.sound)
    &&& view_in_range(k.view, limits)
    &&& look_in_range(k.look)
    &&& follow_in_range(k.follow)
    &&& scene_in_range(k.scene, limits)
    &&& shadow_in_range(k.shadow)
    &&& interior_in_range(k.interior)
    &&& gains_in_range(k.gains)
    &&& display_in_range(k.display, limits)
}

/// No write, however far out its number, takes a knob out of its range.
pub proof fn writes_stay_in_range(k: Knobs, name: Seq<char>, reading: Reading, limits: Limits)
    requires
        limits.wf(),
        in_range(k, limits),
    ensures
        after_write(k, name, reading, limits) matches Some(next) ==> in_range(next, limits),
{
    let key = lower(name);
    if let Some(v) = reading.number {
        lemma_sound_in_range(k.sound, key, v);
        lemma_view_in_range(k.view, key, v, limits);
        lemma_look_in_range(k.look, key, v);
        lemma_follow_in_range(k.follow, key, v, reading);
        lemma_scene_in_range(k.scene, key, v, limits);
        lemma_shadow_in_range(k.shadow, key, v);
        lemma_interior_in_range(k.interior, key, v);
        lemma_gains_in_range(k.gains, key, v);
        lemma_display_in_range(k.display, key, v, reading, limits);
    }
}

/// Reading a file in, whatever it holds, takes no knob out of its range.
pub proof fn loading_stays_in_range(
    start: Knobs,
    list: Seq<(Seq<char>, Seq<char>)>,
    session_owned: Seq<String>,
    rows: Seq<Registered>,
    readings: Seq<Reading>,
    limits: Limits,
    n: int,
)
    requires
        limits.wf(),
        in_range(start, limits),
    ensures
        in_range(loaded_knobs(start, list, session_owned, rows, readings, limits, n), limits),
    decreases n,
{
    if n > 0 {
        loading_stays_in_range(start, list, session_owned, rows, readings, limits, n - 1);
        let before = loaded_knobs(start, list, session_owned, rows, readings, limits, n - 1);
        writes_stay_in_range(before, list[n - 1].0, readings[n - 1], limits);
    }
}

/// What scripts write, however much of it, takes no knob out of its range.
pub proof fn syncing_stays_in_range(
    start: Knobs,
    changes: Seq<(String, Reading)>,
    limits: Limits,
    n: int,
)
    requires
        limits.wf(),
        in_range(start, limits),
    ensures
        in_range(synced_knobs(start, changes, limits, n), limits),
    decreases n,
{
    if n > 0 {
        syncing_stays_in_range(start, changes, limits, n - 1);
        let before = synced_knobs(start, changes, limits, n - 1);
        writes_stay_in_range(before, changes[n - 1].0@, changes[n - 1].1, limits);
    }
}

/// A file that the session owns whole, or that names no registered setting, leaves every knob as
/// it was.
pub proof fn a_file_without_a_say_changes_nothing(
    start: Knobs,
    list: Seq<(Seq<char>, Seq<char>)>,
    session_owned: Seq<String>,
    rows: Seq<Registered>,
    readings: Seq<Reading>,
    limits: Limits,
    n: int,
)
    requires
        n <= list.len(),
        forall|i: int| 0 <= i < list.len() ==> !loads((#[trigger] list[i]).0, session_owned, rows),
    ensures
        loaded_knobs(start, list, session_owned, rows, readings, limits, n) == start,
    decreases n,
{
    if n > 0 {
        a_file_without_a_say_changes_nothing(
            start,
            list,
            session_owned,
            rows,
            readings,
            limits,
            n - 1,
        );
        assert(!loads(list[n - 1].0, session_owned, rows));
    }
}

/// A name's case does not matter.
pub proof fn names_are_matched_without_case(k: Knobs, a: Seq<char>, b: Seq<char>, reading: Reading, limits: Limits)
    requires
        lower(a) == lower(b),
    ensures
        after_write(k, a, reading, limits) == after_write(k, b, reading, limits),
{
}

/// The two spellings of the ground cover are taken by the scene settings and write the density
/// and nothing else of them.
pub proof fn both_ground_cover_spellings_are_one_knob(k: SceneConfig, key: Seq<char>, v: Single, limits: Limits)
    requires
        key == "worlddetail"@ || key == "frilldensity"@,
    ensures
        after_scene(k, key, v, limits) matches Some(next) && next == (SceneConfig { clutter: next.clutter, ..k }),
{
}

/// The cells per chunk that a density stands for, in units of 2^-149: a sixteenth of them is the
/// density, and a stop's density is the number plus one.
pub open spec fn cells_per_chunk(density: ClutterDensity) -> nat {
    match density {
        ClutterDensity::Stop(v) => 16 * (v.units() + pow2(149)),
        ClutterDensity::Cells(v) => v.units(),
    }
}

proof fn lemma_stop_is_kept(v: Single)
    requires
        v.finite(),
        !v.negative(),
        v.units() <= 2 * pow2(149),
    ensures
        v.clamped(Single { bits: ZERO_BITS }, Single { bits: TWO_BITS }) == v,
{
    reveal(Single::clamped);
    lemma2_to64();
    lemma_power_of_two(Single { bits: TWO_BITS }, 1);
    if (Single { bits: TWO_BITS }).below(v) {
        whole_part_grows(Single { bits: TWO_BITS }, v);
    }
}

proof fn lemma_cells_are_kept(v: Single)
    requires
        v.finite(),
        !v.negative(),
        pow2(149) <= v.units() <= 256 * pow2(149),
    ensures
        v.clamped(Single { bits: ONE_BITS }, Single { bits: TWO_HUNDRED_FIFTY_SIX_BITS }) == v,
{
    reveal(Single::clamped);
    lemma2_to64();
    lemma_power_of_two(Single { bits: ONE_BITS }, 0);
    lemma_power_of_two(Single { bits: TWO_HUNDRED_FIFTY_SIX_BITS }, 8);
    if v.below(Single { bits: ONE_BITS }) {
        whole_part_grows(v, Single { bits: ONE_BITS });
    }
    if (Single { bits: TWO_HUNDRED_FIFTY_SIX_BITS }).below(v) {
        whole_part_grows(Single { bits: TWO_HUNDRED_FIFTY_SIX_BITS }, v);
    }
}

/// A write of the panel's detail, and one of the cells per chunk, that name one density leave the
/// same ground cover and the same of everything else: sixteen cells for the first stop, and
/// sixteen more for each stop after it, also between two stops.
pub proof fn both_ground_cover_spellings_give_one_density(
    k: Knobs,
    detail: Seq<char>,
    by_stop: Reading,
    frill: Seq<char>,
    by_cells: Reading,
    limits: Limits,
    stop: Single,
    cells: Single,
)
    requires
        lower(detail) == "worlddetail"@,
        lower(frill) == "frilldensity"@,
        by_stop.number == Some(stop),
        by_cells.number == Some(cells),
        !by_stop.view_setting && !by_stop.combat_range,
        !by_cells.view_setting && !by_cells.combat_range,
        stop.finite() && !stop.negative(),
        cells.finite() && !cells.negative(),
        stop.units() <= 2 * pow2(149),
        cells.units() == 16 * (stop.units() + pow2(149)),
    ensures
        after_write(k, detail, by_stop, limits) matches Some(a) && after_write(k, frill, by_cells, limits) matches Some(b)
            && cells_per_chunk(a.scene.clutter) == cells.units() && cells_per_chunk(b.scene.clutter) == cells.units() && a == (Knobs {
            scene: SceneConfig { clutter: a.scene.clutter, ..k.scene },
            ..k
        }) && b == (Knobs { scene: SceneConfig { clutter: b.scene.clutter, ..k.scene }, ..k }),
{
    numbers_are_taken_by_name(k, lower(detail), stop, by_stop, limits);
    numbers_are_taken_by_name(k, lower(frill), cells, by_cells, limits);
    lemma_ground_cover_is_the_scenes(lower(detail));
    lemma_ground_cover_is_the_scenes(lower(frill));
    lemma_pow2_pos(149);
    lemma_stop_is_kept(stop);
    lemma_cells_are_kept(cells);
    assert("frilldensity"@ != "worlddetail"@) by {
        reveal_strlit("frilldensity");
        reveal_strlit("worlddetail");
        assert("frilldensity"@.len() != "worlddetail"@.len());
    }
}

/// Each panel stop is one density in both spellings: stop `n`, of three, is `16 * (n + 1)` cells
/// per chunk.
pub proof fn each_stop_is_sixteen_cells_more(
    k: Knobs,
    detail: Seq<char>,
    by_stop: Reading,
    frill: Seq<char>,
    by_cells: Reading,
    limits: Limits,
    n: nat,
    stop: Single,
    cells: Single,
)
    requires
        n <= 2,
        lower(detail) == "worlddetail"@,
        lower(frill) == "frilldensity"@,
        by_stop.number == Some(stop),
        by_cells.number == Some(cells),
        !by_stop.view_setting && !by_stop.combat_range,
        !by_cells.view_setting && !by_cells.combat_range,
        stop.is_whole(n),
        cells.is_whole(16 * (n + 1)),
    ensures
        after_write(k, detail, by_stop, limits) matches Some(a) && after_write(k, frill, by_cells, limits) matches Some(b)
            && cells_per_chunk(a.scene.clutter) == 16 * (n + 1) * pow2(149) && cells_per_chunk(b.scene.clutter) == cells_per_chunk(
            a.scene.clutter,
        ),
{
    lemma_pow2_pos(149);
    let unit = pow2(149);
    assert(n * unit <= 2 * unit) by (nonlinear_arith)
        requires
            n <= 2,
            unit > 0,
    ;
    assert((16 * (n + 1)) * unit == 16 * (n * unit + unit)) by (nonlinear_arith);
    both_ground_cover_spellings_give_one_density(
        k,
        detail,
        by_stop,
        frill,
        by_cells,
        limits,
        stop,
        cells,
    );
}

} // verus!
