//! What holds of every choice and every frame of the colour grade.
use crate::post::grading::{
    archive_path, blend_after, catalog_source, fade_start, grade_uniform, grade_view, load_catalog,
    loose_path, rendered_minute, run_grade, same_pair, same_view, select_pair, sound_pair,
    update_grade_view, FadeStart, FadeSteps, GradeBinding, GradeBlend, GradeCatalog, GradePair,
    GradeResidency, GradeView, Source, Strip, ViewWrite,
};
use crate::post::uniform::laid_out;
use crate::single::{Single, ONE_BITS, ZERO_BITS};
use vstd::prelude::*;

verus! {

/// `cube` is the one the catalog holds at `path`, or the one that changes nothing where it holds
/// none there.
pub open spec fn cube_stands_at(catalog: GradeCatalog, path: u32, cube: u64) -> bool {
    &&& catalog.luts@.contains_key(path) ==> cube == catalog.luts@[path]
    &&& !catalog.luts@.contains_key(path) ==> cube == catalog.identity
}

/// `pair` is what the row of `area` asks for: its two cubes at its strength, and no pair where
/// the strength is not above zero.
pub open spec fn graded_by_row_of(
    catalog: GradeCatalog,
    area: u32,
    pair: Option<GradePair>,
) -> bool {
    let row = catalog.rows@[area];
    let strong = (Single { bits: ZERO_BITS }).below(row.strength);
    &&& pair is Some <==> strong
    &&& pair matches Some(p) ==> {
        &&& p.strength == row.strength
        &&& cube_stands_at(catalog, row.day_lut, p.day)
        &&& cube_stands_at(catalog, row.night_lut, p.night)
    }
}

/// An area that has a row of its own is graded by that row, whatever row its zone has.
pub proof fn an_area_is_graded_by_its_own_row(
    catalog: &GradeCatalog,
    leaf: u32,
    capture: Option<u32>,
    r: Option<GradePair>,
)
    requires
        call_ensures(select_pair, (catalog, Some(leaf), capture), r),
        catalog.rows@.contains_key(leaf),
    ensures
        graded_by_row_of(*catalog, leaf, r),
{
}

/// An area without a row of its own is graded by the row of the zone it belongs to, and not at
/// all where the zone has none or the area belongs to none.
pub proof fn an_area_without_a_row_is_graded_by_its_zone(
    catalog: &GradeCatalog,
    leaf: u32,
    capture: Option<u32>,
    r: Option<GradePair>,
)
    requires
        call_ensures(select_pair, (catalog, Some(leaf), capture), r),
        !catalog.rows@.contains_key(leaf),
    ensures
        catalog.top_zone@.contains_key(leaf) && catalog.rows@.contains_key(catalog.top_zone@[leaf])
            ==> graded_by_row_of(*catalog, catalog.top_zone@[leaf], r),
        !catalog.top_zone@.contains_key(leaf) ==> r is None,
        catalog.top_zone@.contains_key(leaf) && !catalog.rows@.contains_key(
            catalog.top_zone@[leaf],
        ) ==> r is None,
{
}

/// The area under the player decides alone; a camera without a player is graded as a player who
/// stood in its area would be, and without either there is no grade.
pub proof fn the_player_stands_before_the_camera(
    catalog: &GradeCatalog,
    leaf: u32,
    capture: Option<u32>,
    other: Option<u32>,
    by_player: Option<GradePair>,
    again: Option<GradePair>,
    by_camera: Option<GradePair>,
    by_none: Option<GradePair>,
)
    requires
        call_ensures(select_pair, (catalog, Some(leaf), capture), by_player),
        call_ensures(select_pair, (catalog, Some(leaf), other), again),
        call_ensures(select_pair, (catalog, None, Some(leaf)), by_camera),
        call_ensures(select_pair, (catalog, None, None), by_none),
    ensures
        by_player == again,
        by_player == by_camera,
        by_none is None,
{
}

/// A pair that is chosen has a strength above zero: it is never one that would change nothing.
pub proof fn a_chosen_pair_has_strength(
    catalog: &GradeCatalog,
    area: Option<u32>,
    capture: Option<u32>,
    r: Option<GradePair>,
)
    requires
        call_ensures(select_pair, (catalog, area, capture), r),
    ensures
        r matches Some(p) ==> (Single { bits: ZERO_BITS }).below(p.strength),
        sound_pair(r),
{
}

/// A new zone starts its own fade: the pair that was current becomes the former one and fades
/// out, and the weight is the one that a fade from nothing leads to.
pub proof fn a_new_zone_fades_from_the_one_before(
    blend: GradeBlend,
    target: Option<GradePair>,
    steps: FadeSteps,
)
    requires
        blend.primed,
        !same_pair(target, blend.current),
        !same_pair(target, blend.previous),
        steps.restarted.below(Single { bits: ONE_BITS }),
    ensures
        blend_after(blend, target, steps, false).current == target,
        blend_after(blend, target, steps, false).previous == blend.current,
        blend_after(blend, target, steps, false).fade == steps.restarted,
        blend_after(blend, target, steps, false).primed,
{
}

/// A zone that stays fades on from where it stands, between the same two pairs, until its weight
/// is whole and the former pair goes.
pub proof fn a_zone_that_stays_fades_on(
    blend: GradeBlend,
    target: Option<GradePair>,
    steps: FadeSteps,
)
    requires
        blend.primed,
        same_pair(target, blend.current),
        !steps.kept.not_a_number(),
    ensures
        blend_after(blend, target, steps, false).current == blend.current,
        steps.kept.below(Single { bits: ONE_BITS }) ==> blend_after(
            blend,
            target,
            steps,
            false,
        ).previous == blend.previous && blend_after(blend, target, steps, false).fade
            == steps.kept,
        (Single { bits: ONE_BITS }).at_most(steps.kept) ==> blend_after(
            blend,
            target,
            steps,
            false,
        ).previous is None && blend_after(blend, target, steps, false).fade.same_number(
            Single { bits: ONE_BITS },
        ),
{
}

/// A fade turns round only while it runs: a whole weight leaves nothing to return to, and the
/// zone before it is then a new zone like any other.
pub proof fn a_finished_fade_does_not_turn_round(
    blend: GradeBlend,
    target: Option<GradePair>,
    steps: FadeSteps,
)
    requires
        blend.primed,
        !same_pair(target, blend.current),
        same_pair(target, blend.previous),
    ensures
        (Single { bits: ONE_BITS }).at_most(blend.fade) ==> fade_start(blend, target)
            == FadeStart::Restarted,
        blend.fade.below(Single { bits: ONE_BITS }) ==> fade_start(blend, target)
            == FadeStart::Reversed,
        blend.fade.below(Single { bits: ONE_BITS }) && steps.reversed.below(
            Single { bits: ONE_BITS },
        ) ==> blend_after(blend, target, steps, false).current == blend.previous && blend_after(
            blend,
            target,
            steps,
            false,
        ).previous == blend.current && blend_after(blend, target, steps, false).fade
            == steps.reversed,
{
}

/// A step ends at the pair it asked for: a disabled one leaves nothing to fade, an enabled one
/// keeps the grade primed, and the first one comes in at full weight.
pub proof fn a_step_ends_at_its_target(
    blend: &mut GradeBlend,
    target: Option<GradePair>,
    steps: &FadeSteps,
    snap: bool,
)
    requires
        call_ensures(GradeBlend::step, (blend, target, steps, snap), ()),
    ensures
        sound_pair(target) ==> same_pair(target, final(blend).current),
        snap ==> final(blend).current == target && final(blend).previous is None
            && !final(blend).primed && final(blend).fade.bits == ONE_BITS,
        !snap && old(blend).primed ==> final(blend).primed,
        !snap && !old(blend).primed ==> final(blend).current == target && final(blend).previous is None && final(blend).fade.bits == ONE_BITS && (final(blend).primed
            <==> target is Some),
        !(Single { bits: ONE_BITS }).below(final(blend).fade),
{
}

/// A camera shows the current pair in front and the former one behind, at the weight of the
/// current one; a side without a pair shows the cube that changes nothing, without strength.
pub proof fn a_view_shows_both_sides_of_the_fade(
    blend: &GradeBlend,
    identity: u64,
    night_weight: Single,
    r: Option<GradeView>,
)
    requires
        call_ensures(grade_view, (blend, identity, night_weight), r),
    ensures
        r is None <==> blend.current is None && blend.previous is None,
        r matches Some(view) ==> {
            &&& view.fade == blend.fade
            &&& view.night_weight == night_weight
            &&& blend.current matches Some(p) ==> view.day == p.day && view.night == p.night
                && view.strength == p.strength
            &&& blend.current is None ==> view.day == identity && view.night == identity
                && view.strength.bits == ZERO_BITS
            &&& blend.previous matches Some(p) ==> view.prev_day == p.day && view.prev_night
                == p.night && view.prev_strength == p.strength
            &&& blend.previous is None ==> view.prev_day == identity && view.prev_night == identity
                && view.prev_strength.bits == ZERO_BITS
        },
{
}

/// What a camera shows after a write, `shown` being what it showed before and `next` what would
/// be inserted.
pub open spec fn shown_after<T>(write: ViewWrite, next: Option<T>, shown: Option<T>) -> Option<T> {
    match write {
        ViewWrite::Leave => shown,
        ViewWrite::Insert => next,
        ViewWrite::Remove => None,
    }
}

/// After its write a camera that draws under a grade shows what was selected, and any other shows
/// nothing; and a camera that shows it already is not written.
pub proof fn a_camera_ends_up_showing_what_was_selected(
    grading: bool,
    active: bool,
    selected: Option<GradeView>,
    shown: Option<GradeView>,
    r: ViewWrite,
)
    requires
        call_ensures(update_grade_view, (grading, active, &selected, &shown), r),
    ensures
        !grading || !active ==> shown_after(r, selected, shown) is None,
        grading && active && selected is None ==> shown_after(r, selected, shown) is None,
        grading && active ==> (selected matches Some(view) ==> (shown_after(
            r,
            selected,
            shown,
        ) matches Some(s) && (s == view || same_view(s, view)))),
        r == ViewWrite::Insert ==> selected is Some && grading && active,
        r == ViewWrite::Remove ==> shown is Some,
        grading && active ==> (selected matches Some(view) ==> (shown matches Some(s) ==> (
        same_view(s, view) ==> r == ViewWrite::Leave))),
{
}

/// Two views show the same only where every cube and every number of them agrees.
pub proof fn views_that_show_the_same_agree_throughout(a: GradeView, b: GradeView)
    ensures
        same_view(a, b) ==> a.day == b.day && a.night == b.night && a.prev_day == b.prev_day
            && a.prev_night == b.prev_night && a.strength.rank() == b.strength.rank()
            && a.night_weight.rank() == b.night_weight.rank() && a.fade.rank() == b.fade.rank()
            && a.prev_strength.rank() == b.prev_strength.rank(),
        same_view(a, b) <==> same_view(b, a),
{
}

/// The pass reads the current strength first, then how far it is night, then the weight of the
/// current pair, and the former strength last.
pub proof fn the_pass_reads_its_numbers_in_order(view: &GradeView, r: Vec<u8>)
    requires
        call_ensures(grade_uniform, (view,), r),
    ensures
        r@.len() == 16,
        laid_out(
            seq![
                view.strength.bits,
                view.night_weight.bits,
                view.fade.bits,
                view.prev_strength.bits,
            ],
            r@,
        ),
{
    let words = seq![
        view.strength.bits,
        view.night_weight.bits,
        view.fade.bits,
        view.prev_strength.bits,
    ];
    let row = seq![view.strength, view.night_weight, view.fade, view.prev_strength];
    assert(crate::post::uniform::bits_of(row) =~= words);
}

/// A pass runs only where all that it reads is there, and then binds each of the four cubes, the
/// current pair before the former one, and each once.
pub proof fn a_pass_binds_its_four_cubes(
    there: &GradeResidency,
    r: Option<Vec<GradeBinding>>,
    i: int,
    j: int,
)
    requires
        call_ensures(run_grade, (there,), r),
    ensures
        r is Some <==> there.pipeline && there.day && there.night && there.prev_day
            && there.prev_night,
        r matches Some(bindings) ==> {
            &&& bindings@.len() == 8
            &&& 0 <= i < j < 8 ==> bindings@[i] != bindings@[j]
            &&& bindings@[0] == GradeBinding::Scene
            &&& bindings@[2] == GradeBinding::Day && bindings@[3] == GradeBinding::Night
            &&& bindings@[6] == GradeBinding::PrevDay && bindings@[7] == GradeBinding::PrevNight
            &&& bindings@[5] == GradeBinding::Numbers
            &&& bindings@[1] == GradeBinding::SceneSampler && bindings@[4]
                == GradeBinding::CubeSampler
        },
{
}

/// The grade goes by the server's minute while that is the one rendered, and by the rendered one
/// as soon as the two differ.
pub proof fn the_grade_keeps_to_the_rendered_minute(
    server: Single,
    minute: u32,
    value: Single,
    r: Single,
    free: Single,
)
    requires
        call_ensures(rendered_minute, (server, Some((minute, value))), r),
        call_ensures(rendered_minute, (server, None), free),
    ensures
        server.count(u32::MAX as int) == minute ==> r == server,
        server.count(u32::MAX as int) != minute ==> r == value,
        free == server,
{
}

/// A path among loose files has no backslash and one in the archives no slash; each keeps its
/// length and every other character in its place.
pub proof fn a_path_takes_its_own_separators(path: &str, loose: String, archived: String, i: int)
    requires
        call_ensures(loose_path, (path,), loose),
        call_ensures(archive_path, (path,), archived),
        0 <= i < path@.len(),
    ensures
        loose@.len() == path@.len(),
        archived@.len() == path@.len(),
        loose@[i] != '\\',
        archived@[i] != '/',
        path@[i] != '\\' ==> loose@[i] == path@[i],
        path@[i] == '\\' ==> loose@[i] == '/',
        path@[i] != '/' ==> archived@[i] == path@[i],
        path@[i] == '/' ==> archived@[i] == '\\',
{
}

/// Nothing is read without archives, and a loose file stands before the archives.
pub proof fn a_loose_file_stands_before_the_archives(open: bool, loose: bool, r: Source)
    requires
        call_ensures(catalog_source, (open, loose), r),
    ensures
        r == Source::Nowhere <==> !open,
        open && loose ==> r == Source::Loose,
        open && !loose ==> r == Source::Archive,
{
}

/// A strip that was not read, or is not 1024 by 32 with a whole base level, leaves its path
/// without a cube; any other gives one, in its own place in the list.
pub proof fn every_strip_keeps_its_place(
    strips: &Vec<Option<Strip>>,
    r: Vec<Option<Vec<u8>>>,
    k: int,
)
    requires
        call_ensures(load_catalog, (strips,), r),
        0 <= k < strips@.len(),
    ensures
        r@.len() == strips@.len(),
        strips@[k] is None ==> r@[k] is None,
        strips@[k] matches Some(s) ==> (r@[k] is Some <==> s.width == 1024 && s.height == 32
            && s.mips@.len() > 0 && s.mips@[0]@.len() == 131072),
        r@[k] matches Some(cube) ==> cube@.len() == 131072,
{
    assert(r@[k] == r@[k]);
}

} // verus!
