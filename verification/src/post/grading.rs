//! The zone and day-night colour grade: which pair of cubes a zone asks for, how one pair fades
//! into the next, and what each camera shows.
use crate::post::cube::{cube_of, strip_to_cube};
use crate::post::uniform::{bits_of, laid_out, uniform_bytes};
use crate::single::{Single, ONE_BITS, ZERO_BITS};
use crate::text::{holds_text, text_in};
use std::collections::HashMap;
use vstd::prelude::*;
use vstd::string::{StrSliceExecFns, StringExecFns};

verus! {

broadcast use vstd::std_specs::hash::group_hash_axioms;

/// A zone's pair of cubes and how strongly it grades.
#[derive(Clone, Copy, Debug)]
pub struct GradePair {
    pub day: u64,
    pub night: u64,
    pub strength: Single,
}

/// The two pairs grade alike: the same cubes at the same strength.
pub open spec fn same_pair(a: Option<GradePair>, b: Option<GradePair>) -> bool {
    match (a, b) {
        (Some(x), Some(y)) => x.day == y.day && x.night == y.night && x.strength.same_number(
            y.strength,
        ),
        (None, None) => true,
        _ => false,
    }
}

fn pairs_agree(a: Option<GradePair>, b: Option<GradePair>) -> (r: bool)
    ensures
        r == same_pair(a, b),
{
    match (a, b) {
        (Some(x), Some(y)) => x.day == y.day && x.night == y.night && x.strength.equals(
            y.strength,
        ),
        (None, None) => true,
        _ => false,
    }
}

/// The crossfade from the former zone's pair to the current one. `fade` is the current pair's
/// weight, and `primed` says that a zone has been graded since the grade was switched on.
#[derive(Clone, Copy, Debug)]
pub struct GradeBlend {
    pub current: Option<GradePair>,
    pub previous: Option<GradePair>,
    pub fade: Single,
    pub primed: bool,
}

/// A fade one frame on, from each of the three places it can start at: where it stands, reversed,
/// and from nothing.
#[derive(Clone, Copy, Debug)]
pub struct FadeSteps {
    pub kept: Single,
    pub reversed: Single,
    pub restarted: Single,
}

/// How a frame of the crossfade starts.
#[derive(Clone, Copy, Debug, PartialEq, Eq, Structural)]
pub enum FadeStart {
    /// The target is what it was.
    Kept,
    /// The target is the pair still fading out: the fade turns round.
    Reversed,
    /// The target is another pair: the fade starts over.
    Restarted,
}

/// How a frame of the crossfade starts.
pub open spec fn fade_start(blend: GradeBlend, target: Option<GradePair>) -> FadeStart {
    if same_pair(target, blend.current) {
        FadeStart::Kept
    } else if blend.fade.below(Single { bits: ONE_BITS }) && same_pair(target, blend.previous) {
        FadeStart::Reversed
    } else {
        FadeStart::Restarted
    }
}

/// The weight a frame ends at, before it is held to one.
pub open spec fn stepped(start: FadeStart, steps: FadeSteps) -> Single {
    match start {
        FadeStart::Kept => steps.kept,
        FadeStart::Reversed => steps.reversed,
        FadeStart::Restarted => steps.restarted,
    }
}

/// The crossfade after a frame. A disabled grade snaps, and so does the first zone after it was
/// switched on. Otherwise the weight moves on, and the former pair goes once it has none left.
pub open spec fn blend_after(
    blend: GradeBlend,
    target: Option<GradePair>,
    steps: FadeSteps,
    snap: bool,
) -> GradeBlend {
    let one = Single { bits: ONE_BITS };
    if snap || !blend.primed {
        GradeBlend {
            current: target,
            previous: None,
            fade: one,
            primed: !snap && target is Some,
        }
    } else {
        let start = fade_start(blend, target);
        let fade = stepped(start, steps).no_more_than(one);
        GradeBlend {
            current: match start {
                FadeStart::Kept => blend.current,
                FadeStart::Reversed => blend.previous,
                FadeStart::Restarted => target,
            },
            previous: if one.at_most(fade) {
                None
            } else {
                match start {
                    FadeStart::Kept => blend.previous,
                    FadeStart::Reversed => blend.current,
                    FadeStart::Restarted => blend.current,
                }
            },
            fade,
            primed: blend.primed,
        }
    }
}

impl GradeBlend {
    /// A crossfade before any zone.
    pub fn new() -> (r: GradeBlend)
        ensures
            r == (GradeBlend {
                current: None,
                previous: None,
                fade: (Single { bits: ZERO_BITS }),
                primed: false,
            }),
    {
        GradeBlend {
            current: None,
            previous: None,
            fade: Single { bits: ZERO_BITS },
            primed: false,
        }
    }

    /// Steps toward `target`; `steps` are the weights that a frame leads to.
    pub fn step(&mut self, target: Option<GradePair>, steps: &FadeSteps, snap: bool)
        ensures
            *final(self) == blend_after(*old(self), target, *steps, snap),
    {
        let one = Single { bits: ONE_BITS };
        if snap || !self.primed {
            self.primed = !snap && target.is_some();
            self.current = target;
            self.previous = None;
            self.fade = one;
            return;
        }
        let mut fade = steps.kept;
        if !pairs_agree(target, self.current) {
            if self.fade.is_below(one) && pairs_agree(target, self.previous) {
                let turned = self.current;
                self.current = self.previous;
                self.previous = turned;
                fade = steps.reversed;
            } else {
                self.previous = self.current;
                self.current = target;
                fade = steps.restarted;
            }
        }
        self.fade = fade.min(one);
        if one.is_at_most(self.fade) {
            self.previous = None;
        }
    }
}

/// A disabled grade leaves nothing to fade, and the next zone after it snaps in at full weight.
pub proof fn switching_off_snaps(
    blend: GradeBlend,
    off: FadeSteps,
    target: Option<GradePair>,
    on: FadeSteps,
)
    ensures
        blend_after(blend, None, off, true).current is None,
        blend_after(blend, None, off, true).previous is None,
        blend_after(blend_after(blend, None, off, true), target, on, false).current == target,
        blend_after(blend_after(blend, None, off, true), target, on, false).previous is None,
        blend_after(blend_after(blend, None, off, true), target, on, false).fade.bits == ONE_BITS,
{
}

/// A return to the zone still fading out turns the fade round: the two pairs trade places.
pub proof fn a_quick_return_reverses(blend: GradeBlend, target: Option<GradePair>, steps: FadeSteps)
    requires
        blend.primed,
        fade_start(blend, target) == FadeStart::Reversed,
        steps.reversed.bits < ONE_BITS,
    ensures
        blend_after(blend, target, steps, false).current == blend.previous,
        blend_after(blend, target, steps, false).previous == blend.current,
        blend_after(blend, target, steps, false).fade == steps.reversed,
{
}

/// The steps of a frame whose time does not run back: no weight is below the one it starts from,
/// and none is below zero.
pub open spec fn forward(blend: GradeBlend, steps: FadeSteps) -> bool {
    let zero = Single { bits: ZERO_BITS };
    &&& blend.fade.at_most(steps.kept)
    &&& zero.at_most(steps.reversed)
    &&& zero.at_most(steps.restarted)
}

/// The strength of the pair, where there is one, is a number.
pub open spec fn sound_pair(pair: Option<GradePair>) -> bool {
    pair matches Some(p) ==> !p.strength.not_a_number()
}

/// The weight never passes one, and never falls below zero where no step does. A former pair is
/// held only while the weight is below one.
pub proof fn the_weight_stays_within_one(
    blend: GradeBlend,
    target: Option<GradePair>,
    steps: FadeSteps,
    snap: bool,
    zero: Single,
    one: Single,
)
    requires
        zero == (Single { bits: ZERO_BITS }),
        one == (Single { bits: ONE_BITS }),
    ensures
        !one.below(blend_after(blend, target, steps, snap).fade),
        zero.at_most(steps.kept) && zero.at_most(steps.reversed) && zero.at_most(steps.restarted)
            ==> zero.at_most(blend_after(blend, target, steps, snap).fade),
        blend_after(blend, target, steps, snap).previous is Some ==> blend_after(
            blend,
            target,
            steps,
            snap,
        ).fade.below(one),
{
}

/// After any frame the current pair is the one the frame asked for. The two are equal as pairs
/// of numbers; a strength that is no number equals nothing, and such a target is taken as it is.
pub proof fn the_current_pair_is_the_target(
    blend: GradeBlend,
    target: Option<GradePair>,
    steps: FadeSteps,
    snap: bool,
)
    ensures
        sound_pair(target) ==> same_pair(target, blend_after(blend, target, steps, snap).current),
        !sound_pair(target) ==> blend_after(blend, target, steps, snap).current == target,
{
}

/// A disabled grade, and the first zone after one or after the start, stand at full weight at
/// once, with no former pair.
pub proof fn a_snap_stands_at_full_weight(
    blend: GradeBlend,
    target: Option<GradePair>,
    steps: FadeSteps,
    snap: bool,
)
    requires
        snap || !blend.primed,
    ensures
        blend_after(blend, target, steps, snap).current == target,
        blend_after(blend, target, steps, snap).previous is None,
        blend_after(blend, target, steps, snap).fade.bits == ONE_BITS,
        blend_after(blend, target, steps, snap).primed <==> !snap && target is Some,
{
}

/// One frame of the crossfade: the pair it asks for, its steps, and whether the grade is off.
pub struct GradeFrame {
    pub target: Option<GradePair>,
    pub steps: FadeSteps,
    pub snap: bool,
}

/// The crossfade after the first `n` frames of a run from the start.
pub open spec fn blend_run(frames: Seq<GradeFrame>, n: int) -> GradeBlend
    decreases n,
{
    if n <= 0 {
        GradeBlend {
            current: None,
            previous: None,
            fade: Single { bits: ZERO_BITS },
            primed: false,
        }
    } else {
        blend_after(
            blend_run(frames, n - 1),
            frames[n - 1].target,
            frames[n - 1].steps,
            frames[n - 1].snap,
        )
    }
}

/// However the zones change and the grade is switched, the weight of a run whose time does not
/// run back is a number from zero to one, a weight of one leaves no former pair, the current pair
/// is the one last asked for, and the first zone after the start or after a disabled frame comes
/// in at full weight.
pub proof fn a_run_fades_between_its_targets(frames: Seq<GradeFrame>, n: int)
    requires
        0 <= n <= frames.len(),
        forall|i: int| 0 <= i < n ==> forward(blend_run(frames, i), (#[trigger] frames[i]).steps),
    ensures
        (Single { bits: ZERO_BITS }).at_most(blend_run(frames, n).fade),
        blend_run(frames, n).fade.at_most(Single { bits: ONE_BITS }),
        blend_run(frames, n).fade.same_number(Single { bits: ONE_BITS }) ==> blend_run(
            frames,
            n,
        ).previous is None,
        n > 0 && sound_pair(frames[n - 1].target) ==> same_pair(
            frames[n - 1].target,
            blend_run(frames, n).current,
        ),
        n > 0 && frames[n - 1].snap ==> blend_run(frames, n).fade.bits == ONE_BITS,
        n > 0 && (n == 1 || frames[n - 2].snap || !blend_run(frames, n - 1).primed) ==> blend_run(
            frames,
            n,
        ).fade.bits == ONE_BITS && blend_run(frames, n).current == frames[n - 1].target,
    decreases n,
{
    if n > 0 {
        a_run_fades_between_its_targets(frames, n - 1);
        let before = blend_run(frames, n - 1);
        let frame = frames[n - 1];
        assert(forward(before, frame.steps));
        the_current_pair_is_the_target(before, frame.target, frame.steps, frame.snap);
    }
}

/// A zone's row: the numbers of its two cubes' paths, and how strongly it grades.
#[derive(Clone, Copy, Debug)]
pub struct GradeRow {
    pub day_lut: u32,
    pub night_lut: u32,
    pub strength: Single,
}

/// What the grade is chosen from: the rows by area, the cubes by path, the cube that changes
/// nothing, and the zone each area belongs to.
pub struct GradeCatalog {
    pub rows: HashMap<u32, GradeRow>,
    pub luts: HashMap<u32, u64>,
    pub identity: u64,
    pub top_zone: HashMap<u32, u32>,
}

/// The cube at a path, or the one that changes nothing.
pub open spec fn lut_at(catalog: GradeCatalog, path: u32) -> u64 {
    if catalog.luts@.contains_key(path) {
        catalog.luts@[path]
    } else {
        catalog.identity
    }
}

fn read_lut(catalog: &GradeCatalog, path: u32) -> (r: u64)
    ensures
        r == lut_at(*catalog, path),
{
    match catalog.luts.get(&path) {
        Some(lut) => *lut,
        None => catalog.identity,
    }
}

/// The row of an area: its own, else that of the zone it belongs to.
pub open spec fn row_for(catalog: GradeCatalog, leaf: u32) -> Option<GradeRow> {
    let zone = if catalog.top_zone@.contains_key(leaf) {
        catalog.top_zone@[leaf]
    } else {
        leaf
    };
    if catalog.rows@.contains_key(leaf) {
        Some(catalog.rows@[leaf])
    } else if catalog.rows@.contains_key(zone) {
        Some(catalog.rows@[zone])
    } else {
        None
    }
}

/// The pair that the area under the player, or under a camera without one, asks for: none where
/// the area has no row, or one without strength.
pub open spec fn selected_pair(
    catalog: GradeCatalog,
    area: Option<u32>,
    capture: Option<u32>,
) -> Option<GradePair> {
    let leaf = match area {
        Some(leaf) => Some(leaf),
        None => capture,
    };
    match leaf {
        None => None,
        Some(leaf) => match row_for(catalog, leaf) {
            Some(row) if (Single { bits: ZERO_BITS }).below(row.strength) => Some(
                GradePair {
                    day: lut_at(catalog, row.day_lut),
                    night: lut_at(catalog, row.night_lut),
                    strength: row.strength,
                },
            ),
            _ => None,
        },
    }
}

/// Chooses the pair that an area asks for.
pub fn select_pair(catalog: &GradeCatalog, area: Option<u32>, capture: Option<u32>) -> (r: Option<
    GradePair,
>)
    ensures
        r == selected_pair(*catalog, area, capture),
{
    let leaf: u32 = match area {
        Some(leaf) => leaf,
        None => match capture {
            Some(leaf) => leaf,
            None => {
                return None;
            },
        },
    };
    let row: GradeRow = match catalog.rows.get(&leaf) {
        Some(row) => *row,
        None => {
            let zone: u32 = match catalog.top_zone.get(&leaf) {
                Some(zone) => *zone,
                None => leaf,
            };
            match catalog.rows.get(&zone) {
                Some(row) => *row,
                None => {
                    return None;
                },
            }
        },
    };
    let zero = Single { bits: ZERO_BITS };
    if !zero.is_below(row.strength) {
        return None;
    }
    Some(
        GradePair {
            day: read_lut(catalog, row.day_lut),
            night: read_lut(catalog, row.night_lut),
            strength: row.strength,
        },
    )
}

/// What a camera is graded with.
#[derive(Clone, Copy, Debug)]
pub struct GradeView {
    pub day: u64,
    pub night: u64,
    pub prev_day: u64,
    pub prev_night: u64,
    pub strength: Single,
    pub night_weight: Single,
    pub fade: Single,
    pub prev_strength: Single,
}

/// A pair as it is shown: no pair is the cube that changes nothing, without strength.
pub open spec fn shown_pair(pair: Option<GradePair>, identity: u64) -> GradePair {
    match pair {
        Some(p) => p,
        None => GradePair {
            day: identity,
            night: identity,
            strength: Single { bits: ZERO_BITS },
        },
    }
}

fn show_pair(pair: Option<GradePair>, identity: u64) -> (r: GradePair)
    ensures
        r == shown_pair(pair, identity),
{
    match pair {
        Some(p) => p,
        None => GradePair {
            day: identity,
            night: identity,
            strength: Single { bits: ZERO_BITS },
        },
    }
}

/// What the crossfade shows: nothing while there is no pair on either side.
pub open spec fn shown_grade(
    blend: GradeBlend,
    identity: u64,
    night_weight: Single,
) -> Option<GradeView> {
    if blend.current is None && blend.previous is None {
        None
    } else {
        let now = shown_pair(blend.current, identity);
        let before = shown_pair(blend.previous, identity);
        Some(
            GradeView {
                day: now.day,
                night: now.night,
                prev_day: before.day,
                prev_night: before.night,
                strength: now.strength,
                night_weight,
                fade: blend.fade,
                prev_strength: before.strength,
            },
        )
    }
}

/// Makes what the crossfade shows.
pub fn grade_view(blend: &GradeBlend, identity: u64, night_weight: Single) -> (r: Option<GradeView>)
    ensures
        r == shown_grade(*blend, identity, night_weight),
{
    if blend.current.is_none() && blend.previous.is_none() {
        return None;
    }
    let now = show_pair(blend.current, identity);
    let before = show_pair(blend.previous, identity);
    Some(
        GradeView {
            day: now.day,
            night: now.night,
            prev_day: before.day,
            prev_night: before.night,
            strength: now.strength,
            night_weight,
            fade: blend.fade,
            prev_strength: before.strength,
        },
    )
}

/// The two views show the same.
pub open spec fn same_view(a: GradeView, b: GradeView) -> bool {
    &&& a.day == b.day
    &&& a.night == b.night
    &&& a.prev_day == b.prev_day
    &&& a.prev_night == b.prev_night
    &&& a.strength.same_number(b.strength)
    &&& a.night_weight.same_number(b.night_weight)
    &&& a.fade.same_number(b.fade)
    &&& a.prev_strength.same_number(b.prev_strength)
}

fn views_agree(a: &GradeView, b: &GradeView) -> (r: bool)
    ensures
        r == same_view(*a, *b),
{
    a.day == b.day && a.night == b.night && a.prev_day == b.prev_day && a.prev_night
        == b.prev_night && a.strength.equals(b.strength) && a.night_weight.equals(b.night_weight)
        && a.fade.equals(b.fade) && a.prev_strength.equals(b.prev_strength)
}

/// What is done to a camera's view.
#[derive(Clone, Copy, Debug, PartialEq, Eq, Structural)]
pub enum ViewWrite {
    Leave,
    Insert,
    Remove,
}

/// What is done to a camera that shows `old` and is to show `selected`: nothing is shown while
/// the grade is off or the camera idle, and a view is written only where it differs.
pub open spec fn grade_write(
    grading: bool,
    active: bool,
    selected: Option<GradeView>,
    old: Option<GradeView>,
) -> ViewWrite {
    let next = if grading && active {
        selected
    } else {
        None
    };
    match (next, old) {
        (Some(n), Some(o)) => if same_view(o, n) {
            ViewWrite::Leave
        } else {
            ViewWrite::Insert
        },
        (Some(_), None) => ViewWrite::Insert,
        (None, Some(_)) => ViewWrite::Remove,
        (None, None) => ViewWrite::Leave,
    }
}

/// Decides what is done to a camera's view.
pub fn update_grade_view(
    grading: bool,
    active: bool,
    selected: &Option<GradeView>,
    old: &Option<GradeView>,
) -> (r: ViewWrite)
    ensures
        r == grade_write(grading, active, *selected, *old),
{
    if !grading || !active {
        return match old {
            Some(_) => ViewWrite::Remove,
            None => ViewWrite::Leave,
        };
    }
    match (selected, old) {
        (Some(n), Some(o)) => if views_agree(o, n) {
            ViewWrite::Leave
        } else {
            ViewWrite::Insert
        },
        (Some(_), None) => ViewWrite::Insert,
        (None, Some(_)) => ViewWrite::Remove,
        (None, None) => ViewWrite::Leave,
    }
}

/// The four numbers a view is graded by, in the order in which the pass reads them.
pub open spec fn grade_row(view: GradeView) -> Seq<Single> {
    seq![view.strength, view.night_weight, view.fade, view.prev_strength]
}

/// Lays the numbers that a view is graded by out for the pass.
pub fn grade_uniform(view: &GradeView) -> (r: Vec<u8>)
    ensures
        laid_out(bits_of(grade_row(*view)), r@),
{
    let mut row: Vec<Single> = Vec::new();
    row.push(view.strength);
    row.push(view.night_weight);
    row.push(view.fade);
    row.push(view.prev_strength);
    assert(row@ =~= grade_row(*view));
    uniform_bytes(&row)
}

/// What has to be there before a view is graded: the pipeline and the view's four cubes.
#[derive(Clone, Copy, Debug, PartialEq, Eq, Structural)]
pub struct GradeResidency {
    pub pipeline: bool,
    pub day: bool,
    pub night: bool,
    pub prev_day: bool,
    pub prev_night: bool,
}

/// What the pass reads.
#[derive(Clone, Copy, Debug, PartialEq, Eq, Structural)]
pub enum GradeBinding {
    Scene,
    SceneSampler,
    Day,
    Night,
    CubeSampler,
    Numbers,
    PrevDay,
    PrevNight,
}

/// What the pass reads, in binding order.
pub open spec fn grade_bindings() -> Seq<GradeBinding> {
    seq![
        GradeBinding::Scene,
        GradeBinding::SceneSampler,
        GradeBinding::Day,
        GradeBinding::Night,
        GradeBinding::CubeSampler,
        GradeBinding::Numbers,
        GradeBinding::PrevDay,
        GradeBinding::PrevNight,
    ]
}

/// Decides a view's grading pass: what it reads, in binding order, and no pass at all until the
/// pipeline and all four cubes are there.
pub fn run_grade(there: &GradeResidency) -> (r: Option<Vec<GradeBinding>>)
    ensures
        match r {
            Some(bindings) => there.pipeline && there.day && there.night && there.prev_day
                && there.prev_night && bindings@ == grade_bindings(),
            None => !(there.pipeline && there.day && there.night && there.prev_day
                && there.prev_night),
        },
{
    if !(there.pipeline && there.day && there.night && there.prev_day && there.prev_night) {
        return None;
    }
    let mut bindings: Vec<GradeBinding> = Vec::new();
    bindings.push(GradeBinding::Scene);
    bindings.push(GradeBinding::SceneSampler);
    bindings.push(GradeBinding::Day);
    bindings.push(GradeBinding::Night);
    bindings.push(GradeBinding::CubeSampler);
    bindings.push(GradeBinding::Numbers);
    bindings.push(GradeBinding::PrevDay);
    bindings.push(GradeBinding::PrevNight);
    assert(bindings@ =~= grade_bindings());
    Some(bindings)
}

/// The minute the grade goes by: the server's, with its fraction, while that is the minute being
/// rendered, and else the rendered one. `rendered` is the rendered minute, with its number.
pub open spec fn graded_minute(server: Single, rendered: Option<(u32, Single)>) -> Single {
    match rendered {
        Some((minute, value)) => if server.count(u32::MAX as int) != minute {
            value
        } else {
            server
        },
        None => server,
    }
}

/// Chooses the minute the grade goes by.
pub fn rendered_minute(server: Single, rendered: Option<(u32, Single)>) -> (r: Single)
    ensures
        r == graded_minute(server, rendered),
{
    match rendered {
        Some((minute, value)) => if server.to_count() != minute {
            value
        } else {
            server
        },
        None => server,
    }
}

/// The two cubes' paths of one row.
#[derive(Debug)]
pub struct RowPaths {
    pub day: String,
    pub night: String,
}

/// Some row names the path `p`.
pub open spec fn named(rows: Seq<RowPaths>, p: Seq<char>) -> bool {
    exists|i: int| 0 <= i < rows.len() && ((#[trigger] rows[i]).day@ == p || rows[i].night@ == p)
}

/// No path stands twice.
pub open spec fn all_distinct(paths: Seq<String>) -> bool {
    forall|i: int, j: int| 0 <= i < j < paths.len() ==> (#[trigger] paths[i])@ != (#[trigger] paths[j])@
}

fn note_path(path: &String, paths: &mut Vec<String>)
    requires
        all_distinct(old(paths)@),
    ensures
        all_distinct(final(paths)@),
        forall|p: Seq<char>| #[trigger]
            holds_text(final(paths)@, p) <==> holds_text(old(paths)@, p) || p == path@,
{
    if !text_in(paths, path.as_str()) {
        let ghost before = paths@;
        let copy = String::from_str(path.as_str());
        paths.push(copy);
        proof {
            assert forall|p: Seq<char>| #[trigger] holds_text(paths@, p) <==> holds_text(before, p)
                || p == path@ by {
                if holds_text(before, p) {
                    let k = choose|k: int| 0 <= k < before.len() && (#[trigger] before[k])@ == p;
                    assert(paths@[k]@ == p);
                }
                if p == path@ {
                    assert(paths@[before.len() as int]@ == p);
                }
                if holds_text(paths@, p) {
                    let k = choose|k: int| 0 <= k < paths@.len() && (#[trigger] paths@[k])@ == p;
                    if k < before.len() {
                        assert(before[k]@ == p);
                    }
                }
            }
            assert forall|i: int, j: int| 0 <= i < j < paths@.len() implies (
            #[trigger] paths@[i])@ != (#[trigger] paths@[j])@ by {
                if j == before.len() {
                    assert(before[i]@ == paths@[i]@);
                } else {
                    assert(before[i]@ != before[j]@);
                }
            }
        }
    }
}

/// Lists the paths of the cubes that the rows name, each once.
pub fn lut_paths(rows: &Vec<RowPaths>) -> (r: Vec<String>)
    ensures
        all_distinct(r@),
        forall|p: Seq<char>| #[trigger] holds_text(r@, p) <==> named(rows@, p),
{
    let mut paths: Vec<String> = Vec::new();
    let mut i: usize = 0;
    while i < rows.len()
        invariant
            i <= rows@.len(),
            all_distinct(paths@),
            forall|p: Seq<char>| #[trigger]
                holds_text(paths@, p) <==> named(rows@.take(i as int), p),
        decreases rows@.len() - i,
    {
        let ghost before = rows@.take(i as int);
        let ghost now = rows@.take(i as int + 1);
        note_path(&rows[i].day, &mut paths);
        note_path(&rows[i].night, &mut paths);
        proof {
            assert forall|p: Seq<char>| #[trigger] holds_text(paths@, p) <==> named(now, p) by {
                if named(before, p) {
                    let k = choose|k: int|
                        0 <= k < before.len() && ((#[trigger] before[k]).day@ == p
                            || before[k].night@ == p);
                    assert(now[k] == before[k]);
                }
                if named(now, p) {
                    let k = choose|k: int|
                        0 <= k < now.len() && ((#[trigger] now[k]).day@ == p || now[k].night@ == p);
                    if k < i {
                        assert(before[k] == now[k]);
                    }
                }
                assert(now[i as int] == rows@[i as int]);
            }
        }
        i += 1;
    }
    assert(rows@.take(i as int) =~= rows@);
    paths
}

/// A text with every `from` made `to`.
pub open spec fn swapped(text: Seq<char>, from: char, to: char) -> Seq<char> {
    text.map_values(|c: char| if c == from { to } else { c })
}

fn swap_separators(path: &str, from: char, to: &'static str, made: char) -> (r: String)
    requires
        to@ == seq![made],
    ensures
        r@ == swapped(path@, from, made),
{
    let len: usize = path.unicode_len();
    let mut r = String::from_str("");
    let mut i: usize = 0;
    proof {
        reveal_strlit("");
    }
    assert(r@ =~= swapped(path@.take(0), from, made));
    while i < len
        invariant
            i <= len,
            len == path@.len(),
            to@ == seq![made],
            r@ == swapped(path@.take(i as int), from, made),
        decreases len - i,
    {
        if path.get_char(i) == from {
            r.append(to);
        } else {
            r.append(path.substring_char(i, i + 1));
        }
        assert(r@ =~= swapped(path@.take(i as int + 1), from, made));
        i += 1;
    }
    assert(path@.take(i as int) =~= path@);
    r
}

/// The path of a cube among loose files, where slashes part it.
pub fn loose_path(path: &str) -> (r: String)
    ensures
        r@ == swapped(path@, '\\', '/'),
{
    proof {
        reveal_strlit("/");
        assert("/"@ =~= seq!['/']);
    }
    swap_separators(path, '\\', "/", '/')
}

/// The path of a cube in the archives, where backslashes part it.
pub fn archive_path(path: &str) -> (r: String)
    ensures
        r@ == swapped(path@, '/', '\\'),
{
    proof {
        reveal_strlit("\\");
        assert("\\"@ =~= seq!['\\']);
    }
    swap_separators(path, '/', "\\", '\\')
}

/// Where a part of the catalog is read from.
#[derive(Clone, Copy, Debug, PartialEq, Eq, Structural)]
pub enum Source {
    /// Nowhere: without archives there is no catalog.
    Nowhere,
    /// A loose file, which stands before the archives.
    Loose,
    /// The archives.
    Archive,
}

/// Chooses where a part of the catalog is read from.
pub fn catalog_source(archives_open: bool, loose_file: bool) -> (r: Source)
    ensures
        r == if !archives_open {
            Source::Nowhere
        } else if loose_file {
            Source::Loose
        } else {
            Source::Archive
        },
{
    if !archives_open {
        Source::Nowhere
    } else if loose_file {
        Source::Loose
    } else {
        Source::Archive
    }
}

/// A cube's strip as it was read and decoded.
#[derive(Debug)]
pub struct Strip {
    pub width: u32,
    pub height: u32,
    pub mips: Vec<Vec<u8>>,
}

/// The cube that a strip gives, and none where it was not read or holds none.
pub open spec fn resident_cube(strip: Option<Strip>) -> Option<Seq<u8>> {
    match strip {
        Some(s) => match cube_of(s.width, s.height, s.mips@) {
            Ok(cube) => Some(cube),
            Err(_) => None,
        },
        None => None,
    }
}

/// Makes the cubes of the strips that were read, one for one; a strip that was not read or holds
/// no cube leaves its path without one, and the grade there changes nothing.
pub fn load_catalog(strips: &Vec<Option<Strip>>) -> (r: Vec<Option<Vec<u8>>>)
    ensures
        r@.len() == strips@.len(),
        forall|k: int|
            0 <= k < r@.len() ==> match #[trigger] r@[k] {
                Some(cube) => resident_cube(strips@[k]) == Some(cube@),
                None => resident_cube(strips@[k]) is None,
            },
{
    let mut cubes: Vec<Option<Vec<u8>>> = Vec::new();
    let mut i: usize = 0;
    while i < strips.len()
        invariant
            i <= strips@.len(),
            cubes@.len() == i,
            forall|k: int|
                0 <= k < cubes@.len() ==> match #[trigger] cubes@[k] {
                    Some(cube) => resident_cube(strips@[k]) == Some(cube@),
                    None => resident_cube(strips@[k]) is None,
                },
        decreases strips@.len() - i,
    {
        let cube: Option<Vec<u8>> = match &strips[i] {
            Some(s) => match strip_to_cube(s.width, s.height, &s.mips) {
                Ok(cube) => Some(cube),
                Err(_) => None,
            },
            None => None,
        };
        cubes.push(cube);
        i += 1;
    }
    cubes
}

} // verus!
