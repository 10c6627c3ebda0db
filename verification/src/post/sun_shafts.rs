//! The sun shafts: which cameras show them, how far off the frame the sun may stand, and the
//! pipeline a view takes.
use crate::post::grading::ViewWrite;
use crate::single::{Single, ZERO_BITS};
use vstd::prelude::*;

verus! {

/// The far plane of a camera without perspective: 3000.
pub const FLAT_FAR_BITS: u32 = 0x453B_8000;

/// The strength at and below which shafts are not shown: 0.001.
pub const LEAST_STRENGTH_BITS: u32 = 0x3A83_126F;

/// How many samples a shaft is drawn with: 28.
pub const SHAFT_SAMPLES_BITS: u32 = 0x41E0_0000;

/// What a camera's shafts are drawn with: the sun's place on the screen, their strength, and
/// their colour.
#[derive(Clone, Copy, Debug)]
pub struct ShaftView {
    pub u: Single,
    pub v: Single,
    pub strength: Single,
    pub red: Single,
    pub green: Single,
    pub blue: Single,
}

/// The two views draw the same.
pub open spec fn same_shafts(a: ShaftView, b: ShaftView) -> bool {
    &&& a.u.same_number(b.u)
    &&& a.v.same_number(b.v)
    &&& a.strength.same_number(b.strength)
    &&& a.red.same_number(b.red)
    &&& a.green.same_number(b.green)
    &&& a.blue.same_number(b.blue)
}

fn shafts_agree(a: &ShaftView, b: &ShaftView) -> (r: bool)
    ensures
        r == same_shafts(*a, *b),
{
    a.u.equals(b.u) && a.v.equals(b.v) && a.strength.equals(b.strength) && a.red.equals(b.red)
        && a.green.equals(b.green) && a.blue.equals(b.blue)
}

/// The eight numbers the pass reads: the sun's place, the strength and the samples, then the
/// colour and a zero.
pub open spec fn shaft_numbers(view: ShaftView) -> Seq<Single> {
    seq![
        view.u,
        view.v,
        view.strength,
        Single { bits: SHAFT_SAMPLES_BITS },
        view.red,
        view.green,
        view.blue,
        Single { bits: ZERO_BITS },
    ]
}

/// Lists the numbers the pass reads.
pub fn shaft_row(view: &ShaftView) -> (r: Vec<Single>)
    ensures
        r@ == shaft_numbers(*view),
{
    let mut row: Vec<Single> = Vec::new();
    row.push(view.u);
    row.push(view.v);
    row.push(view.strength);
    row.push(Single { bits: SHAFT_SAMPLES_BITS });
    row.push(view.red);
    row.push(view.green);
    row.push(view.blue);
    row.push(Single { bits: ZERO_BITS });
    assert(row@ =~= shaft_numbers(*view));
    row
}

/// What decides whether a camera shows shafts.
#[derive(Clone, Copy, Debug, PartialEq, Eq, Structural)]
pub struct ShaftGate {
    /// The setting.
    pub enabled: bool,
    /// The camera draws.
    pub active: bool,
    /// The camera stands in a room.
    pub indoors: bool,
    /// The sun has a direction.
    pub has_sun: bool,
}

/// Shafts may show: they are on, the camera draws outdoors, and there is a sun.
pub open spec fn may_show(state: ShaftGate) -> bool {
    state.enabled && state.active && !state.indoors && state.has_sun
}

/// The far plane a camera's sun stands before: its own with perspective, and else a fixed one.
pub fn far_plane(perspective: Option<Single>) -> (r: Single)
    ensures
        r == match perspective {
            Some(far) => far,
            None => Single { bits: FLAT_FAR_BITS },
        },
{
    match perspective {
        Some(far) => far,
        None => Single { bits: FLAT_FAR_BITS },
    }
}

/// How far off the frame the sun stands, from how far it lies past each of the four edges: the
/// most of them, and zero inside.
pub open spec fn off_frame(left: Single, right: Single, above: Single, below: Single) -> Single {
    let zero = Single { bits: ZERO_BITS };
    left.at_least(right).at_least(zero).at_least(above.at_least(below).at_least(zero))
}

/// Measures how far off the frame the sun stands.
pub fn outside_frame(left: Single, right: Single, above: Single, below: Single) -> (r: Single)
    ensures
        r == off_frame(left, right, above, below),
{
    let zero = Single { bits: ZERO_BITS };
    let across = left.max(right).max(zero);
    let down = above.max(below).max(zero);
    across.max(down)
}

/// What is done to a camera's shafts. `seen` is what they would be drawn with, where the sun has
/// a place on the screen: too weak a strength takes them away, and they are written only where
/// they differ.
pub open spec fn shaft_write(
    state: ShaftGate,
    seen: Option<ShaftView>,
    former: Option<ShaftView>,
) -> ViewWrite {
    if !may_show(state) {
        if former is Some {
            ViewWrite::Remove
        } else {
            ViewWrite::Leave
        }
    } else if !strong_enough(seen) {
        ViewWrite::Remove
    } else if former matches Some(view) && same_shafts(view, seen->0) {
        ViewWrite::Leave
    } else {
        ViewWrite::Insert
    }
}

/// The sun has a place on the screen, and its shafts are not too weak.
pub open spec fn strong_enough(seen: Option<ShaftView>) -> bool {
    match seen {
        Some(next) => !next.strength.at_most(Single { bits: LEAST_STRENGTH_BITS }),
        None => false,
    }
}

/// Decides what is done to a camera's shafts, and lets its depth be read where they are shown:
/// `readable` is the usage that does.
pub fn update_shaft_view(
    state: &ShaftGate,
    seen: &Option<ShaftView>,
    former: &Option<ShaftView>,
    readable: u32,
    depth_usages: &mut u32,
) -> (r: ViewWrite)
    ensures
        r == shaft_write(*state, *seen, *former),
        *final(depth_usages) == if may_show(*state) && strong_enough(*seen) {
            *old(depth_usages) | readable
        } else {
            *old(depth_usages)
        },
{
    if !(state.enabled && state.active && !state.indoors && state.has_sun) {
        return if former.is_some() {
            ViewWrite::Remove
        } else {
            ViewWrite::Leave
        };
    }
    let next: &ShaftView = match seen {
        Some(next) => next,
        None => {
            return ViewWrite::Remove;
        },
    };
    let least = Single { bits: LEAST_STRENGTH_BITS };
    if next.strength.is_at_most(least) {
        return ViewWrite::Remove;
    }
    *depth_usages = *depth_usages | readable;
    let held = match former {
        Some(view) => shafts_agree(view, next),
        None => false,
    };
    if held {
        ViewWrite::Leave
    } else {
        ViewWrite::Insert
    }
}

/// The pipeline a view takes: by its colour format, and whether its depth has several samples.
#[derive(Clone, Copy, Debug, PartialEq, Eq, Structural)]
pub struct ShaftKey {
    pub format: u32,
    pub multisampled: bool,
}

/// Chooses the pipeline a view takes.
pub fn shaft_key(format: u32, samples: u32) -> (r: ShaftKey)
    ensures
        r == (ShaftKey { format, multisampled: samples > 1 }),
{
    ShaftKey { format, multisampled: samples > 1 }
}

/// Decides whether a view's shafts are drawn: its pipeline is compiled and its depth can be read,
/// which `readable` is the usage for.
pub fn draws_shafts(pipeline: bool, readable: u32, depth_usages: u32) -> (r: bool)
    ensures
        r == (pipeline && depth_usages & readable == readable),
{
    pipeline && depth_usages & readable == readable
}

/// Inside the frame the sun is not off it, and it is never less than nothing off it.
pub proof fn inside_the_frame_is_not_off_it(
    left: Single,
    right: Single,
    above: Single,
    below: Single,
    zero: Single,
)
    requires
        zero == (Single { bits: ZERO_BITS }),
        !left.not_a_number() && !right.not_a_number() && !above.not_a_number()
            && !below.not_a_number(),
    ensures
        zero.at_most(off_frame(left, right, above, below)),
        left.at_most(zero) && right.at_most(zero) && above.at_most(zero) && below.at_most(zero)
            ==> off_frame(left, right, above, below).same_number(zero),
{
}

} // verus!
