//! The lights a model brings into the world with its entity: which of them are spawned, what each
//! hangs from, and how long it has stood still.
use crate::entities::lifecycle::{SpellLightMode, SPELL_BURST_SPAN_BITS};
use crate::shadow::geometry::Point;
use crate::single::{Single, ZERO_BITS};
use std::collections::HashMap;
use vstd::prelude::*;

verus! {

broadcast use vstd::std_specs::hash::group_hash_axioms;

/// The square of how far a light may drift and still count as standing still: 0.05 yards.
pub const STILL_DRIFT_SQUARED_BITS: u32 = 0x3B23_D70B;

/// How long a light must stand still before it is settled: 0.75 seconds.
pub const STILL_HOLD_BITS: u32 = 0x3F40_0000;

/// The kind of light block that throws light from a point.
pub const POINT_LIGHT: u16 = 1;

/// What makes a light a spell's: its school, and the seconds before it comes up.
#[derive(Clone, Copy, Debug, PartialEq, Eq, Structural)]
pub struct SpellLightInfo {
    pub school: u8,
    pub onset: Single,
}

/// One light block of a model. `position` is its place in the model and `rebased` the same place
/// seen from its bone's pivot.
#[derive(Clone, Copy, Debug, PartialEq, Eq, Structural)]
pub struct ModelLight {
    pub light_type: u16,
    pub bone: i16,
    pub visibility_off: bool,
    pub position: Point,
    pub rebased: Point,
    pub synthetic: bool,
    pub spell: Option<SpellLightInfo>,
}

/// A light block casts when it throws from a point and is not authored dark.
pub open spec fn light_casts(light: ModelLight) -> bool {
    light.light_type == POINT_LIGHT && !light.visibility_off
}

/// What a spawned light is.
#[derive(Clone, Copy, Debug, PartialEq, Eq, Structural)]
pub enum LightRole {
    /// A spell's light, with an onset and a life of its own.
    Spell { school: u8, onset: Single, mode: SpellLightMode },
    /// A carried light: `synthetic` where it was derived from a flame, `held` where a body
    /// carries it, and owned by the model it belongs to.
    Glow { synthetic: bool, held: bool, owner: u64 },
}

/// One light to spawn: the block it comes from, what it hangs under, and where.
#[derive(Clone, Copy, Debug, PartialEq, Eq, Structural)]
pub struct LightChild {
    pub block: usize,
    pub parent: u64,
    pub local: Point,
    pub role: LightRole,
}

/// The joint a light rides: that of its bone, and none for a light derived from a flame.
pub open spec fn host_joint(light: ModelLight, joints: Map<i16, u64>) -> Option<u64> {
    if !light.synthetic && joints.contains_key(light.bone) {
        Some(joints[light.bone])
    } else {
        None
    }
}

/// What becomes of one light block.
pub open spec fn child_of(
    light: ModelLight,
    block: usize,
    frame: u64,
    held: bool,
    joints: Map<i16, u64>,
    spells: bool,
) -> Option<LightChild> {
    let (parent, local) = match host_joint(light, joints) {
        Some(joint) => (joint, light.rebased),
        None => (frame, light.position),
    };
    if !light_casts(light) {
        None
    } else {
        match light.spell {
            Some(fx) => if spells {
                Some(
                    LightChild {
                        block,
                        parent,
                        local,
                        role: LightRole::Spell {
                            school: fx.school,
                            onset: fx.onset,
                            mode: SpellLightMode::Burst {
                                span: Single { bits: SPELL_BURST_SPAN_BITS },
                            },
                        },
                    },
                )
            } else {
                None
            },
            None => Some(
                LightChild {
                    block,
                    parent,
                    local,
                    role: LightRole::Glow { synthetic: light.synthetic, held, owner: frame },
                },
            ),
        }
    }
}

/// The lights that the blocks of a model spawn, in block order.
pub open spec fn children_of(
    lights: Seq<ModelLight>,
    frame: u64,
    held: bool,
    joints: Map<i16, u64>,
    spells: bool,
) -> Seq<LightChild>
    decreases lights.len(),
{
    if lights.len() == 0 {
        seq![]
    } else {
        let before = children_of(lights.drop_last(), frame, held, joints, spells);
        match child_of(
            lights.last(),
            (lights.len() - 1) as usize,
            frame,
            held,
            joints,
            spells,
        ) {
            Some(child) => before.push(child),
            None => before,
        }
    }
}

fn plan_light(
    light: &ModelLight,
    block: usize,
    frame: u64,
    held: bool,
    joints: &HashMap<i16, u64>,
    spells: bool,
) -> (r: Option<LightChild>)
    ensures
        r == child_of(*light, block, frame, held, joints@, spells),
{
    if light.light_type != POINT_LIGHT || light.visibility_off {
        return None;
    }
    let host: Option<u64> = if light.synthetic {
        None
    } else {
        match joints.get(&light.bone) {
            Some(joint) => Some(*joint),
            None => None,
        }
    };
    let (parent, local): (u64, Point) = match host {
        Some(joint) => (joint, light.rebased),
        None => (frame, light.position),
    };
    match light.spell {
        Some(fx) => {
            if !spells {
                return None;
            }
            let mode = SpellLightMode::Burst { span: Single { bits: SPELL_BURST_SPAN_BITS } };
            let role = LightRole::Spell { school: fx.school, onset: fx.onset, mode };
            Some(LightChild { block, parent, local, role })
        },
        None => {
            let role = LightRole::Glow { synthetic: light.synthetic, held, owner: frame };
            Some(LightChild { block, parent, local, role })
        },
    }
}

/// Plans the lights of a model under the entity `frame`. Only a casting block spawns. An authored
/// light rides its bone's joint, where the model has it; a light derived from a flame, and one
/// without a joint, hangs from the frame. A spell's light is a burst, and is dropped where spell
/// lights are off.
pub fn spawn_carried_lights(
    lights: &Vec<ModelLight>,
    frame: u64,
    held: bool,
    joints: &HashMap<i16, u64>,
    spells: bool,
) -> (r: Vec<LightChild>)
    ensures
        r@ == children_of(lights@, frame, held, joints@, spells),
{
    let mut children: Vec<LightChild> = Vec::new();
    let mut i: usize = 0;
    assert(lights@.take(0) =~= seq![]);
    while i < lights.len()
        invariant
            i <= lights@.len(),
            children@ == children_of(lights@.take(i as int), frame, held, joints@, spells),
        decreases lights@.len() - i,
    {
        proof {
            assert(lights@.take(i as int + 1).drop_last() =~= lights@.take(i as int));
            assert(lights@.take(i as int + 1).last() == lights@[i as int]);
        }
        if let Some(child) = plan_light(&lights[i], i, frame, held, joints, spells) {
            children.push(child);
        }
        i += 1;
    }
    assert(lights@.take(i as int) =~= lights@);
    children
}

/// `lights` holds its first spell light at `at`.
pub open spec fn first_spell(lights: Seq<ModelLight>, at: int) -> bool {
    &&& 0 <= at < lights.len()
    &&& lights[at].spell is Some
    &&& forall|k: int| 0 <= k < at ==> (#[trigger] lights[k]).spell is None
}

/// Finds the first spell light of a model.
pub fn spell_block(lights: &Vec<ModelLight>) -> (r: Option<usize>)
    ensures
        match r {
            Some(at) => first_spell(lights@, at as int),
            None => forall|k: int|
                0 <= k < lights@.len() ==> (#[trigger] lights@[k]).spell is None,
        },
{
    let mut i: usize = 0;
    while i < lights.len()
        invariant
            i <= lights@.len(),
            forall|k: int| 0 <= k < i ==> (#[trigger] lights@[k]).spell is None,
        decreases lights@.len() - i,
    {
        if lights[i].spell.is_some() {
            return Some(i);
        }
        i += 1;
    }
    None
}

/// Plans the one light of a luminous effect under its root: that of the first spell block, at the
/// block's own place, and none where spell lights are off or the model has no such block.
pub fn spawn_spell_light(
    lights: &Vec<ModelLight>,
    root: u64,
    mode: SpellLightMode,
    spells: bool,
) -> (r: Option<LightChild>)
    ensures
        r is Some <==> spells && exists|k: int| 0 <= k < lights@.len() && (#[trigger] lights@[k]).spell is Some,
        r matches Some(child) ==> first_spell(lights@, child.block as int) && child == (LightChild {
            block: child.block,
            parent: root,
            local: lights@[child.block as int].position,
            role: (LightRole::Spell {
                school: lights@[child.block as int].spell->0.school,
                onset: lights@[child.block as int].spell->0.onset,
                mode,
            }),
        }),
{
    let at: usize = match spell_block(lights) {
        Some(at) => at,
        None => {
            return None;
        },
    };
    assert(lights@[at as int].spell is Some);
    if !spells {
        return None;
    }
    match lights[at].spell {
        Some(fx) => {
            let role = LightRole::Spell { school: fx.school, onset: fx.onset, mode };
            Some(LightChild { block: at, parent: root, local: lights[at].position, role })
        },
        None => None,
    }
}

/// The one light of an area effect: the block whose colour and brightness it takes, or none where
/// the school alone decides; where it hangs before it is lifted; and its place in the cycle of a
/// thousand breathing phases.
#[derive(Clone, Copy, Debug, PartialEq, Eq, Structural)]
pub struct AreaLight {
    pub source: Option<usize>,
    pub parent: u64,
    pub local: Point,
    pub onset: Single,
    pub phase_step: u32,
}

/// Plans the one light of an area effect on its anchor. The model's own spell block gives its
/// place and colour; without one the light hangs over the anchor's origin. It comes up at once.
pub fn spawn_area_spell_light(
    lights: &Vec<ModelLight>,
    luminous: bool,
    anchor: u64,
    spells: bool,
) -> (r: Option<AreaLight>)
    ensures
        r is Some <==> luminous && spells,
        r matches Some(area) ==> {
            &&& area.parent == anchor
            &&& area.onset == (Single { bits: ZERO_BITS })
            &&& area.phase_step == anchor % 1000
            &&& match area.source {
                Some(at) => first_spell(lights@, at as int) && area.local
                    == lights@[at as int].position,
                None => (forall|k: int|
                    0 <= k < lights@.len() ==> (#[trigger] lights@[k]).spell is None)
                    && area.local == origin(),
            }
        },
{
    if !luminous || !spells {
        return None;
    }
    let source = spell_block(lights);
    let zero = Single { bits: ZERO_BITS };
    let local: Point = match source {
        Some(at) => lights[at].position,
        None => Point { x: zero, y: zero, z: zero },
    };
    let phase_step: u32 = (anchor % 1000) as u32;
    Some(AreaLight { source, parent: anchor, local, onset: zero, phase_step })
}

/// The origin of a frame.
pub open spec fn origin() -> Point {
    Point {
        x: Single { bits: ZERO_BITS },
        y: Single { bits: ZERO_BITS },
        z: Single { bits: ZERO_BITS },
    }
}

/// The bits of `bits` turned eleven places to the left, and of those the low half.
pub open spec fn turned(bits: u64) -> u32 {
    ((bits << 11) | (bits >> 53)) as u32
}

/// Mixes a flame's seed out of its place and what it hangs from, so that two copies of a model
/// never burn in step.
pub fn flame_seed(place: u32, parent: u64) -> (r: u32)
    ensures
        r == place ^ turned(parent),
{
    place ^ (((parent << 11) | (parent >> 53)) as u32)
}

/// Two flames at one place burn alike only where their parents agree in the bits that count.
pub proof fn flames_differ_with_their_parents(place: u32, a: u64, b: u64)
    ensures
        place ^ turned(a) == place ^ turned(b) <==> turned(a) == turned(b),
{
    let x = turned(a);
    let y = turned(b);
    assert(place ^ x == place ^ y <==> x == y) by (bit_vector);
}

/// How long a carried light has stood still: where it last moved to, and for how long it has not
/// moved since.
#[derive(Clone, Copy, Debug, PartialEq, Eq, Structural)]
pub struct CarriedLightMotion {
    pub last: Point,
    pub still_for: Single,
}

impl CarriedLightMotion {
    /// The light has stood still long enough.
    pub open spec fn is_settled(self) -> bool {
        Single { bits: STILL_HOLD_BITS }.at_most(self.still_for)
    }

    /// Has this light held still long enough to be trusted with a cached shadow?
    pub fn settled(&self) -> (r: bool)
        ensures
            r == self.is_settled(),
    {
        let hold = Single { bits: STILL_HOLD_BITS };
        hold.is_at_most(self.still_for)
    }
}

/// The motion of a light after a frame: one seen for the first time counts as just moved; one
/// that drifted too far starts over; one that has not is credited the frame until it is settled.
pub open spec fn motion_after(
    motion: Option<CarriedLightMotion>,
    place: Point,
    drift_squared: Single,
    credited: Single,
) -> CarriedLightMotion {
    let zero = Single { bits: ZERO_BITS };
    match motion {
        None => CarriedLightMotion { last: place, still_for: zero },
        Some(m) => if (Single { bits: STILL_DRIFT_SQUARED_BITS }).below(drift_squared) {
            CarriedLightMotion { last: place, still_for: zero }
        } else if m.still_for.below(Single { bits: STILL_HOLD_BITS }) {
            CarriedLightMotion { still_for: credited, ..m }
        } else {
            m
        },
    }
}

/// Tracks one carried light for a frame. `drift_squared` is the squared distance from where it
/// last moved to, and `credited` its time at rest with the frame added.
pub fn track_carried_light_motion(
    motion: Option<CarriedLightMotion>,
    place: Point,
    drift_squared: Single,
    credited: Single,
) -> (r: CarriedLightMotion)
    ensures
        r == motion_after(motion, place, drift_squared, credited),
{
    let zero = Single { bits: ZERO_BITS };
    let hold = Single { bits: STILL_HOLD_BITS };
    let drift = Single { bits: STILL_DRIFT_SQUARED_BITS };
    match motion {
        None => CarriedLightMotion { last: place, still_for: zero },
        Some(m) => if drift.is_below(drift_squared) {
            CarriedLightMotion { last: place, still_for: zero }
        } else if m.still_for.is_below(hold) {
            CarriedLightMotion { last: m.last, still_for: credited }
        } else {
            m
        },
    }
}

/// A light is never settled on its first frame, nor on a frame on which it moved too far.
pub proof fn a_moving_light_is_not_settled(
    motion: Option<CarriedLightMotion>,
    place: Point,
    drift_squared: Single,
    credited: Single,
    limit: Single,
)
    requires
        limit == (Single { bits: STILL_DRIFT_SQUARED_BITS }),
        motion is None || limit.below(drift_squared),
    ensures
        !motion_after(motion, place, drift_squared, credited).is_settled(),
{
}

/// A settled light that stays put is left as it is.
pub proof fn a_settled_light_is_left_alone(
    m: CarriedLightMotion,
    place: Point,
    drift_squared: Single,
    credited: Single,
    limit: Single,
)
    requires
        limit == (Single { bits: STILL_DRIFT_SQUARED_BITS }),
        m.is_settled(),
        !limit.below(drift_squared),
    ensures
        motion_after(Some(m), place, drift_squared, credited) == m,
{
}

/// Every light that is planned comes from a casting block, and from each block at most one.
pub proof fn only_casting_blocks_spawn(
    lights: Seq<ModelLight>,
    frame: u64,
    held: bool,
    joints: Map<i16, u64>,
    spells: bool,
    k: int,
)
    requires
        lights.len() <= usize::MAX,
        0 <= k < children_of(lights, frame, held, joints, spells).len(),
    ensures
        ({
            let child = children_of(lights, frame, held, joints, spells)[k];
            &&& child.block < lights.len()
            &&& light_casts(lights[child.block as int])
            &&& k > 0 ==> children_of(lights, frame, held, joints, spells)[k - 1].block
                < child.block
        }),
    decreases lights.len(),
{
    let before = children_of(lights.drop_last(), frame, held, joints, spells);
    if k < before.len() {
        only_casting_blocks_spawn(lights.drop_last(), frame, held, joints, spells, k);
        assert(lights[before[k].block as int] == lights.drop_last()[before[k].block as int]);
    } else if k > 0 {
        only_casting_blocks_spawn(lights.drop_last(), frame, held, joints, spells, k - 1);
    }
}

} // verus!
