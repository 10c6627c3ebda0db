//! The shadow rig: the one light both lanes cast into, its life, its place on the world camera's
//! layers, and when it is aimed anew.
use crate::single::{Single, ZERO_BITS};
use vstd::prelude::*;

verus! {

/// The bit of the private layer that only shadow casters and their light stand on.
pub const SHADOW_LAYER: u64 = 0x8000_0000;

/// The layers of a camera that declares none: the world's.
pub const WORLD_LAYERS: u64 = 1;

/// How far the live sun may drift before the light snaps to it: 8.0e-4 radians.
pub const SUN_SNAP_BITS: u32 = 0x3A51_B717;

/// The steepest drop, 1e-3, below which a light counts as level.
pub const LEVEL_BITS: u32 = 0x3A83_126F;

/// The ceiling on how far past a caster its shadow is hunted: 120.
pub const SHADOW_REACH_CAP_BITS: u32 = 0x42F0_0000;

/// The least factor on the collection reach: 0.25.
pub const LEAST_REACH_BITS: u32 = 0x3E80_0000;

/// The largest factor on the collection reach: 2.
pub const MOST_REACH_BITS: u32 = 0x4000_0000;

/// The least elevation the light is aimed from: 0.314 radians.
pub const LEAST_ELEVATION_BITS: u32 = 0x3EA0_C49C;

/// The greatest elevation the light is aimed from: 1.134 radians.
pub const GREATEST_ELEVATION_BITS: u32 = 0x3F91_26E9;

/// The horizontal run up to which a direction has no bearing: 1e-4.
pub const NO_BEARING_BITS: u32 = 0x38D1_B717;

/// A direction, by the bits of its coordinates.
#[derive(Clone, Copy, Debug, PartialEq, Eq, Structural)]
pub struct Direction {
    pub x: Single,
    pub y: Single,
    pub z: Single,
}

/// The light is aimed anew when it has never been aimed, and when the live direction lies more
/// than the snap angle off the held one.
pub open spec fn snap_due(held: Option<Direction>, angle: Single) -> bool {
    held is None || Single { bits: SUN_SNAP_BITS }.below(angle)
}

/// Decides whether the light is aimed anew; `angle` is the angle between the held direction and
/// the live one.
pub fn sun_snap_due(held: Option<Direction>, angle: Single) -> (r: bool)
    ensures
        r == snap_due(held, angle),
{
    let threshold = Single { bits: SUN_SNAP_BITS };
    held.is_none() || threshold.is_below(angle)
}

/// How far past a caster its shadow can land: `projected`, the tallest caster's height times the
/// light's run over its drop, and never more than the cap; a level light takes the cap.
pub open spec fn reach_extension(down: Single, projected: Single) -> Single {
    let cap = Single { bits: SHADOW_REACH_CAP_BITS };
    if down.at_most(Single { bits: LEVEL_BITS }) {
        cap
    } else {
        projected.no_more_than(cap)
    }
}

/// Bounds how far past a caster its shadow is hunted.
pub fn shadow_reach_extension(down: Single, projected: Single) -> (r: Single)
    ensures
        r == reach_extension(down, projected),
{
    let cap = Single { bits: SHADOW_REACH_CAP_BITS };
    let level = Single { bits: LEVEL_BITS };
    if down.is_at_most(level) {
        cap
    } else {
        projected.min(cap)
    }
}

/// The elevation the light is aimed from: the body's own, held between the least and the greatest,
/// so that a set body never turns the shadow over and a high one never loses its bearing.
pub open spec fn held_elevation(body: Single) -> Single {
    body.clamped(
        Single { bits: LEAST_ELEVATION_BITS },
        Single { bits: GREATEST_ELEVATION_BITS },
    )
}

/// Holds the elevation the light is aimed from.
pub fn light_elevation(body: Single) -> (r: Single)
    ensures
        r == held_elevation(body),
{
    let least = Single { bits: LEAST_ELEVATION_BITS };
    let greatest = Single { bits: GREATEST_ELEVATION_BITS };
    body.clamp(least, greatest)
}

/// Decides whether a body's direction has a bearing, by the length of its horizontal run.
pub fn has_bearing(run: Single) -> (r: bool)
    ensures
        r == (Single { bits: NO_BEARING_BITS }).below(run),
{
    let least = Single { bits: NO_BEARING_BITS };
    least.is_below(run)
}

/// Wherever a body stands, the light is aimed from above the horizon and below the zenith.
pub proof fn the_light_is_always_aimed_from_above(body: Single, zero: Single, greatest: Single)
    requires
        zero == (Single { bits: ZERO_BITS }),
        greatest == (Single { bits: GREATEST_ELEVATION_BITS }),
        !body.not_a_number(),
    ensures
        zero.below(held_elevation(body)),
        held_elevation(body).at_most(greatest),
{
    reveal(Single::clamped);
}

/// The factor on the collection reach, held to its range.
pub open spec fn reach_factor(asked: Single) -> Single {
    asked.clamped(Single { bits: LEAST_REACH_BITS }, Single { bits: MOST_REACH_BITS })
}

/// Holds the factor on the collection reach to its range.
pub fn reach_scale(asked: Single) -> (r: Single)
    ensures
        r == reach_factor(asked),
{
    let low = Single { bits: LEAST_REACH_BITS };
    let high = Single { bits: MOST_REACH_BITS };
    asked.clamp(low, high)
}

/// A world camera as the rig sees it: its layers, a bit for each, where it declares any, and the
/// rig's mark on it, which remembers whether it had layers before.
#[derive(Clone, Copy, Debug, PartialEq, Eq, Structural)]
pub struct RigCamera {
    pub entity: u64,
    pub layers: Option<u64>,
    pub marker: Option<bool>,
}

/// A camera that sees the private layer.
pub open spec fn with_layer(camera: RigCamera) -> RigCamera {
    let layers = match camera.layers {
        Some(mask) => Some(mask | SHADOW_LAYER),
        None => if camera.marker is Some {
            None
        } else {
            Some(WORLD_LAYERS | SHADOW_LAYER)
        },
    };
    let marker = match camera.marker {
        Some(had_layers) => Some(had_layers),
        None => Some(camera.layers is Some),
    };
    RigCamera { layers, marker, ..camera }
}

/// Puts a camera on the private layer and marks it.
pub fn join_layer(camera: RigCamera) -> (r: RigCamera)
    ensures
        r == with_layer(camera),
{
    let layers: Option<u64> = match camera.layers {
        Some(mask) => Some(mask | SHADOW_LAYER),
        None => if camera.marker.is_some() {
            None
        } else {
            Some(WORLD_LAYERS | SHADOW_LAYER)
        },
    };
    let marker: Option<bool> = match camera.marker {
        Some(had_layers) => Some(had_layers),
        None => Some(camera.layers.is_some()),
    };
    RigCamera { entity: camera.entity, layers, marker }
}

/// A camera that has left the private layer: a marked one has its former layers back, or none if
/// it had none; an unmarked one was never touched.
pub open spec fn without_layer(camera: RigCamera) -> RigCamera {
    match camera.marker {
        None => camera,
        Some(had_layers) => RigCamera {
            entity: camera.entity,
            layers: if had_layers {
                match camera.layers {
                    Some(mask) => Some(mask & !SHADOW_LAYER),
                    None => None,
                }
            } else {
                None
            },
            marker: None,
        },
    }
}

/// Takes a camera off the private layer.
pub fn leave_layer(camera: RigCamera) -> (r: RigCamera)
    ensures
        r == without_layer(camera),
{
    match camera.marker {
        None => camera,
        Some(had_layers) => RigCamera {
            entity: camera.entity,
            layers: if had_layers {
                match camera.layers {
                    Some(mask) => Some(mask & !SHADOW_LAYER),
                    None => None,
                }
            } else {
                None
            },
            marker: None,
        },
    }
}

/// The cameras after each has joined the private layer, or left it.
pub open spec fn relayered(cameras: Seq<RigCamera>, on: bool) -> Seq<RigCamera> {
    cameras.map_values(|c: RigCamera| if on { with_layer(c) } else { without_layer(c) })
}

/// Moves every camera onto the private layer, or off it.
pub fn relayer(cameras: &Vec<RigCamera>, on: bool) -> (r: Vec<RigCamera>)
    ensures
        r@ == relayered(cameras@, on),
{
    let mut moved: Vec<RigCamera> = Vec::new();
    let mut i: usize = 0;
    while i < cameras.len()
        invariant
            i <= cameras@.len(),
            moved@.len() == i,
            forall|k: int|
                0 <= k < i ==> #[trigger] moved@[k] == if on {
                    with_layer(cameras@[k])
                } else {
                    without_layer(cameras@[k])
                },
        decreases cameras@.len() - i,
    {
        let camera = cameras[i];
        moved.push(if on { join_layer(camera) } else { leave_layer(camera) });
        i += 1;
    }
    assert(moved@ =~= relayered(cameras@, on));
    moved
}

/// A camera that joins the private layer and leaves it again is as it was, provided it carried no
/// mark and did not stand on the private layer on its own account.
pub proof fn leaving_undoes_joining(camera: RigCamera)
    requires
        camera.marker is None,
        camera.layers matches Some(mask) ==> mask & SHADOW_LAYER == 0,
    ensures
        without_layer(with_layer(camera)) == camera,
{
    if let Some(mask) = camera.layers {
        assert(mask & 0x8000_0000u64 == 0 ==> (mask | 0x8000_0000u64) & !0x8000_0000u64 == mask)
            by (bit_vector);
    }
}

/// Joining twice is joining once.
pub proof fn joining_again_changes_nothing(camera: RigCamera)
    ensures
        with_layer(with_layer(camera)) == with_layer(camera),
{
    if let Some(mask) = camera.layers {
        assert((mask | 0x8000_0000u64) | 0x8000_0000u64 == mask | 0x8000_0000u64) by (bit_vector);
    }
    assert((1u64 | 0x8000_0000u64) | 0x8000_0000u64 == 1u64 | 0x8000_0000u64) by (bit_vector);
}

/// The two bodies the light can be aimed at.
#[derive(Clone, Copy, Debug, PartialEq, Eq, Structural)]
pub enum ShadowBody {
    Sun,
    Moon,
}

/// The hand-over between the two bodies: the one asked for and the one the light is aimed at.
#[derive(Clone, Copy, Debug, PartialEq, Eq, Structural)]
pub struct Handover {
    pub wanted: Option<ShadowBody>,
    pub aimed: Option<ShadowBody>,
}

/// What the rig keeps from frame to frame.
#[derive(Clone, Copy, Debug, PartialEq, Eq, Structural)]
pub struct RigState {
    pub sun: Option<u64>,
    pub sun_written: Option<Direction>,
    pub material: Option<u64>,
    pub cascade_distance: Option<Single>,
}

/// What the rig publishes for the lanes.
#[derive(Clone, Copy, Debug, PartialEq, Eq, Structural)]
pub struct ShadowFrame {
    pub active: bool,
    pub suspended: bool,
    pub material: Option<u64>,
}

/// What the rig finds at the start of a frame. `fresh_sun` and `fresh_material` are the handles a
/// spawn would take; `sun_found` says that the light the rig holds is there.
#[derive(Clone, Copy, Debug, PartialEq, Eq, Structural)]
pub struct RigInputs {
    pub demand: bool,
    pub in_world: bool,
    pub sun_weight: Single,
    pub moon_strength: Single,
    pub distance: Single,
    pub published_distance: Single,
    pub sun_found: bool,
    pub fresh_sun: u64,
    pub fresh_material: u64,
}

/// What the rig asks for at the start of a frame.
#[derive(Clone, Copy, Debug, PartialEq, Eq, Structural)]
pub struct RigPlan {
    /// The distance at which the receivers fade has to be published.
    pub publish_distance: bool,
    /// The rig stands this frame.
    pub wanted: bool,
    /// The light to despawn.
    pub despawn: Option<u64>,
    /// The material to drop.
    pub drop_material: Option<u64>,
    /// The hand-over starts over, with no time passed.
    pub restart_handover: bool,
    /// A material has to be made.
    pub make_material: bool,
    /// A light has to be spawned, with its shadows on unless suspended.
    pub spawn_sun: bool,
    /// The cascade has to be fitted to the distance.
    pub refit: bool,
}

/// A lane that is on asks for the rig, and one that is off takes no other lane's asking back.
pub fn declare_demand(demand: &mut bool, on: bool)
    ensures
        *final(demand) == (*old(demand) || on),
{
    *demand = *demand || on;
}

/// Reads what the lanes asked for last frame, and resets it for them to ask again.
pub fn take_demand(demand: &mut bool) -> (r: bool)
    ensures
        r == *old(demand),
        !*final(demand),
{
    let asked = *demand;
    *demand = false;
    asked
}

/// The rig stands when a lane asked for it last frame and the player is in the world.
pub open spec fn rig_wanted(inputs: RigInputs) -> bool {
    inputs.demand && inputs.in_world
}

/// Rebuild work pauses while neither body casts: the sun is down and the moon's strength is off.
pub open spec fn rig_suspended(inputs: RigInputs) -> bool {
    let zero = Single { bits: ZERO_BITS };
    inputs.sun_weight.at_most(zero) && inputs.moon_strength.at_most(zero)
}

/// The light was aimed once and is gone without the rig's doing.
pub open spec fn sun_was_removed(rig: RigState, inputs: RigInputs) -> bool {
    rig.sun_written is Some && rig.sun is Some && !inputs.sun_found
}

/// The cascade the rig holds is fitted to the distance.
pub open spec fn fits(fitted: Option<Single>, distance: Single) -> bool {
    fitted matches Some(held) && held.same_number(distance)
}

/// The rig's own state after the start of a frame.
pub open spec fn settled_rig(rig: RigState, inputs: RigInputs) -> RigState {
    if !rig_wanted(inputs) {
        RigState { sun: None, sun_written: None, material: None, ..rig }
    } else {
        let spawns = rig.sun is None || sun_was_removed(rig, inputs);
        RigState {
            sun: if spawns { Some(inputs.fresh_sun) } else { rig.sun },
            sun_written: if spawns { None } else { rig.sun_written },
            material: if rig.material is None { Some(inputs.fresh_material) } else { rig.material },
            cascade_distance: if spawns || !fits(rig.cascade_distance, inputs.distance) {
                Some(inputs.distance)
            } else {
                rig.cascade_distance
            },
        }
    }
}

/// What the rig asks for at the start of a frame.
pub open spec fn rig_plan(rig: RigState, inputs: RigInputs) -> RigPlan {
    let wanted = rig_wanted(inputs);
    let removed = sun_was_removed(rig, inputs);
    let spawns = rig.sun is None || removed;
    RigPlan {
        publish_distance: !inputs.published_distance.same_number(inputs.distance),
        wanted,
        despawn: if wanted { None } else { rig.sun },
        drop_material: if wanted { None } else { rig.material },
        restart_handover: wanted && removed,
        make_material: wanted && rig.material is None,
        spawn_sun: wanted && spawns,
        refit: wanted && !fits(
            if spawns { Some(inputs.distance) } else { rig.cascade_distance },
            inputs.distance,
        ),
    }
}

/// Starts a frame of the rig. A rig that is not wanted
/// is torn down: its light and material go, and with them the held direction. A rig that is
/// wanted replaces a light that was removed from outside, makes what it lacks, and fits the
/// cascade only where the distance changed.
pub fn settle_rig(
    inputs: &RigInputs,
    rig: &mut RigState,
    frame: &mut ShadowFrame,
) -> (r: RigPlan)
    ensures
        r == rig_plan(*old(rig), *inputs),
        *final(rig) == settled_rig(*old(rig), *inputs),
        final(frame).suspended == rig_suspended(*inputs),
        final(frame).active == (rig_wanted(*inputs) && old(frame).active),
        final(frame).material == if rig_wanted(*inputs) {
            old(frame).material
        } else {
            None
        },
{
    let zero = Single { bits: ZERO_BITS };
    let publish_distance = !inputs.published_distance.equals(inputs.distance);
    let wanted = inputs.demand && inputs.in_world;
    frame.suspended = inputs.sun_weight.is_at_most(zero) && inputs.moon_strength.is_at_most(zero);
    if !wanted {
        let despawn: Option<u64> = rig.sun;
        let drop_material: Option<u64> = rig.material;
        rig.sun = None;
        rig.sun_written = None;
        rig.material = None;
        frame.active = false;
        frame.material = None;
        return RigPlan {
            publish_distance,
            wanted,
            despawn,
            drop_material,
            restart_handover: false,
            make_material: false,
            spawn_sun: false,
            refit: false,
        };
    }
    let removed = rig.sun_written.is_some() && rig.sun.is_some() && !inputs.sun_found;
    if removed {
        rig.sun = None;
        rig.sun_written = None;
    }
    let make_material = rig.material.is_none();
    if make_material {
        rig.material = Some(inputs.fresh_material);
    }
    let spawn_sun = rig.sun.is_none();
    if spawn_sun {
        rig.sun = Some(inputs.fresh_sun);
        rig.sun_written = None;
        rig.cascade_distance = Some(inputs.distance);
    }
    let fitted = match rig.cascade_distance {
        Some(held) => held.equals(inputs.distance),
        None => false,
    };
    if !fitted {
        rig.cascade_distance = Some(inputs.distance);
    }
    RigPlan {
        publish_distance,
        wanted,
        despawn: None,
        drop_material: None,
        restart_handover: removed,
        make_material,
        spawn_sun,
        refit: !fitted,
    }
}

/// What the rig asks for once it stands.
#[derive(Clone, Copy, Debug, PartialEq, Eq, Structural)]
pub struct AimPlan {
    /// The light's shadows have to be switched to this.
    pub switch_shadows: Option<bool>,
    /// The light has to be turned to the live direction.
    pub turn: bool,
    /// The body that the hand-over is told the light is aimed at.
    pub aim_written: Option<ShadowBody>,
}

/// The light is turned when the body asked for is not the one aimed at, and when the snap is due.
pub open spec fn turns(rig: RigState, handover: Handover, angle: Single) -> bool {
    handover.aimed != handover.wanted || snap_due(rig.sun_written, angle)
}

/// What the rig asks for once it stands: nothing without a light to be found.
pub open spec fn aim_plan(
    rig: RigState,
    handover: Handover,
    angle: Single,
    light: Option<bool>,
    suspended: bool,
) -> AimPlan {
    match light {
        Some(shadows) if rig.sun is Some => AimPlan {
            switch_shadows: if shadows == suspended { Some(!suspended) } else { None },
            turn: turns(rig, handover, angle),
            aim_written: if turns(rig, handover, angle) { handover.wanted } else { None },
        },
        _ => AimPlan { switch_shadows: None, turn: false, aim_written: None },
    }
}

/// The light is aimed at the moon when that is the body asked for, and else at the sun.
pub fn aims_at_moon(handover: &Handover) -> (r: bool)
    ensures
        r == (handover.wanted == Some(ShadowBody::Moon)),
{
    match handover.wanted {
        Some(ShadowBody::Moon) => true,
        _ => false,
    }
}

/// Aims a rig that stands. `light` says whether the rig's light is there and casts; `angle` is
/// the angle between the held direction and `direction`, the live one.
pub fn aim_rig(
    handover: &Handover,
    direction: Direction,
    angle: Single,
    light: Option<bool>,
    rig: &mut RigState,
    frame: &mut ShadowFrame,
) -> (r: AimPlan)
    ensures
        r == aim_plan(*old(rig), *handover, angle, light, old(frame).suspended),
        *final(rig) == (RigState {
            sun_written: if r.turn {
                Some(direction)
            } else {
                old(rig).sun_written
            },
            ..*old(rig)
        }),
        *final(frame) == (ShadowFrame {
            active: old(rig).sun is Some && light is Some,
            suspended: old(frame).suspended,
            material: old(rig).material,
        }),
{
    let mut plan = AimPlan { switch_shadows: None, turn: false, aim_written: None };
    frame.active = rig.sun.is_some() && light.is_some();
    if rig.sun.is_some() {
        if let Some(shadows) = light {
            if shadows == frame.suspended {
                plan.switch_shadows = Some(!frame.suspended);
            }
            if !same_body(handover.aimed, handover.wanted) || sun_snap_due(
                rig.sun_written,
                angle,
            ) {
                plan.turn = true;
                plan.aim_written = handover.wanted;
                rig.sun_written = Some(direction);
            }
        }
    }
    frame.material = rig.material;
    plan
}

fn same_body(a: Option<ShadowBody>, b: Option<ShadowBody>) -> (r: bool)
    ensures
        r == (a == b),
{
    match (a, b) {
        (Some(x), Some(y)) => x == y,
        (None, None) => true,
        _ => false,
    }
}

/// A rig that is torn down leaves nothing behind, and one that comes up again aims its fresh
/// light at once, whatever the angle.
pub proof fn a_fresh_rig_is_aimed_at_once(
    rig: RigState,
    down: RigInputs,
    up: RigInputs,
    handover: Handover,
    angle: Single,
)
    requires
        !rig_wanted(down),
        rig_wanted(up),
    ensures
        settled_rig(rig, down).sun is None,
        settled_rig(rig, down).sun_written is None,
        settled_rig(rig, down).material is None,
        turns(settled_rig(settled_rig(rig, down), up), handover, angle),
{
}

/// A rig that stands and whose distance does not change is settled once and for all: settling it
/// again asks for nothing and changes nothing.
pub proof fn a_settled_rig_stays_settled(rig: RigState, inputs: RigInputs)
    requires
        rig_wanted(inputs),
        inputs.sun_found,
        !inputs.distance.not_a_number(),
        inputs.published_distance == inputs.distance,
    ensures
        settled_rig(settled_rig(rig, inputs), inputs) == settled_rig(rig, inputs),
        rig_plan(settled_rig(rig, inputs), inputs) == (RigPlan {
            publish_distance: false,
            wanted: true,
            despawn: None,
            drop_material: None,
            restart_handover: false,
            make_material: false,
            spawn_sun: false,
            refit: false,
        }),
{
    assert(inputs.distance.same_number(inputs.distance));
}

} // verus!
