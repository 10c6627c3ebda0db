//! What holds of every frame of the shadow rig.
use crate::shadow::rig::{
    aim_rig, aims_at_moon, declare_demand, has_bearing, join_layer, leave_layer, light_elevation,
    reach_scale, relayer, settle_rig, shadow_reach_extension, sun_snap_due, take_demand, AimPlan,
    Direction, Handover, RigCamera, RigInputs, RigPlan, RigState, ShadowBody, ShadowFrame,
};
use crate::single::{Single, ZERO_BITS};
use vstd::prelude::*;

verus! {

/// The light is aimed anew when it never was, and when it lies more than 8.0e-4 radians off; one
/// that lies no further off, or by no number, is left.
pub proof fn a_light_snaps_past_its_angle(held: Direction, angle: Single, aimed: bool, fresh: bool)
    requires
        call_ensures(sun_snap_due, (Some(held), angle), aimed),
        call_ensures(sun_snap_due, (None, angle), fresh),
    ensures
        fresh,
        aimed <==> (Single { bits: 0x3A51_B717 }).below(angle),
        angle.bits == 0x3A51_B717 ==> !aimed,
        angle.not_a_number() ==> !aimed,
{
}

/// A shadow is never hunted further than 120 past its caster: a level light takes all of that,
/// and a steeper one what its slope projects, if that is less.
pub proof fn a_shadow_is_hunted_no_further_than_its_cap(down: Single, projected: Single, r: Single)
    requires
        call_ensures(shadow_reach_extension, (down, projected), r),
        !projected.not_a_number(),
    ensures
        r.at_most(Single { bits: 0x42F0_0000 }),
        down.at_most(Single { bits: 0x3A83_126F }) ==> r.bits == 0x42F0_0000,
        (Single { bits: 0x3A83_126F }).below(down) && projected.at_most(Single { bits: 0x42F0_0000 }) ==> r
            == projected,
        (Single { bits: 0x42F0_0000 }).below(projected) ==> r.bits == 0x42F0_0000,
{
}

/// The light is aimed from the body's own elevation between 0.314 and 1.134 radians, and from the
/// nearer of the two where the body stands outside them; the reach keeps its factor between a
/// quarter and two in the same way.
pub proof fn elevation_and_reach_keep_to_their_ranges(
    body: Single,
    asked: Single,
    elevation: Single,
    reach: Single,
)
    requires
        call_ensures(light_elevation, (body,), elevation),
        call_ensures(reach_scale, (asked,), reach),
    ensures
        body.below(Single { bits: 0x3EA0_C49C }) ==> elevation.bits == 0x3EA0_C49C,
        (Single { bits: 0x3F91_26E9 }).below(body) ==> elevation.bits == 0x3F91_26E9,
        (Single { bits: 0x3EA0_C49C }).at_most(body) && body.at_most(Single { bits: 0x3F91_26E9 }) ==> elevation
            == body,
        asked.below(Single { bits: 0x3E80_0000 }) ==> reach.bits == 0x3E80_0000,
        (Single { bits: 0x4000_0000 }).below(asked) ==> reach.bits == 0x4000_0000,
        (Single { bits: 0x3E80_0000 }).at_most(asked) && asked.at_most(Single { bits: 0x4000_0000 }) ==> reach
            == asked,
{
    reveal(Single::clamped);
}

/// A direction has a bearing when its run is more than 1e-4.
pub proof fn a_bearing_needs_a_run(run: Single, r: bool)
    requires
        call_ensures(has_bearing, (run,), r),
    ensures
        r <==> (Single { bits: 0x38D1_B717 }).below(run),
{
}

/// A camera that joins sees the private layer and all that it saw before, and is marked by
/// whether it declared layers; one that declared none saw the world, and still does.
pub proof fn a_camera_that_joins_keeps_its_own_layers(camera: RigCamera, r: RigCamera)
    requires
        call_ensures(join_layer, (camera,), r),
    ensures
        r.entity == camera.entity,
        camera.marker is None ==> r.marker == Some(camera.layers is Some),
        camera.marker is Some ==> r.marker == camera.marker,
        camera.layers matches Some(mask) ==> (r.layers matches Some(now) && now & 0x8000_0000 == 0x8000_0000 && now
            & !0x8000_0000 == mask & !0x8000_0000),
        camera.layers is None && camera.marker is None ==> (r.layers matches Some(now) && now == 0x8000_0001),
        camera.layers is None && camera.marker is Some ==> r.layers is None,
{
    if let Some(mask) = camera.layers {
        assert((mask | 0x8000_0000u64) & 0x8000_0000u64 == 0x8000_0000u64 && (mask | 0x8000_0000u64) & !0x8000_0000u64
            == mask & !0x8000_0000u64) by (bit_vector);
    }
    assert(1u64 | 0x8000_0000u64 == 0x8000_0001u64) by (bit_vector);
}

/// A camera that leaves no longer sees the private layer and loses nothing else of what it saw;
/// one that declared no layers declares none again, and one that was never marked is not touched.
pub proof fn a_camera_that_leaves_loses_only_the_private_layer(camera: RigCamera, r: RigCamera)
    requires
        call_ensures(leave_layer, (camera,), r),
    ensures
        r.entity == camera.entity,
        camera.marker is None ==> r == camera,
        camera.marker is Some ==> r.marker is None,
        camera.marker == Some(false) ==> r.layers is None,
        camera.marker == Some(true) ==> (camera.layers matches Some(mask) ==> (r.layers matches Some(now) && now
            & 0x8000_0000 == 0 && now & !0x8000_0000 == mask & !0x8000_0000)),
{
    if let Some(mask) = camera.layers {
        assert((mask & !0x8000_0000u64) & 0x8000_0000u64 == 0 && (mask & !0x8000_0000u64) & !0x8000_0000u64 == mask
            & !0x8000_0000u64) by (bit_vector);
    }
}

/// Moving all cameras is moving each, in its own place.
pub proof fn every_camera_is_moved_in_its_place(
    cameras: &Vec<RigCamera>,
    on: bool,
    r: Vec<RigCamera>,
    k: int,
)
    requires
        call_ensures(relayer, (cameras, on), r),
        0 <= k < cameras@.len(),
    ensures
        r@.len() == cameras@.len(),
        r@[k].entity == cameras@[k].entity,
        on ==> r@[k].marker is Some,
        !on ==> r@[k].marker is None,
        on ==> (cameras@[k].layers matches Some(mask) ==> r@[k].layers == Some(mask | 0x8000_0000)),
        !on && cameras@[k].marker is None ==> r@[k] == cameras@[k],
{
}

/// A lane's demand stands whatever the other lanes say, until it is taken; and taking it hands it
/// over once.
pub proof fn a_demand_stands_until_it_is_taken(demand: &mut bool, on: bool, taken: &mut bool, asked: bool)
    requires
        call_ensures(declare_demand, (demand, on), ()),
        call_ensures(take_demand, (taken,), asked),
    ensures
        *old(demand) ==> *final(demand),
        on ==> *final(demand),
        *final(demand) ==> *old(demand) || on,
        asked == *old(taken),
        !*final(taken),
{
}

/// The rig stands only while a lane asks for it and the player is in the world; once either ends
/// it gives back just what it held, makes nothing, and forgets where it was aimed.
pub proof fn an_unwanted_rig_gives_back_what_it_held(
    inputs: &RigInputs,
    rig: &mut RigState,
    frame: &mut ShadowFrame,
    r: RigPlan,
)
    requires
        call_ensures(settle_rig, (inputs, rig, frame), r),
        !inputs.demand || !inputs.in_world,
    ensures
        !r.wanted,
        r.despawn == old(rig).sun,
        r.drop_material == old(rig).material,
        !r.make_material && !r.spawn_sun && !r.refit && !r.restart_handover,
        final(rig).sun is None && final(rig).sun_written is None && final(rig).material is None,
        !final(frame).active && final(frame).material is None,
{
}

/// A rig that stands has a light and a material at the end of the frame: those it held, unless it
/// had none or the light was taken from it, which is then replaced and aimed afresh. It drops
/// nothing.
pub proof fn a_standing_rig_is_whole(
    inputs: &RigInputs,
    rig: &mut RigState,
    frame: &mut ShadowFrame,
    r: RigPlan,
)
    requires
        call_ensures(settle_rig, (inputs, rig, frame), r),
        inputs.demand && inputs.in_world,
    ensures
        r.wanted,
        r.despawn is None && r.drop_material is None,
        r.make_material <==> old(rig).material is None,
        old(rig).material is Some ==> final(rig).material == old(rig).material,
        old(rig).material is None ==> final(rig).material == Some(inputs.fresh_material),
        r.spawn_sun ==> final(rig).sun == Some(inputs.fresh_sun) && final(rig).sun_written is None,
        !r.spawn_sun ==> final(rig).sun == old(rig).sun && old(rig).sun is Some && final(rig).sun_written
            == old(rig).sun_written,
        old(rig).sun is None ==> r.spawn_sun,
        r.restart_handover <==> old(rig).sun is Some && old(rig).sun_written is Some && !inputs.sun_found,
        r.restart_handover ==> r.spawn_sun,
        old(rig).sun is Some && inputs.sun_found ==> !r.spawn_sun,
        final(frame).active == old(frame).active,
        final(frame).material == old(frame).material,
{
}

/// The cascade of a standing rig fits the distance after every frame, is fitted anew only where
/// it did not, and the distance is published exactly where another one was.
pub proof fn the_cascade_follows_the_distance(
    inputs: &RigInputs,
    rig: &mut RigState,
    frame: &mut ShadowFrame,
    r: RigPlan,
)
    requires
        call_ensures(settle_rig, (inputs, rig, frame), r),
        !inputs.distance.not_a_number(),
    ensures
        r.publish_distance <==> !inputs.published_distance.same_number(inputs.distance),
        inputs.demand && inputs.in_world ==> (final(rig).cascade_distance matches Some(held) && held.same_number(
            inputs.distance,
        )),
        r.refit ==> !(old(rig).cascade_distance matches Some(held) && held.same_number(inputs.distance)),
        r.wanted && !r.spawn_sun && !r.refit ==> final(rig).cascade_distance == old(rig).cascade_distance,
        r.wanted && !r.spawn_sun ==> (r.refit <==> !(old(rig).cascade_distance matches Some(held)
            && held.same_number(inputs.distance))),
{
    assert(inputs.distance.same_number(inputs.distance));
}

/// Work is suspended while neither body casts: the sun's weight and the moon's strength are both
/// at zero or below. Either of them above zero is enough to go on.
pub proof fn one_body_is_enough_to_work(
    inputs: &RigInputs,
    rig: &mut RigState,
    frame: &mut ShadowFrame,
    r: RigPlan,
)
    requires
        call_ensures(settle_rig, (inputs, rig, frame), r),
    ensures
        (Single { bits: ZERO_BITS }).below(inputs.sun_weight) ==> !final(frame).suspended,
        (Single { bits: ZERO_BITS }).below(inputs.moon_strength) ==> !final(frame).suspended,
        inputs.sun_weight.bits == 0 && inputs.moon_strength.bits == 0 ==> final(frame).suspended,
        final(frame).suspended ==> inputs.sun_weight.at_most(Single { bits: ZERO_BITS })
            && inputs.moon_strength.at_most(Single { bits: ZERO_BITS }),
{
}

/// A rig whose light is there is turned when the body asked for is not the one aimed at or the
/// snap is due, and then holds the live direction and tells the hand-over of the body asked for.
/// One that is not turned holds what it held.
pub proof fn a_turned_light_holds_the_live_direction(
    handover: &Handover,
    direction: Direction,
    angle: Single,
    light: Option<bool>,
    rig: &mut RigState,
    frame: &mut ShadowFrame,
    r: AimPlan,
)
    requires
        call_ensures(aim_rig, (handover, direction, angle, light, rig, frame), r),
    ensures
        r.turn ==> final(rig).sun_written == Some(direction) && r.aim_written == handover.wanted,
        !r.turn ==> final(rig).sun_written == old(rig).sun_written && r.aim_written is None,
        final(rig).sun == old(rig).sun && final(rig).material == old(rig).material && final(rig).cascade_distance
            == old(rig).cascade_distance,
        old(rig).sun is Some && light is Some && handover.aimed != handover.wanted ==> r.turn,
        old(rig).sun is Some && light is Some && old(rig).sun_written is None ==> r.turn,
        old(rig).sun is Some && light is Some && (Single { bits: 0x3A51_B717 }).below(angle) ==> r.turn,
        handover.aimed == handover.wanted && old(rig).sun_written is Some && angle.at_most(
            Single { bits: 0x3A51_B717 },
        ) ==> !r.turn,
        old(rig).sun is None || light is None ==> !r.turn && r.switch_shadows is None,
{
}

/// After a frame the light casts exactly where work is not suspended: it is switched where it did
/// not stand so, and left where it did.
pub proof fn a_light_casts_while_there_is_work(
    handover: &Handover,
    direction: Direction,
    angle: Single,
    casting: bool,
    rig: &mut RigState,
    frame: &mut ShadowFrame,
    r: AimPlan,
)
    requires
        call_ensures(aim_rig, (handover, direction, angle, Some(casting), rig, frame), r),
        old(rig).sun is Some,
    ensures
        r.switch_shadows matches Some(on) ==> on == !old(frame).suspended && on != casting,
        r.switch_shadows is None ==> casting == !old(frame).suspended,
        final(frame).suspended == old(frame).suspended,
        final(frame).active,
        final(frame).material == old(rig).material,
{
}

/// The lanes are told of a rig only while it has a light and the light is found.
pub proof fn no_light_no_rig(
    handover: &Handover,
    direction: Direction,
    angle: Single,
    light: Option<bool>,
    rig: &mut RigState,
    frame: &mut ShadowFrame,
    r: AimPlan,
)
    requires
        call_ensures(aim_rig, (handover, direction, angle, light, rig, frame), r),
    ensures
        final(frame).active <==> old(rig).sun is Some && light is Some,
        final(frame).material == old(rig).material,
{
}

/// The light is aimed at the moon only where the moon is asked for.
pub proof fn the_moon_has_to_be_asked_for(handover: &Handover, r: bool)
    requires
        call_ensures(aims_at_moon, (handover,), r),
    ensures
        r ==> handover.wanted == Some(ShadowBody::Moon),
        handover.wanted == Some(ShadowBody::Moon) ==> r,
{
}

} // verus!
