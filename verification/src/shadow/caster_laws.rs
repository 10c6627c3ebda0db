//! What holds of every collection of shadow casters and of the lanes that ask for one.
use crate::shadow::geometry::{
    append_skinned, casts_realtime_shadow, gathered, gathered_with, judge, triangles_upto,
    verdict_of, whole_triangles, Gathered, Joints, ModelBlend, ModelKind, Part, Seat, Verdict,
    Wanted, Weights,
};
use crate::shadow::lanes::{
    aim_world_shadow, collect_character_shadows, trace_collection, update_world_shadow,
    CharacterLane, FreshHandles, LaneClock, LanePlan, Traced, WorldShadowPlan, WorldShadowRuntime,
};
use crate::shadow::quality::{
    apply_shadow_quality, clamp_shadow_map_size, QualitySinks, QualityWrites, ShadowFiltering,
    ShadowQuality,
};
use crate::shadow::rig::{Direction, ShadowFrame};
use crate::single::{Single, ZERO_BITS};
use vstd::prelude::*;

verus! {

/// Creatures cast by the creatures' switch alone and everything else by the environment's alone;
/// what is drawn opaque casts, an alpha-tested surface only on a creature, and a blended or an
/// additive one never.
pub proof fn each_kind_casts_by_its_own_switch(
    kind: ModelKind,
    blend: ModelBlend,
    creatures: bool,
    environment: bool,
    r: bool,
)
    requires
        call_ensures(casts_realtime_shadow, (kind, blend, creatures, environment), r),
    ensures
        kind == ModelKind::Creature && blend == ModelBlend::Opaque ==> (r <==> creatures),
        kind == ModelKind::Creature && blend == ModelBlend::AlphaTest ==> (r <==> creatures),
        kind != ModelKind::Creature && blend == ModelBlend::Opaque ==> (r <==> environment),
        kind != ModelKind::Creature && blend == ModelBlend::AlphaTest ==> !r,
        blend == ModelBlend::Blend || blend == ModelBlend::Additive ==> !r,
{
}

/// A part of a kind that casts is rejected where it does not occlude, however near it stands;
/// one that occludes is admitted up to its reach and at it, and passed beyond it. Creatures and
/// gameobjects go by the short reach, doodads and buildings by the tall one.
pub proof fn a_part_is_judged_by_its_own_reach(part: &Part, wanted: &Wanted, r: Verdict, casts: bool, distance: Single)
    requires
        call_ensures(judge, (part, wanted), r),
        call_ensures(casts_realtime_shadow, (part.kind, part.blend, wanted.creatures, wanted.environment), casts),
        !distance.not_a_number(),
        !wanted.short_reach.not_a_number() && !wanted.tall_reach.not_a_number(),
    ensures
        !casts ==> r == Verdict::Passed,
        casts && !part.occludes ==> r == Verdict::Rejected,
        casts && part.occludes && part.placed is None && part.rigged is None ==> r == Verdict::Passed,
        casts && part.occludes && part.placed == Some(distance) && (part.kind == ModelKind::Creature || part.kind
            == ModelKind::GameObject) ==> (r == Verdict::Admitted <==> distance.at_most(wanted.short_reach)),
        casts && part.occludes && part.placed == Some(distance) && (part.kind == ModelKind::Doodad || part.kind
            == ModelKind::Wmo) ==> (r == Verdict::Admitted <==> distance.at_most(wanted.tall_reach)),
        casts && part.occludes && part.placed is None && part.rigged == Some(distance) && (part.kind
            == ModelKind::Creature || part.kind == ModelKind::GameObject) ==> (r == Verdict::Admitted
            <==> distance.at_most(wanted.short_reach)),
        r == Verdict::Rejected ==> !part.occludes,
{
}

/// A part's own transform says how far off it stands, and its rig only where it has none.
pub proof fn a_parts_transform_stands_before_its_rig(a: Part, b: Part, wanted: Wanted)
    requires
        a.placed is Some,
        b == (Part { rigged: b.rigged, ..a }),
    ensures
        verdict_of(a, wanted) == verdict_of(b, wanted),
{
}

/// What a collection has gathered stays as it is when one part more is judged: vertices, indices
/// and builders are only added behind, and a part that is not admitted adds none.
pub proof fn a_collection_only_grows(before: Gathered, part: Part, wanted: Wanted)
    ensures
        ({
            let after = gathered_with(before, part, wanted);
            &&& after.positions.take(before.positions.len() as int) == before.positions
            &&& after.indices.take(before.indices.len() as int) == before.indices
            &&& after.built.take(before.built.len() as int) == before.built
            &&& verdict_of(part, wanted) == Verdict::Admitted ==> after.admitted == before.admitted + 1
                && after.rejected == before.rejected && after.positions.skip(before.positions.len() as int)
                == part.points@
            &&& verdict_of(part, wanted) == Verdict::Rejected ==> after == (Gathered {
                rejected: before.rejected + 1,
                ..before
            })
            &&& verdict_of(part, wanted) == Verdict::Passed ==> after == before
        }),
{
    let after = gathered_with(before, part, wanted);
    assert(after.positions.take(before.positions.len() as int) =~= before.positions);
    assert(after.indices.take(before.indices.len() as int) =~= before.indices);
    assert(after.built.take(before.built.len() as int) =~= before.built);
    if verdict_of(part, wanted) == Verdict::Admitted {
        assert(after.positions.skip(before.positions.len() as int) =~= part.points@);
    }
}

/// A part that is admitted counts as built exactly where it brought a triangle, and every corner
/// it brings is one of its own vertices.
pub proof fn a_part_that_builds_brings_its_own_corners(before: Gathered, part: Part, wanted: Wanted, k: int)
    requires
        verdict_of(part, wanted) == Verdict::Admitted,
        before.positions.len() + part.points@.len() <= u32::MAX,
    ensures
        ({
            let after = gathered_with(before, part, wanted);
            &&& after.built.len() > before.built.len() <==> after.indices.len() > before.indices.len()
            &&& after.built.len() > before.built.len() ==> after.built == before.built.push(part.entity)
            &&& after.built.len() <= before.built.len() ==> after.built == before.built
            &&& before.indices.len() <= k < after.indices.len() ==> before.positions.len() <= after.indices[k]
                < after.positions.len()
            &&& (after.indices.len() - before.indices.len()) % 3 == 0
        }),
{
    let base = before.positions.len() as u32;
    let count = part.points@.len() as u32;
    crate::shadow::geometry::appended_triangles_are_whole_and_in_range(
        part.indices@,
        count,
        base,
        part.indices@.len() as int / 3,
    );
    let brought = whole_triangles(part.indices@, count, base);
    let after = gathered_with(before, part, wanted);
    if before.indices.len() <= k < after.indices.len() {
        assert(after.indices[k] == brought[k - before.indices.len()]);
    }
}

/// A triangle keeps its corners and their order, counted from the first vertex added: the list
/// with one triangle more ends in its three corners, or in nothing new where one of them is no
/// vertex.
pub proof fn a_triangle_keeps_its_corners(source: Seq<u32>, vertex_count: u32, base: u32, n: int)
    requires
        base + vertex_count <= 0x1_0000_0000,
        n >= 0,
        3 * n + 2 < source.len(),
    ensures
        ({
            let before = triangles_upto(source, vertex_count, base, n);
            let after = triangles_upto(source, vertex_count, base, n + 1);
            let sound = source[3 * n] < vertex_count && source[3 * n + 1] < vertex_count && source[3 * n + 2]
                < vertex_count;
            &&& !sound ==> after == before
            &&& sound ==> after.len() == before.len() + 3 && after.take(before.len() as int) == before
                && after[before.len() as int] == base + source[3 * n] && after[before.len() as int + 1] == base + source[3
                * n + 1] && after[before.len() as int + 2] == base + source[3 * n + 2]
        }),
{
    let before = triangles_upto(source, vertex_count, base, n);
    let after = triangles_upto(source, vertex_count, base, n + 1);
    if source[3 * n] < vertex_count && source[3 * n + 1] < vertex_count && source[3 * n + 2] < vertex_count {
        assert(after.take(before.len() as int) =~= before);
    }
}

/// A skinned vertex is seated on the joints that weigh and that the palette has; one without
/// skinning data sits on the root, or at the origin where there is no matrix at all, and without a
/// palette none is seated.
pub proof fn a_vertex_sits_on_the_joints_that_weigh(
    vertex_count: usize,
    joints: &Vec<Joints>,
    weights: &Vec<Weights>,
    matrices: usize,
    at: int,
    r: Vec<Seat>,
    none: Vec<Seat>,
)
    requires
        call_ensures(append_skinned, (vertex_count, joints, weights, Some(matrices)), r),
        call_ensures(append_skinned, (vertex_count, joints, weights, None), none),
        0 <= at < vertex_count,
    ensures
        none@.len() == 0,
        r@.len() == vertex_count,
        at >= joints@.len() || at >= weights@.len() ==> r@[at] == (if matrices > 0 {
            Seat::Root
        } else {
            Seat::Origin
        }),
        at < joints@.len() && at < weights@.len() ==> (r@[at] matches Seat::Blended { a, b, c, d } && {
            let zero = Single { bits: ZERO_BITS };
            &&& a <==> zero.below(weights@[at].a) && joints@[at].a < matrices
            &&& b <==> zero.below(weights@[at].b) && joints@[at].b < matrices
            &&& c <==> zero.below(weights@[at].c) && joints@[at].c < matrices
            &&& d <==> zero.below(weights@[at].d) && joints@[at].d < matrices
        }),
{
    assert(r@[at] == r@[at]);
}

/// A lane that is off, or whose rig is down, gives back the caster and the mesh it held, makes
/// nothing, and has no shadow ready.
pub proof fn a_lane_that_is_off_gives_back_its_caster(
    clock: &LaneClock,
    frame: &ShadowFrame,
    lane: &mut CharacterLane,
    r: LanePlan,
)
    requires
        call_ensures(collect_character_shadows, (clock, frame, lane), r),
        !clock.on || !frame.active,
    ensures
        r.despawn == old(lane).caster,
        r.drop_mesh == old(lane).mesh,
        !r.spawn && !r.rebuild,
        final(lane).caster is None && final(lane).mesh is None,
        final(lane).ready@ == Set::<u64>::empty(),
        final(lane).rate.last_grant() is None,
{
}

/// A suspended lane keeps its caster and its mesh, does no work, and has no shadow ready; it
/// rebuilds at once when it goes on.
pub proof fn a_suspended_lane_keeps_its_caster(
    clock: &LaneClock,
    frame: &ShadowFrame,
    lane: &mut CharacterLane,
    r: LanePlan,
)
    requires
        call_ensures(collect_character_shadows, (clock, frame, lane), r),
        clock.on && frame.active && frame.suspended,
    ensures
        r.despawn is None && r.drop_mesh is None && !r.spawn && !r.rebuild,
        final(lane).caster == old(lane).caster && final(lane).mesh == old(lane).mesh,
        final(lane).ready@ == Set::<u64>::empty(),
        final(lane).rate.last_grant() is None,
{
}

/// A lane at work never gives anything back. It has a caster at the end of the frame where there
/// is a material; a caster it just made is filled in the same frame, one it held only where the
/// cadence grants it, and a grant takes the time.
pub proof fn a_lane_at_work_fills_its_caster(
    clock: &LaneClock,
    frame: &ShadowFrame,
    lane: &mut CharacterLane,
    r: LanePlan,
)
    requires
        call_ensures(collect_character_shadows, (clock, frame, lane), r),
        clock.on && frame.active && !frame.suspended,
    ensures
        r.despawn is None && r.drop_mesh is None,
        final(lane).ready@ == old(lane).ready@,
        frame.material is None ==> !r.spawn && !r.rebuild && final(lane).caster == old(lane).caster,
        frame.material is Some ==> final(lane).caster is Some,
        r.spawn <==> frame.material is Some && old(lane).caster is None,
        r.spawn ==> r.rebuild && final(lane).caster == Some(clock.fresh_caster) && final(lane).mesh == Some(
            clock.fresh_mesh,
        ),
        !r.spawn ==> final(lane).caster == old(lane).caster && final(lane).mesh == old(lane).mesh,
        r.rebuild ==> final(lane).rate.last_grant() == Some(clock.now),
        frame.material is Some && old(lane).caster is Some && old(lane).mesh is Some && (clock.elapsed || clock.rate
            == 0 || old(lane).rate.last_grant() is None) ==> r.rebuild,
        old(lane).caster is Some && !clock.elapsed && clock.rate > 0 ==> (old(
            lane).rate.last_grant() matches Some(last) ==> (!clock.now.below(last) ==> !r.rebuild && final(
            lane).rate.last_grant() == old(lane).rate.last_grant())),
{
}

/// The standalone caster stands only with shadows on and the player in the world: it is then made
/// whole at once and collected every frame, and else gives back all that it held.
pub proof fn a_standalone_caster_stands_in_the_world(
    world_shadows: bool,
    in_world: bool,
    fresh: &FreshHandles,
    runtime: &mut WorldShadowRuntime,
    r: WorldShadowPlan,
)
    requires
        call_ensures(update_world_shadow, (world_shadows, in_world, fresh, runtime), r),
    ensures
        r.on_layer <==> world_shadows && in_world,
        !r.on_layer ==> r.despawn_caster == old(runtime).dynamic_caster && r.despawn_sun == old(runtime).sun
            && r.drop_mesh == old(runtime).dynamic_mesh && r.drop_material == old(runtime).material && !r.spawn
            && r.rebuild is None && final(runtime).dynamic_caster is None && final(runtime).sun is None && final(
            runtime).sun_written is None && final(runtime).dynamic_mesh is None && final(runtime).material is None,
        r.on_layer ==> r.despawn_caster is None && r.despawn_sun is None && r.drop_mesh is None
            && r.drop_material is None && r.rebuild == final(runtime).dynamic_mesh && final(
            runtime).dynamic_caster is Some && final(runtime).sun_written == old(runtime).sun_written,
        r.on_layer ==> (r.spawn <==> old(runtime).dynamic_caster is None),
        r.spawn ==> final(runtime).dynamic_caster == Some(fresh.caster) && final(runtime).sun == Some(fresh.sun)
            && final(runtime).dynamic_mesh == Some(fresh.mesh) && final(runtime).material == Some(fresh.material),
        r.on_layer && !r.spawn ==> *final(runtime) == *old(runtime),
{
}

/// The standalone light is turned where it is there and found, and was never aimed or lies past
/// the snap angle; a turn holds the direction it was turned to.
pub proof fn a_standalone_light_is_turned_where_it_is_found(
    direction: Direction,
    angle: Single,
    sun_found: bool,
    runtime: &mut WorldShadowRuntime,
    r: bool,
)
    requires
        call_ensures(aim_world_shadow, (direction, angle, sun_found, runtime), r),
    ensures
        r ==> old(runtime).sun is Some && sun_found && final(runtime).sun_written == Some(direction),
        !r ==> *final(runtime) == *old(runtime),
        old(runtime).sun is Some && sun_found && old(runtime).sun_written is None ==> r,
        old(runtime).sun is Some && sun_found && (Single { bits: 0x3A51_B717 }).below(angle) ==> r,
        old(runtime).sun_written is Some && angle.at_most(Single { bits: 0x3A51_B717 }) ==> !r,
        final(runtime).sun == old(runtime).sun && final(runtime).dynamic_caster == old(runtime).dynamic_caster
            && final(runtime).dynamic_mesh == old(runtime).dynamic_mesh && final(runtime).material == old(
            runtime).material,
{
}

/// Counts are reported once: only under tracing, only where they differ from the last report, and
/// what is reported is what was counted.
pub proof fn counts_are_reported_once(tracing: bool, now: Traced, traced: &mut Traced, r: Option<Traced>)
    requires
        call_ensures(trace_collection, (tracing, now, traced), r),
    ensures
        r matches Some(report) ==> tracing && report == now && *old(traced) != now,
        !tracing ==> r is None && *final(traced) == *old(traced),
        tracing ==> *final(traced) == now,
        tracing && *old(traced) != now ==> r is Some,
{
}

/// After its writes every sink stands where the settings ask: the map on the rung nearest to the
/// size, the filter and each camera by whether the filter setting is zero. A sink that stood there
/// is not written.
pub proof fn every_sink_follows_the_quality_settings(
    q: ShadowQuality,
    sinks: &QualitySinks,
    tracing: bool,
    r: QualityWrites,
    size: u32,
    k: int,
)
    requires
        call_ensures(apply_shadow_quality, (q, sinks, tracing), r),
        call_ensures(clamp_shadow_map_size, (q.shadow_map_size,), size),
    ensures
        r.map_size matches Some(written) ==> written == size && sinks.map_size != size,
        r.map_size is None ==> sinks.map_size == size,
        r.gaussian matches Some(on) ==> (on <==> q.shadow_filter != 0) && on != sinks.gaussian,
        r.gaussian is None ==> (sinks.gaussian <==> q.shadow_filter != 0),
        r.method == ShadowFiltering::Gaussian <==> q.shadow_filter != 0,
        r.cameras@.len() == sinks.cameras@.len(),
        0 <= k < sinks.cameras@.len() ==> (r.cameras@[k] <==> sinks.cameras@[k] != Some(r.method)),
        r.report is Some ==> tracing,
        r.report matches Some(said) ==> said.map_size == size && (said.gaussian <==> q.shadow_filter != 0)
            && said.character_rate == q.character_shadow_rate && said.world_rate == q.world_shadow_rate
            && said.caster_reach == q.shadow_caster_reach,
        tracing && sinks.traced is None ==> r.report is Some,
        tracing ==> (sinks.traced matches Some(last) ==> (last.map_size != size || last.character_rate
            != q.character_shadow_rate || last.world_rate != q.world_shadow_rate || last.gaussian != (q.shadow_filter
            != 0) || !last.caster_reach.same_number(q.shadow_caster_reach) ==> r.report is Some)),
        tracing ==> (sinks.traced matches Some(last) ==> (last.map_size == size && last.character_rate
            == q.character_shadow_rate && last.world_rate == q.world_shadow_rate && last.gaussian == (q.shadow_filter
            != 0) && last.caster_reach.same_number(q.shadow_caster_reach) ==> r.report is None)),
{
    if 0 <= k < sinks.cameras@.len() {
        assert(r.cameras@[k] == r.cameras@[k]);
    }
}

/// A map's edge is one of the three on offer, the one nearest in ratio to what was asked for.
pub proof fn a_map_takes_the_nearest_edge(asked: u32, r: u32)
    requires
        call_ensures(clamp_shadow_map_size, (asked,), r),
    ensures
        r == 1024 || r == 2048 || r == 4096,
        r == 1024 <==> asked * asked < 1024 * 2048,
        r == 4096 <==> asked * asked >= 2048 * 4096,
{
    assert(1024int * 2048int == 2_097_152 && 2048int * 4096int == 8_388_608) by (nonlinear_arith);
}

} // verus!
