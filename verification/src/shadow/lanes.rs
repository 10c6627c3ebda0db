//! The two users of the caster geometry: the character lane, which rebuilds its caster at a capped
//! cadence and names the units whose shadow is ready, and the standalone caster, which owns its
//! own light and rebuilds every frame.
use crate::entities::hierarchy::{is_forest, mark_ready, stands_above};
use crate::shadow::geometry::{
    collect_entity_geometry, countable, gathered, restore_mesh_buffers, take_mesh_buffers,
    verdict_of, CasterMesh, ModelKind, Part, Verdict, Wanted,
};
use crate::shadow::quality::{rebuild_due, RebuildRate};
use crate::shadow::rig::{snap_due, sun_snap_due, Direction, ShadowFrame};
use crate::single::Single;
use std::collections::HashMap;
use std::collections::HashSet;
use vstd::prelude::*;

verus! {

broadcast use vstd::std_specs::hash::group_hash_axioms;

/// The character lane's caster: its entity, its mesh, its cadence, and the units whose shadow the
/// last completed build holds.
pub struct CharacterLane {
    pub caster: Option<u64>,
    pub mesh: Option<u64>,
    pub rate: RebuildRate,
    pub ready: HashSet<u64>,
}

/// What a frame of the character lane asks for.
#[derive(Clone, Copy, Debug, PartialEq, Eq, Structural)]
pub struct LanePlan {
    /// The caster to despawn.
    pub despawn: Option<u64>,
    /// The mesh to drop.
    pub drop_mesh: Option<u64>,
    /// A caster has to be spawned on an empty mesh.
    pub spawn: bool,
    /// The caster has to be collected afresh.
    pub rebuild: bool,
}

/// What the character lane reads of the clock and the settings. `elapsed` says whether the frame
/// lies a full interval after the last rebuild.
#[derive(Clone, Copy, Debug, PartialEq, Eq, Structural)]
pub struct LaneClock {
    pub on: bool,
    pub now: Single,
    pub rate: u32,
    pub elapsed: bool,
    pub fresh_caster: u64,
    pub fresh_mesh: u64,
}

/// The lane builds: it is on, the rig stands, work is not suspended, and there is a material.
pub open spec fn lane_builds(clock: LaneClock, frame: ShadowFrame) -> bool {
    clock.on && frame.active && !frame.suspended && frame.material is Some
}

/// What a frame of the character lane asks for.
pub open spec fn lane_plan(
    caster: Option<u64>,
    mesh: Option<u64>,
    last: Option<Single>,
    clock: LaneClock,
    frame: ShadowFrame,
) -> LanePlan {
    let down = !(frame.active && clock.on);
    let spawn = lane_builds(clock, frame) && caster is None;
    LanePlan {
        despawn: if down { caster } else { None },
        drop_mesh: if down { mesh } else { None },
        spawn,
        rebuild: lane_builds(clock, frame) && (spawn || (mesh is Some && rebuild_due(
            last,
            clock.now,
            clock.rate,
            clock.elapsed,
        ))),
    }
}

/// Decides a frame of the character lane. A lane that is off, or whose rig is down, drops its
/// caster; a suspended one keeps it and does no work; both forget what was ready and re-arm the
/// cadence. A lane without a caster spawns one and fills it in the same frame; otherwise the
/// cadence decides.
pub fn collect_character_shadows(
    clock: &LaneClock,
    frame: &ShadowFrame,
    lane: &mut CharacterLane,
) -> (r: LanePlan)
    ensures
        r == lane_plan(
            old(lane).caster,
            old(lane).mesh,
            old(lane).rate.last_grant(),
            *clock,
            *frame,
        ),
        final(lane).caster == if r.spawn {
            Some(clock.fresh_caster)
        } else if !(frame.active && clock.on) {
            None
        } else {
            old(lane).caster
        },
        final(lane).mesh == if r.spawn {
            Some(clock.fresh_mesh)
        } else if !(frame.active && clock.on) {
            None
        } else {
            old(lane).mesh
        },
        final(lane).ready@ == if frame.active && clock.on && !frame.suspended {
            old(lane).ready@
        } else {
            Set::empty()
        },
        final(lane).rate.last_grant() == if !(frame.active && clock.on) || frame.suspended {
            None
        } else if r.spawn || (lane_builds(*clock, *frame) && rebuild_due(
            old(lane).rate.last_grant(),
            clock.now,
            clock.rate,
            clock.elapsed,
        )) {
            Some(clock.now)
        } else {
            old(lane).rate.last_grant()
        },
{
    let mut plan = LanePlan { despawn: None, drop_mesh: None, spawn: false, rebuild: false };
    if !(frame.active && clock.on) {
        lane.ready.clear();
        plan.despawn = lane.caster;
        plan.drop_mesh = lane.mesh;
        lane.caster = None;
        lane.mesh = None;
        lane.rate.reset();
        return plan;
    }
    if frame.suspended {
        lane.ready.clear();
        lane.rate.reset();
        return plan;
    }
    if frame.material.is_none() {
        return plan;
    }
    if lane.caster.is_none() {
        plan.spawn = true;
        lane.caster = Some(clock.fresh_caster);
        lane.mesh = Some(clock.fresh_mesh);
        lane.rate.reset();
    }
    if lane.rate.due(clock.now, clock.rate, clock.elapsed) {
        plan.rebuild = lane.mesh.is_some();
    }
    plan
}

/// The standalone caster: its caster and light, their mesh and material, and the direction the
/// light was last given.
#[derive(Clone, Copy, Debug, PartialEq, Eq, Structural)]
pub struct WorldShadowRuntime {
    pub dynamic_caster: Option<u64>,
    pub sun: Option<u64>,
    pub sun_written: Option<Direction>,
    pub dynamic_mesh: Option<u64>,
    pub material: Option<u64>,
}

/// The handles that a spawn of the standalone caster takes.
#[derive(Clone, Copy, Debug, PartialEq, Eq, Structural)]
pub struct FreshHandles {
    pub caster: u64,
    pub sun: u64,
    pub mesh: u64,
    pub material: u64,
}

/// What a frame of the standalone caster asks for.
#[derive(Clone, Copy, Debug, PartialEq, Eq, Structural)]
pub struct WorldShadowPlan {
    /// The caster to despawn.
    pub despawn_caster: Option<u64>,
    /// The light to despawn.
    pub despawn_sun: Option<u64>,
    /// The mesh to drop.
    pub drop_mesh: Option<u64>,
    /// The material to drop.
    pub drop_material: Option<u64>,
    /// The world cameras stand on the private layer.
    pub on_layer: bool,
    /// Caster, light, mesh and material have to be made.
    pub spawn: bool,
    /// The mesh that has to be collected afresh.
    pub rebuild: Option<u64>,
}

/// The standalone caster's own state after the start of a frame.
pub open spec fn world_shadow_after(
    runtime: WorldShadowRuntime,
    wanted: bool,
    fresh: FreshHandles,
) -> WorldShadowRuntime {
    if !wanted {
        WorldShadowRuntime {
            dynamic_caster: None,
            sun: None,
            sun_written: None,
            dynamic_mesh: None,
            material: None,
        }
    } else if runtime.dynamic_caster is None {
        WorldShadowRuntime {
            dynamic_caster: Some(fresh.caster),
            sun: Some(fresh.sun),
            sun_written: runtime.sun_written,
            dynamic_mesh: Some(fresh.mesh),
            material: Some(fresh.material),
        }
    } else {
        runtime
    }
}

/// What a frame of the standalone caster asks for.
pub open spec fn world_shadow_plan(
    runtime: WorldShadowRuntime,
    wanted: bool,
    fresh: FreshHandles,
) -> WorldShadowPlan {
    WorldShadowPlan {
        despawn_caster: if wanted { None } else { runtime.dynamic_caster },
        despawn_sun: if wanted { None } else { runtime.sun },
        drop_mesh: if wanted { None } else { runtime.dynamic_mesh },
        drop_material: if wanted { None } else { runtime.material },
        on_layer: wanted,
        spawn: wanted && runtime.dynamic_caster is None,
        rebuild: if wanted {
            world_shadow_after(runtime, wanted, fresh).dynamic_mesh
        } else {
            None
        },
    }
}

/// Decides a frame of the standalone caster: it is torn down when shadows are off or the player
/// is not in the world, made whole when it has no caster, and its mesh is collected every frame.
pub fn update_world_shadow(
    world_shadows: bool,
    in_world: bool,
    fresh: &FreshHandles,
    runtime: &mut WorldShadowRuntime,
) -> (r: WorldShadowPlan)
    ensures
        r == world_shadow_plan(*old(runtime), world_shadows && in_world, *fresh),
        *final(runtime) == world_shadow_after(*old(runtime), world_shadows && in_world, *fresh),
{
    let wanted = world_shadows && in_world;
    if !wanted {
        let plan = WorldShadowPlan {
            despawn_caster: runtime.dynamic_caster,
            despawn_sun: runtime.sun,
            drop_mesh: runtime.dynamic_mesh,
            drop_material: runtime.material,
            on_layer: false,
            spawn: false,
            rebuild: None,
        };
        runtime.dynamic_caster = None;
        runtime.sun = None;
        runtime.sun_written = None;
        runtime.dynamic_mesh = None;
        runtime.material = None;
        return plan;
    }
    let spawn = runtime.dynamic_caster.is_none();
    if spawn {
        runtime.dynamic_caster = Some(fresh.caster);
        runtime.sun = Some(fresh.sun);
        runtime.dynamic_mesh = Some(fresh.mesh);
        runtime.material = Some(fresh.material);
    }
    WorldShadowPlan {
        despawn_caster: None,
        despawn_sun: None,
        drop_mesh: None,
        drop_material: None,
        on_layer: true,
        spawn,
        rebuild: runtime.dynamic_mesh,
    }
}

/// Turns the standalone light: when the snap is due and the light is there. Says whether it has
/// to be turned.
pub fn aim_world_shadow(
    direction: Direction,
    angle: Single,
    sun_found: bool,
    runtime: &mut WorldShadowRuntime,
) -> (r: bool)
    ensures
        r == (old(runtime).sun is Some && sun_found && snap_due(old(runtime).sun_written, angle)),
        *final(runtime) == (WorldShadowRuntime {
            sun_written: if r {
                Some(direction)
            } else {
                old(runtime).sun_written
            },
            ..*old(runtime)
        }),
{
    let turn = runtime.sun.is_some() && sun_snap_due(runtime.sun_written, angle) && sun_found;
    if turn {
        runtime.sun_written = Some(direction);
    }
    turn
}

/// The counts of a collection as they were last reported.
#[derive(Clone, Copy, Debug, PartialEq, Eq, Structural)]
pub struct Traced {
    pub triangles: u32,
    pub admitted: u32,
    pub rejected: u32,
}

/// Reports the counts of a collection while tracing is on and they differ from the last report.
pub fn trace_collection(tracing: bool, now: Traced, traced: &mut Traced) -> (r: Option<Traced>)
    ensures
        r == if tracing && *old(traced) != now {
            Some(now)
        } else {
            None
        },
        *final(traced) == if tracing {
            now
        } else {
            *old(traced)
        },
{
    if tracing && *traced != now {
        *traced = now;
        Some(now)
    } else {
        None
    }
}

/// A rebuilt caster: what is reported of it, and the entities that brought a triangle.
#[derive(Debug, PartialEq, Eq)]
pub struct Rebuilt {
    pub counts: Traced,
    pub built: Vec<u64>,
}

/// Fills a caster mesh afresh with the parts that are wanted, whatever it held before.
pub fn rebuild_caster(parts: &Vec<Part>, wanted: &Wanted, mesh: &mut CasterMesh) -> (r: Rebuilt)
    requires
        countable(gathered(parts@, *wanted, seq![], seq![])),
    ensures
        ({
            let all = gathered(parts@, *wanted, seq![], seq![]);
            &&& final(mesh).positions is Some && final(mesh).positions->0@ == all.positions
            &&& final(mesh).indices is Some && final(mesh).indices->0@ == all.indices
            &&& final(mesh).coords == old(mesh).coords
            &&& r.built@ == all.built
            &&& r.counts.admitted == all.admitted
            &&& r.counts.rejected == all.rejected
            &&& r.counts.triangles == (all.indices.len() / 3) as u32
        }),
{
    let (mut positions, mut indices) = take_mesh_buffers(mesh);
    let found = collect_entity_geometry(parts, wanted, &mut positions, &mut indices);
    let triangles: u32 = (indices.len() / 3) as u32;
    restore_mesh_buffers(mesh, positions, indices);
    Rebuilt {
        counts: Traced { triangles, admitted: found.admitted, rejected: found.rejected },
        built: found.built,
    }
}

/// What the character lane collects: creatures, and nothing of the environment.
pub open spec fn characters(short_reach: Single, tall_reach: Single) -> Wanted {
    Wanted { creatures: true, environment: false, short_reach, tall_reach }
}

/// Rebuilds the character lane's caster, and with it the units whose shadow is ready: every part
/// that brought a triangle and everything it hangs under.
pub fn rebuild_character_caster(
    parts: &Vec<Part>,
    short_reach: Single,
    tall_reach: Single,
    parents: &HashMap<u64, u64>,
    mesh: &mut CasterMesh,
    lane: &mut CharacterLane,
) -> (r: Traced)
    requires
        countable(gathered(parts@, characters(short_reach, tall_reach), seq![], seq![])),
        is_forest(parents@),
    ensures
        ({
            let all = gathered(parts@, characters(short_reach, tall_reach), seq![], seq![]);
            &&& final(mesh).positions is Some && final(mesh).positions->0@ == all.positions
            &&& final(mesh).indices is Some && final(mesh).indices->0@ == all.indices
            &&& final(mesh).coords == old(mesh).coords
            &&& r.admitted == all.admitted
            &&& r.rejected == all.rejected
            &&& r.triangles == (all.indices.len() / 3) as u32
            &&& forall|e: u64| #[trigger]
                final(lane).ready@.contains(e) <==> exists|i: int|
                    0 <= i < all.built.len() && stands_above(parents@, #[trigger] all.built[i], e)
        }),
        final(lane).caster == old(lane).caster,
        final(lane).mesh == old(lane).mesh,
        final(lane).rate == old(lane).rate,
{
    let wanted = Wanted { creatures: true, environment: false, short_reach, tall_reach };
    let rebuilt = rebuild_caster(parts, &wanted, mesh);
    lane.ready = mark_ready(&rebuilt.built, parents);
    rebuilt.counts
}

/// The character lane's caster holds no part of the environment, however near it stands.
pub proof fn the_character_lane_takes_no_environment(
    part: Part,
    short_reach: Single,
    tall_reach: Single,
)
    requires
        part.kind != ModelKind::Creature,
    ensures
        verdict_of(part, characters(short_reach, tall_reach)) == Verdict::Passed,
{
}

/// Whatever came before, turning the shadows off drops everything the standalone caster made, and
/// its light is aimed at once when they come back.
pub proof fn a_world_shadow_starts_afresh(
    runtime: WorldShadowRuntime,
    fresh: FreshHandles,
    angle: Single,
)
    ensures
        world_shadow_plan(runtime, false, fresh).despawn_caster == runtime.dynamic_caster,
        world_shadow_plan(runtime, false, fresh).despawn_sun == runtime.sun,
        world_shadow_plan(world_shadow_after(runtime, false, fresh), true, fresh).spawn,
        snap_due(
            world_shadow_after(
                world_shadow_after(runtime, false, fresh),
                true,
                fresh,
            ).sun_written,
            angle,
        ),
{
}

/// A lane that has just spawned its caster fills it in the same frame, whatever its cadence.
pub proof fn a_fresh_caster_is_filled_at_once(
    mesh: Option<u64>,
    last: Option<Single>,
    clock: LaneClock,
    frame: ShadowFrame,
)
    requires
        lane_builds(clock, frame),
    ensures
        lane_plan(None, mesh, last, clock, frame).spawn,
        lane_plan(None, mesh, last, clock, frame).rebuild,
{
}

} // verus!
