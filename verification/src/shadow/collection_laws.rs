//! What holds of every collection of caster geometry and of every rebuilt caster.
use crate::entities::hierarchy::{above, mark_ready, stands_above};
use crate::shadow::geometry::{
    append_triangles, collect_entity_geometry, empty_cutout_mesh, empty_shadow_mesh, gathered,
    judge, restore_mesh_buffers, take_mesh_buffers, triangles_upto, CasterMesh, Collected, Part,
    Point, Verdict, Wanted,
};
use crate::shadow::lanes::{rebuild_caster, rebuild_character_caster, CharacterLane, Rebuilt, Traced};
use crate::shadow::quality::RebuildRate;
use crate::single::Single;
use std::collections::HashMap;
use std::collections::HashSet;
use vstd::prelude::*;

verus! {

/// One part more is gathered behind the rest, as it is judged: where it casts, all its vertices
/// come behind the others and it is counted; where it does not occlude it is only counted; and
/// where it is out of reach or of no kind that casts, nothing changes.
pub proof fn one_part_more_is_gathered_behind(
    parts: &Vec<Part>,
    longer: &Vec<Part>,
    part: Part,
    wanted: &Wanted,
    positions: &mut Vec<Point>,
    indices: &mut Vec<u32>,
    r: Collected,
    positions_longer: &mut Vec<Point>,
    indices_longer: &mut Vec<u32>,
    r_longer: Collected,
    verdict: Verdict,
)
    requires
        longer@ == parts@.push(part),
        call_ensures(collect_entity_geometry, (parts, wanted, positions, indices), r),
        (*old(positions_longer))@ == (*old(positions))@,
        (*old(indices_longer))@ == (*old(indices))@,
        call_ensures(collect_entity_geometry, (longer, wanted, positions_longer, indices_longer), r_longer),
        call_ensures(judge, (&part, wanted), verdict),
    ensures
        verdict == Verdict::Admitted ==> (*final(positions_longer))@ == (*final(positions))@ + part.points@
            && r_longer.admitted == r.admitted + 1 && r_longer.rejected == r.rejected && (r_longer.built@ == r.built@
            || r_longer.built@ == r.built@.push(part.entity)),
        verdict == Verdict::Rejected ==> (*final(positions_longer))@ == (*final(positions))@ && (*final(
            indices_longer))@ == (*final(indices))@ && r_longer.built@ == r.built@ && r_longer.admitted == r.admitted
            && r_longer.rejected == r.rejected + 1,
        verdict == Verdict::Passed ==> (*final(positions_longer))@ == (*final(positions))@ && (*final(
            indices_longer))@ == (*final(indices))@ && r_longer.built@ == r.built@ && r_longer.admitted == r.admitted
            && r_longer.rejected == r.rejected,
        (*final(indices_longer))@.len() > (*final(indices))@.len() <==> r_longer.built@.len() > r.built@.len(),
        (*final(indices_longer))@.len() >= (*final(indices))@.len(),
        (*final(indices_longer))@.take((*final(indices))@.len() as int) == (*final(indices))@,
{
    assert(longer@.drop_last() =~= parts@);
    assert(longer@.last() == part);
    assert((*final(indices_longer))@.take((*final(indices))@.len() as int) =~= (*final(indices))@);
}

/// A collection of no parts leaves what was there as it was.
pub proof fn nothing_is_gathered_from_nothing(
    parts: &Vec<Part>,
    wanted: &Wanted,
    positions: &mut Vec<Point>,
    indices: &mut Vec<u32>,
    r: Collected,
)
    requires
        call_ensures(collect_entity_geometry, (parts, wanted, positions, indices), r),
        parts@.len() == 0,
    ensures
        (*final(positions))@ == (*old(positions))@,
        (*final(indices))@ == (*old(indices))@,
        r.built@.len() == 0 && r.admitted == 0 && r.rejected == 0,
{
}

/// Triangles are added behind what is there; a list that is one sound triangle adds its three
/// corners in their order, counted from the base, and one with a corner past the vertices adds
/// nothing.
pub proof fn a_triangle_is_added_with_its_corners(source: &Vec<u32>, vertex_count: u32, base: u32, indices: &mut Vec<u32>, r: ())
    requires
        base + vertex_count <= 0x1_0000_0000,
        call_ensures(append_triangles, (source, vertex_count, base, indices), r),
        3 <= source@.len() < 6,
    ensures
        ({
            let before = (*old(indices))@;
            let after = (*final(indices))@;
            let sound = source@[0] < vertex_count && source@[1] < vertex_count && source@[2] < vertex_count;
            &&& !sound ==> after == before
            &&& sound ==> after.len() == before.len() + 3 && after.take(before.len() as int) == before
                && after[before.len() as int] == base + source@[0] && after[before.len() as int + 1] == base + source@[1]
                && after[before.len() as int + 2] == base + source@[2]
        }),
{
    reveal_with_fuel(triangles_upto, 2);
    let before = (*old(indices))@;
    let after = (*final(indices))@;
    assert(source@.len() as int / 3 == 1);
    if source@[0] < vertex_count && source@[1] < vertex_count && source@[2] < vertex_count {
        assert(after.take(before.len() as int) =~= before);
    } else {
        assert(after =~= before);
    }
}

/// A mesh's buffers are taken empty and put back as they are handed in; its coordinates stay.
pub proof fn buffers_are_put_back_as_handed_in(
    mesh: &mut CasterMesh,
    taken: (Vec<Point>, Vec<u32>),
    again: &mut CasterMesh,
    positions: Vec<Point>,
    indices: Vec<u32>,
    restored: (),
)
    requires
        call_ensures(take_mesh_buffers, (mesh,), taken),
        *old(again) == *final(mesh),
        call_ensures(restore_mesh_buffers, (again, positions, indices), restored),
    ensures
        taken.0@.len() == 0 && taken.1@.len() == 0,
        final(mesh).positions is None && final(mesh).indices is None,
        final(again).positions == Some(positions) && final(again).indices == Some(indices),
        final(again).coords == old(mesh).coords,
{
}

/// A rebuilt caster holds what a collection into empty buffers gathers, whatever it held before.
pub proof fn a_rebuilt_caster_holds_what_was_collected(
    parts: &Vec<Part>,
    wanted: &Wanted,
    mesh: &mut CasterMesh,
    r: Rebuilt,
    positions: &mut Vec<Point>,
    indices: &mut Vec<u32>,
    collected: Collected,
)
    requires
        call_ensures(rebuild_caster, (parts, wanted, mesh), r),
        (*old(positions))@.len() == 0,
        (*old(indices))@.len() == 0,
        call_ensures(collect_entity_geometry, (parts, wanted, positions, indices), collected),
    ensures
        final(mesh).positions matches Some(points) && points@ == (*final(positions))@,
        final(mesh).indices matches Some(corners) && corners@ == (*final(indices))@,
        final(mesh).coords == old(mesh).coords,
        r.built@ == collected.built@,
        r.counts.admitted == collected.admitted && r.counts.rejected == collected.rejected,
        (*final(indices))@.len() <= u32::MAX ==> r.counts.triangles == (*final(indices))@.len() / 3,
{
    assert((*old(positions))@ =~= Seq::<Point>::empty());
    assert((*old(indices))@ =~= Seq::<u32>::empty());
}

/// The characters' caster holds what a caster of creatures alone holds, and the lane keeps its
/// handles and its cadence.
pub proof fn the_characters_caster_holds_creatures_alone(
    parts: &Vec<Part>,
    short_reach: Single,
    tall_reach: Single,
    parents: &HashMap<u64, u64>,
    mesh: &mut CasterMesh,
    lane: &mut CharacterLane,
    r: Traced,
    wanted: &Wanted,
    other: &mut CasterMesh,
    rebuilt: Rebuilt,
    i: int,
)
    requires
        call_ensures(rebuild_character_caster, (parts, short_reach, tall_reach, parents, mesh, lane), r),
        wanted.creatures && !wanted.environment && wanted.short_reach == short_reach && wanted.tall_reach == tall_reach,
        call_ensures(rebuild_caster, (parts, wanted, other), rebuilt),
    ensures
        final(mesh).positions matches Some(points) && (final(other).positions matches Some(same) && points@ == same@),
        final(mesh).indices matches Some(corners) && (final(other).indices matches Some(same) && corners@ == same@),
        r.admitted == rebuilt.counts.admitted && r.rejected == rebuilt.counts.rejected && r.triangles
            == rebuilt.counts.triangles,
        final(lane).caster == old(lane).caster && final(lane).mesh == old(lane).mesh && final(lane).rate == old(lane).rate,
        0 <= i < rebuilt.built@.len() ==> final(lane).ready@.contains(rebuilt.built@[i]),
{
    let all = gathered(parts@, *wanted, seq![], seq![]);
    if 0 <= i < rebuilt.built@.len() {
        assert(above(parents@, all.built[i], 0) == Some(all.built[i]));
        assert(stands_above(parents@, all.built[i], all.built[i]));
    }
}

/// What a build holds is ready, and so is everything above what is ready; nothing else is: what is
/// ready was built itself or stands right above something that is ready.
pub proof fn readiness_climbs_to_the_top(built: &Vec<u64>, parents: &HashMap<u64, u64>, r: HashSet<u64>, i: int, e: u64)
    requires
        call_ensures(mark_ready, (built, parents), r),
    ensures
        0 <= i < built@.len() ==> r@.contains(built@[i]),
        r@.contains(e) && parents@.contains_key(e) ==> r@.contains(parents@[e]),
        r@.contains(e) ==> (exists|k: int| 0 <= k < built@.len() && #[trigger] built@[k] == e) || (exists|child: u64| #[trigger]
            parents@.contains_key(child) && parents@[child] == e && r@.contains(child)),
{
    if 0 <= i < built@.len() {
        assert(above(parents@, built@[i], 0) == Some(built@[i]));
        assert(stands_above(parents@, built@[i], built@[i]));
    }
    if r@.contains(e) {
        let k = choose|k: int| 0 <= k < built@.len() && stands_above(parents@, #[trigger] built@[k], e);
        let n = choose|n: nat| #[trigger] above(parents@, built@[k], n) == Some(e);
        if parents@.contains_key(e) {
            assert(above(parents@, built@[k], n + 1) == Some(parents@[e]));
            assert(stands_above(parents@, built@[k], parents@[e]));
        }
        if n == 0 {
            assert(built@[k] == e);
        } else {
            let child = above(parents@, built@[k], (n - 1) as nat)->0;
            assert(stands_above(parents@, built@[k], child));
            assert(r@.contains(child));
            assert(parents@.contains_key(child) && parents@[child] == e);
        }
    }
}

/// A lane's first rebuild is granted, and so is every one at no rate, after its time, or where the
/// clock went back; before its time none is. A grant takes the time, and only a grant does.
pub proof fn a_rebuild_waits_for_its_time(rate: &mut RebuildRate, now: Single, per_second: u32, elapsed: bool, r: bool, last: Option<Single>, next: Option<Single>)
    requires
        call_ensures(RebuildRate::due, (rate, now, per_second, elapsed), r),
        call_ensures(RebuildRate::last, (&*old(rate),), last),
        call_ensures(RebuildRate::last, (&*final(rate),), next),
    ensures
        last is None ==> r,
        per_second == 0 || elapsed ==> r,
        last matches Some(at) ==> (now.below(at) ==> r),
        last matches Some(at) ==> (per_second > 0 && !elapsed && !now.below(at) ==> !r),
        r ==> next == Some(now),
        !r ==> next == last,
{
}

/// A fresh caster has room for points and corners and holds none; only the one for cut-out
/// surfaces has coordinates.
pub proof fn a_fresh_caster_is_empty(solid: CasterMesh, cutout: CasterMesh)
    requires
        call_ensures(empty_shadow_mesh, (), solid),
        call_ensures(empty_cutout_mesh, (), cutout),
    ensures
        solid.positions matches Some(points) && points@.len() == 0,
        solid.indices matches Some(corners) && corners@.len() == 0,
        cutout.positions matches Some(points) && points@.len() == 0,
        cutout.indices matches Some(corners) && corners@.len() == 0,
        solid.coords is None,
        cutout.coords matches Some(coords) && coords@.len() == 0,
{
}

} // verus!
