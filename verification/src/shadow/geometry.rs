//! The caster geometry: which model parts cast, and how their vertices and triangles are gathered
//! into one caster mesh.
use crate::single::{Single, ZERO_BITS};
use vstd::prelude::*;

verus! {

/// The kinds of model a part can belong to.
#[derive(Clone, Copy, Debug, PartialEq, Eq, Structural)]
pub enum ModelKind {
    Creature,
    GameObject,
    Doodad,
    Wmo,
}

/// The ways a part's surface is drawn, as far as casting tells them apart.
#[derive(Clone, Copy, Debug, PartialEq, Eq, Structural)]
pub enum ModelBlend {
    Opaque,
    AlphaTest,
    Blend,
    Additive,
}

/// A vertex, by the bits of its coordinates.
#[derive(Clone, Copy, Debug, PartialEq, Eq, Structural)]
pub struct Point {
    pub x: Single,
    pub y: Single,
    pub z: Single,
}

/// A texture coordinate, by its bits.
#[derive(Clone, Copy, Debug, PartialEq, Eq, Structural)]
pub struct TexCoord {
    pub u: Single,
    pub v: Single,
}

/// Creatures cast when they are wanted and drawn opaque or alpha-tested; everything else casts
/// when the environment is wanted and only when opaque.
pub open spec fn casts(
    kind: ModelKind,
    blend: ModelBlend,
    want_creatures: bool,
    want_environment: bool,
) -> bool {
    if kind == ModelKind::Creature {
        want_creatures && (blend == ModelBlend::Opaque || blend == ModelBlend::AlphaTest)
    } else {
        want_environment && blend == ModelBlend::Opaque
    }
}

/// Decides whether a part casts a realtime shadow.
pub fn casts_realtime_shadow(
    kind: ModelKind,
    blend: ModelBlend,
    want_creatures: bool,
    want_environment: bool,
) -> (r: bool)
    ensures
        r == casts(kind, blend, want_creatures, want_environment),
{
    match kind {
        ModelKind::Creature => want_creatures && (blend == ModelBlend::Opaque || blend
            == ModelBlend::AlphaTest),
        _ => want_environment && blend == ModelBlend::Opaque,
    }
}

/// All three corners of the triangle `n` of `source` are vertices.
pub open spec fn triangle_fits(source: Seq<u32>, vertex_count: u32, n: int) -> bool {
    source[3 * n] < vertex_count && source[3 * n + 1] < vertex_count && source[3 * n + 2]
        < vertex_count
}

/// The corners of the triangle `n` of `source`, counted from `base`.
pub open spec fn triangle(source: Seq<u32>, base: u32, n: int) -> Seq<u32> {
    seq![
        (base + source[3 * n]) as u32,
        (base + source[3 * n + 1]) as u32,
        (base + source[3 * n + 2]) as u32,
    ]
}

/// The first `n` triangles of `source` without those that reach past the vertices.
pub open spec fn triangles_upto(source: Seq<u32>, vertex_count: u32, base: u32, n: int) -> Seq<u32>
    decreases n,
{
    if n <= 0 {
        seq![]
    } else {
        let before = triangles_upto(source, vertex_count, base, n - 1);
        if triangle_fits(source, vertex_count, n - 1) {
            before + triangle(source, base, n - 1)
        } else {
            before
        }
    }
}

/// The whole triangles of `source` without those that reach past the vertices; a trailing part of
/// a triangle is ignored.
pub open spec fn whole_triangles(source: Seq<u32>, vertex_count: u32, base: u32) -> Seq<u32> {
    triangles_upto(source, vertex_count, base, source.len() as int / 3)
}

/// Appends a triangle list, dropping whole triangles whose corners exceed the vertex range.
pub fn append_triangles(source: &Vec<u32>, vertex_count: u32, base: u32, indices: &mut Vec<u32>)
    requires
        base + vertex_count <= 0x1_0000_0000,
    ensures
        final(indices)@ == old(indices)@ + whole_triangles(source@, vertex_count, base),
{
    let total: usize = source.len();
    let count: usize = total / 3;
    let mut n: usize = 0;
    assert(indices@ =~= old(indices)@ + triangles_upto(source@, vertex_count, base, 0));
    while n < count
        invariant
            total == source@.len(),
            count == total / 3,
            n <= count,
            base + vertex_count <= 0x1_0000_0000,
            indices@ == old(indices)@ + triangles_upto(source@, vertex_count, base, n as int),
        decreases count - n,
    {
        let a: u32 = source[3 * n];
        let b: u32 = source[3 * n + 1];
        let c: u32 = source[3 * n + 2];
        if a < vertex_count && b < vertex_count && c < vertex_count {
            indices.push(base + a);
            indices.push(base + b);
            indices.push(base + c);
        }
        assert(indices@ =~= old(indices)@ + triangles_upto(
            source@,
            vertex_count,
            base,
            n as int + 1,
        ));
        n += 1;
    }
}

/// Appended triangles are whole, and every corner is one of the vertices just added.
pub proof fn appended_triangles_are_whole_and_in_range(
    source: Seq<u32>,
    vertex_count: u32,
    base: u32,
    n: int,
)
    requires
        base + vertex_count <= 0x1_0000_0000,
        0 <= n,
    ensures
        triangles_upto(source, vertex_count, base, n).len() % 3 == 0,
        forall|k: int|
            0 <= k < triangles_upto(source, vertex_count, base, n).len() ==> base <= #[trigger] triangles_upto(
                source,
                vertex_count,
                base,
                n,
            )[k] < base + vertex_count,
    decreases n,
{
    if n > 0 {
        appended_triangles_are_whole_and_in_range(source, vertex_count, base, n - 1);
    }
}

/// A triangle list whose corners all are vertices is appended whole, three indices for three.
pub proof fn a_sound_list_loses_nothing(source: Seq<u32>, vertex_count: u32, n: int)
    requires
        0 <= n,
        3 * n <= source.len(),
        forall|k: int| 0 <= k < source.len() ==> #[trigger] source[k] < vertex_count,
    ensures
        triangles_upto(source, vertex_count, 0, n) == source.take(3 * n),
    decreases n,
{
    if n > 0 {
        a_sound_list_loses_nothing(source, vertex_count, n - 1);
        assert(triangle_fits(source, vertex_count, n - 1));
        assert(source.take(3 * n) =~= source.take(3 * (n - 1)) + triangle(source, 0, n - 1));
    } else {
        assert(source.take(0) =~= seq![]);
    }
}

/// The position and index buffers a caster mesh carries; a cutout mesh has texture coordinates
/// too.
#[derive(Debug, PartialEq, Eq)]
pub struct CasterMesh {
    pub positions: Option<Vec<Point>>,
    pub coords: Option<Vec<TexCoord>>,
    pub indices: Option<Vec<u32>>,
}

/// A caster mesh with nothing in it.
pub fn empty_shadow_mesh() -> (r: CasterMesh)
    ensures
        r.positions is Some && r.positions->0@ == Seq::<Point>::empty(),
        r.coords is None,
        r.indices is Some && r.indices->0@ == Seq::<u32>::empty(),
{
    CasterMesh { positions: Some(Vec::new()), coords: None, indices: Some(Vec::new()) }
}

/// A cutout caster mesh with nothing in it: it declares texture coordinates.
pub fn empty_cutout_mesh() -> (r: CasterMesh)
    ensures
        r.positions is Some && r.positions->0@ == Seq::<Point>::empty(),
        r.coords is Some && r.coords->0@ == Seq::<TexCoord>::empty(),
        r.indices is Some && r.indices->0@ == Seq::<u32>::empty(),
{
    CasterMesh { positions: Some(Vec::new()), coords: Some(Vec::new()), indices: Some(Vec::new()) }
}

/// Takes a caster mesh's position and index buffers, emptied, for a rebuild to fill; the mesh has
/// neither until they are put back.
pub fn take_mesh_buffers(mesh: &mut CasterMesh) -> (r: (Vec<Point>, Vec<u32>))
    ensures
        r.0@ == Seq::<Point>::empty(),
        r.1@ == Seq::<u32>::empty(),
        final(mesh).positions is None,
        final(mesh).indices is None,
        final(mesh).coords == old(mesh).coords,
{
    let mut positions: Vec<Point> = match mesh.positions.take() {
        Some(values) => values,
        None => Vec::new(),
    };
    let mut indices: Vec<u32> = match mesh.indices.take() {
        Some(values) => values,
        None => Vec::new(),
    };
    positions.clear();
    indices.clear();
    (positions, indices)
}

/// Puts a caster mesh's buffers back.
pub fn restore_mesh_buffers(mesh: &mut CasterMesh, positions: Vec<Point>, indices: Vec<u32>)
    ensures
        final(mesh).positions == Some(positions),
        final(mesh).indices == Some(indices),
        final(mesh).coords == old(mesh).coords,
{
    mesh.positions = Some(positions);
    mesh.indices = Some(indices);
}

/// The four joints and weights of one vertex.
#[derive(Clone, Copy, Debug, PartialEq, Eq, Structural)]
pub struct Joints {
    pub a: u16,
    pub b: u16,
    pub c: u16,
    pub d: u16,
}

/// The four weights of one vertex.
#[derive(Clone, Copy, Debug, PartialEq, Eq, Structural)]
pub struct Weights {
    pub a: Single,
    pub b: Single,
    pub c: Single,
    pub d: Single,
}

/// Where a skinned vertex is seated.
#[derive(Clone, Copy, Debug, PartialEq, Eq, Structural)]
pub enum Seat {
    /// On the root matrix: the vertex has no skinning data.
    Root,
    /// At the origin: the vertex has no skinning data and the palette no matrix.
    Origin,
    /// On the weighted sum over the lanes that count.
    Blended { a: bool, b: bool, c: bool, d: bool },
}

/// A lane counts when its weight is above zero and its joint has a matrix.
pub open spec fn lane_counts(joint: u16, weight: Single, palette: int) -> bool {
    Single { bits: ZERO_BITS }.below(weight) && joint < palette
}

fn counts_lane(joint: u16, weight: Single, palette: usize) -> (r: bool)
    ensures
        r == lane_counts(joint, weight, palette as int),
{
    let zero = Single { bits: ZERO_BITS };
    zero.is_below(weight) && (joint as usize) < palette
}

/// Where the vertex `at` is seated.
pub open spec fn seat_of(
    at: int,
    joints: Seq<Joints>,
    weights: Seq<Weights>,
    palette: int,
) -> Seat {
    if at < joints.len() && at < weights.len() {
        let j = joints[at];
        let w = weights[at];
        Seat::Blended {
            a: lane_counts(j.a, w.a, palette),
            b: lane_counts(j.b, w.b, palette),
            c: lane_counts(j.c, w.c, palette),
            d: lane_counts(j.d, w.d, palette),
        }
    } else if palette > 0 {
        Seat::Root
    } else {
        Seat::Origin
    }
}

/// Seats the vertices of a skinned part. A vertex without skinning data still gets a seat, so the
/// seats keep step with the index buffer. Without a palette nothing is seated.
pub fn append_skinned(
    vertex_count: usize,
    joints: &Vec<Joints>,
    weights: &Vec<Weights>,
    palette: Option<usize>,
) -> (r: Vec<Seat>)
    ensures
        match palette {
            None => r@ == Seq::<Seat>::empty(),
            Some(matrices) => {
                &&& r@.len() == vertex_count
                &&& forall|at: int|
                    0 <= at < vertex_count ==> #[trigger] r@[at] == seat_of(
                        at,
                        joints@,
                        weights@,
                        matrices as int,
                    )
            },
        },
{
    let mut seats: Vec<Seat> = Vec::new();
    let matrices: usize = match palette {
        Some(matrices) => matrices,
        None => {
            return seats;
        },
    };
    let mut at: usize = 0;
    while at < vertex_count
        invariant
            at <= vertex_count,
            seats@.len() == at,
            forall|k: int|
                0 <= k < at ==> #[trigger] seats@[k] == seat_of(
                    k,
                    joints@,
                    weights@,
                    matrices as int,
                ),
        decreases vertex_count - at,
    {
        let seat = if at < joints.len() && at < weights.len() {
            let j = joints[at];
            let w = weights[at];
            Seat::Blended {
                a: counts_lane(j.a, w.a, matrices),
                b: counts_lane(j.b, w.b, matrices),
                c: counts_lane(j.c, w.c, matrices),
                d: counts_lane(j.d, w.d, matrices),
            }
        } else if matrices > 0 {
            Seat::Root
        } else {
            Seat::Origin
        };
        seats.push(seat);
        at += 1;
    }
    seats
}

/// One model part that may cast. `placed` is its squared distance to the light by its own
/// transform and `rigged` by its rig's origin, where it has one; `points` are its vertices in the
/// world, and need only be there for a part that is admitted.
#[derive(Debug, PartialEq, Eq)]
pub struct Part {
    pub entity: u64,
    pub kind: ModelKind,
    pub blend: ModelBlend,
    pub occludes: bool,
    pub placed: Option<Single>,
    pub rigged: Option<Single>,
    pub points: Vec<Point>,
    pub indices: Vec<u32>,
}

/// What a collection asks for: the kinds of caster, and the squared reach for short casters
/// (creatures and gameobjects) and for tall ones.
#[derive(Clone, Copy, Debug, PartialEq, Eq, Structural)]
pub struct Wanted {
    pub creatures: bool,
    pub environment: bool,
    pub short_reach: Single,
    pub tall_reach: Single,
}

/// What becomes of a part in a collection.
#[derive(Clone, Copy, Debug, PartialEq, Eq, Structural)]
pub enum Verdict {
    /// Of no kind that is asked for, or without a place, or out of reach.
    Passed,
    /// Hidden by the content half of the visibility law.
    Rejected,
    /// It casts.
    Admitted,
}

/// How far from the light a part stands: by its transform, else by its rig's origin.
pub open spec fn anchor_of(part: Part) -> Option<Single> {
    match part.placed {
        Some(distance) => Some(distance),
        None => part.rigged,
    }
}

/// The squared reach that holds for a kind.
pub open spec fn reach_of(kind: ModelKind, wanted: Wanted) -> Single {
    if kind == ModelKind::Creature || kind == ModelKind::GameObject {
        wanted.short_reach
    } else {
        wanted.tall_reach
    }
}

/// What becomes of a part: its kind is asked first, then whether it occludes, then its distance.
pub open spec fn verdict_of(part: Part, wanted: Wanted) -> Verdict {
    if !casts(part.kind, part.blend, wanted.creatures, wanted.environment) {
        Verdict::Passed
    } else if !part.occludes {
        Verdict::Rejected
    } else {
        match anchor_of(part) {
            Some(distance) if !reach_of(part.kind, wanted).below(distance) => Verdict::Admitted,
            _ => Verdict::Passed,
        }
    }
}

/// Judges a part.
pub fn judge(part: &Part, wanted: &Wanted) -> (r: Verdict)
    ensures
        r == verdict_of(*part, *wanted),
{
    if !casts_realtime_shadow(part.kind, part.blend, wanted.creatures, wanted.environment) {
        return Verdict::Passed;
    }
    if !part.occludes {
        return Verdict::Rejected;
    }
    let reach = match part.kind {
        ModelKind::Creature => wanted.short_reach,
        ModelKind::GameObject => wanted.short_reach,
        _ => wanted.tall_reach,
    };
    let anchor: Option<Single> = match part.placed {
        Some(distance) => Some(distance),
        None => part.rigged,
    };
    match anchor {
        Some(distance) => if reach.is_below(distance) {
            Verdict::Passed
        } else {
            Verdict::Admitted
        },
        None => Verdict::Passed,
    }
}

/// What a collection has gathered.
#[verifier::ext_equal]
pub struct Gathered {
    pub positions: Seq<Point>,
    pub indices: Seq<u32>,
    pub built: Seq<u64>,
    pub admitted: nat,
    pub rejected: nat,
}

/// One part added to what has been gathered: an admitted part brings its vertices and its sound
/// triangles, and counts as built when a triangle came.
pub open spec fn gathered_with(before: Gathered, part: Part, wanted: Wanted) -> Gathered {
    match verdict_of(part, wanted) {
        Verdict::Passed => before,
        Verdict::Rejected => Gathered { rejected: before.rejected + 1, ..before },
        Verdict::Admitted => {
            let brought = whole_triangles(
                part.indices@,
                part.points@.len() as u32,
                before.positions.len() as u32,
            );
            Gathered {
                positions: before.positions + part.points@,
                indices: before.indices + brought,
                built: if brought.len() > 0 {
                    before.built.push(part.entity)
                } else {
                    before.built
                },
                admitted: before.admitted + 1,
                rejected: before.rejected,
            }
        },
    }
}

/// What a collection over `parts` gathers into buffers that hold `positions` and `indices`.
pub open spec fn gathered(
    parts: Seq<Part>,
    wanted: Wanted,
    positions: Seq<Point>,
    indices: Seq<u32>,
) -> Gathered
    decreases parts.len(),
{
    if parts.len() == 0 {
        Gathered { positions, indices, built: seq![], admitted: 0, rejected: 0 }
    } else {
        gathered_with(
            gathered(parts.drop_last(), wanted, positions, indices),
            parts.last(),
            wanted,
        )
    }
}

/// What has been gathered can be numbered: its vertices, and the parts that were taken and turned
/// away, each fit 32 bits.
pub open spec fn countable(all: Gathered) -> bool {
    &&& all.positions.len() <= u32::MAX
    &&& all.admitted <= u32::MAX
    &&& all.rejected <= u32::MAX
}

/// The counts and the built entities of a collection.
#[derive(Debug, PartialEq, Eq)]
pub struct Collected {
    pub admitted: u32,
    pub rejected: u32,
    pub built: Vec<u64>,
}

proof fn lemma_gathered_grows(
    parts: Seq<Part>,
    wanted: Wanted,
    positions: Seq<Point>,
    indices: Seq<u32>,
    n: int,
)
    requires
        0 <= n <= parts.len(),
    ensures
        ({
            let some = gathered(parts.take(n), wanted, positions, indices);
            let all = gathered(parts, wanted, positions, indices);
            &&& some.positions.len() <= all.positions.len()
            &&& some.admitted <= all.admitted
            &&& some.rejected <= all.rejected
        }),
    decreases parts.len(),
{
    if n < parts.len() {
        lemma_gathered_grows(parts.drop_last(), wanted, positions, indices, n);
        assert(parts.drop_last().take(n) =~= parts.take(n));
    } else {
        assert(parts.take(n) =~= parts);
    }
}

fn append_points(points: &Vec<Point>, positions: &mut Vec<Point>)
    ensures
        final(positions)@ == old(positions)@ + points@,
{
    let mut i: usize = 0;
    assert(positions@ =~= old(positions)@ + points@.take(0));
    while i < points.len()
        invariant
            i <= points@.len(),
            positions@ == old(positions)@ + points@.take(i as int),
        decreases points@.len() - i,
    {
        positions.push(points[i]);
        assert(positions@ =~= old(positions)@ + points@.take(i as int + 1));
        i += 1;
    }
    assert(points@.take(i as int) =~= points@);
}

/// Collects the casters a lane wants into its buffers.
pub fn collect_entity_geometry(
    parts: &Vec<Part>,
    wanted: &Wanted,
    positions: &mut Vec<Point>,
    indices: &mut Vec<u32>,
) -> (r: Collected)
    requires
        countable(gathered(parts@, *wanted, old(positions)@, old(indices)@)),
    ensures
        ({
            let all = gathered(parts@, *wanted, old(positions)@, old(indices)@);
            &&& final(positions)@ == all.positions
            &&& final(indices)@ == all.indices
            &&& r.built@ == all.built
            &&& r.admitted == all.admitted
            &&& r.rejected == all.rejected
        }),
{
    let mut admitted: u32 = 0;
    let mut rejected: u32 = 0;
    let mut built: Vec<u64> = Vec::new();
    let mut i: usize = 0;
    let ghost first = positions@;
    let ghost first_indices = indices@;
    assert(parts@.take(0) =~= seq![]);
    while i < parts.len()
        invariant
            i <= parts@.len(),
            countable(gathered(parts@, *wanted, first, first_indices)),
            positions@ == gathered(parts@.take(i as int), *wanted, first, first_indices).positions,
            indices@ == gathered(parts@.take(i as int), *wanted, first, first_indices).indices,
            built@ == gathered(parts@.take(i as int), *wanted, first, first_indices).built,
            admitted == gathered(parts@.take(i as int), *wanted, first, first_indices).admitted,
            rejected == gathered(parts@.take(i as int), *wanted, first, first_indices).rejected,
        decreases parts@.len() - i,
    {
        let part: &Part = &parts[i];
        proof {
            let now = parts@.take(i as int + 1);
            assert(now.drop_last() =~= parts@.take(i as int));
            assert(now.last() == *part);
            lemma_gathered_grows(parts@, *wanted, first, first_indices, i as int);
            lemma_gathered_grows(parts@, *wanted, first, first_indices, i as int + 1);
        }
        match judge(part, wanted) {
            Verdict::Passed => {},
            Verdict::Rejected => {
                rejected += 1;
            },
            Verdict::Admitted => {
                admitted += 1;
                let base: u32 = positions.len() as u32;
                append_points(&part.points, positions);
                let added: u32 = part.points.len() as u32;
                let ghost brought = whole_triangles(part.indices@, added, base);
                if added != 0 {
                    let before: usize = indices.len();
                    append_triangles(&part.indices, added, base, indices);
                    if indices.len() > before {
                        built.push(part.entity);
                    }
                } else {
                    proof {
                        lemma_no_vertex_no_triangle(part.indices@, base, part.indices@.len() as int / 3);
                    }
                    assert(indices@ =~= indices@ + brought);
                }
            },
        }
        i += 1;
    }
    assert(parts@.take(i as int) =~= parts@);
    Collected { admitted, rejected, built }
}

proof fn lemma_no_vertex_no_triangle(source: Seq<u32>, base: u32, n: int)
    ensures
        triangles_upto(source, 0, base, n) == Seq::<u32>::empty(),
    decreases n,
{
    if n > 0 {
        lemma_no_vertex_no_triangle(source, base, n - 1);
    }
}

/// A lane that wants only creatures admits no environment, and one that wants only the
/// environment admits no creature: the two lanes never collect the same part.
pub proof fn the_lanes_share_no_part(kind: ModelKind, blend: ModelBlend)
    ensures
        !(casts(kind, blend, true, false) && casts(kind, blend, false, true)),
        casts(kind, blend, true, true) <==> casts(kind, blend, true, false) || casts(
            kind,
            blend,
            false,
            true,
        ),
{
}

} // verus!
