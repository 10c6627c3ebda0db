//! What holds of every claim a carried light makes on a room.
use crate::entities::carried::CarriedLightMotion;
use crate::entities::claims::{
    anchor_above, claim_carried_light_rooms, claims_at, decide_claims, holds_light, lane_worthy, last_seen,
    may_claim, owner_lane, room_to_claim, CarriedClaims, ClaimNeed, ClaimOutcome, ClaimSet,
    ClaimedRoom, ComponentWrite, InteriorAnchor, Placement, Preferred, WmoRoom,
};
use crate::entities::hierarchy::above;
use crate::shadow::geometry::Point;
use crate::single::{Single, ZERO_BITS};
use std::collections::HashMap;
use vstd::prelude::*;

verus! {

/// The bearer has crossed at least half into its room.
pub open spec fn half_in(anchor: InteriorAnchor) -> bool {
    (Single { bits: 0x3F00_0000 }).at_most(anchor.lane)
}

/// While the anchor names a room, that room is the one seen, whatever the record says; and once
/// the bearer is half in, it is the room claimed.
pub proof fn the_room_the_anchor_names_is_seen(
    anchor: InteriorAnchor,
    claimed: Option<ClaimedRoom>,
    room: WmoRoom,
    seen: Option<WmoRoom>,
    want: Option<WmoRoom>,
)
    requires
        anchor.room == Some(room),
        call_ensures(last_seen, (anchor, claimed), seen),
        call_ensures(room_to_claim, (anchor, claimed), want),
    ensures
        seen == Some(room),
        half_in(anchor) ==> want == Some(room),
        !half_in(anchor) ==> want is None,
{
}

/// Where the anchor names no room, the one on record is still seen, and none where there is no
/// record; it is claimed only while the bearer is half in.
pub proof fn a_silent_anchor_leaves_the_record_to_speak(
    anchor: InteriorAnchor,
    claimed: Option<ClaimedRoom>,
    seen: Option<WmoRoom>,
    want: Option<WmoRoom>,
)
    requires
        anchor.room is None,
        call_ensures(last_seen, (anchor, claimed), seen),
        call_ensures(room_to_claim, (anchor, claimed), want),
    ensures
        claimed matches Some(record) ==> seen == record.seen,
        claimed is None ==> seen is None,
        half_in(anchor) ==> want == seen,
        !half_in(anchor) ==> want is None,
{
}

/// A bearer that walks from one room into another takes its light with it: the light claims the
/// room the anchor names, the record follows, the light stands on the interior lane, and its room
/// is written anew exactly where it was another.
pub proof fn a_light_follows_its_bearer(
    anchor: InteriorAnchor,
    claimed: Option<ClaimedRoom>,
    claims: Option<CarriedClaims>,
    need: ClaimNeed,
    built: Option<ClaimSet>,
    at: Point,
    generation: u32,
    deny: u16,
    room: WmoRoom,
    r: ClaimOutcome,
)
    requires
        call_ensures(
            claim_carried_light_rooms,
            (anchor, claimed, claims, need, built, at, generation, deny),
            r,
        ),
        anchor.room == Some(room),
        half_in(anchor),
    ensures
        r.claimed.applied == Some(room),
        r.claimed.seen == Some(room),
        r.claimed.lane,
        (claimed matches Some(record) && record.applied == Some(room)) <==> r.writes.room
            == ComponentWrite::Leave,
        !(claimed matches Some(record) && record.applied == Some(room)) <==> r.writes.room
            == ComponentWrite::Insert,
{
}

/// A bearer that is not half into any room leaves its light without one: the room goes, unless
/// the light had none on record, and what was seen last is remembered all the same.
pub proof fn a_light_outdoors_has_no_room(
    anchor: InteriorAnchor,
    claimed: Option<ClaimedRoom>,
    claims: Option<CarriedClaims>,
    need: ClaimNeed,
    built: Option<ClaimSet>,
    at: Point,
    generation: u32,
    deny: u16,
    r: ClaimOutcome,
)
    requires
        call_ensures(
            claim_carried_light_rooms,
            (anchor, claimed, claims, need, built, at, generation, deny),
            r,
        ),
        !half_in(anchor),
    ensures
        r.claimed.applied is None,
        (claimed matches Some(record) && record.applied is None) <==> r.writes.room
            == ComponentWrite::Leave,
        !(claimed matches Some(record) && record.applied is None) <==> r.writes.room
            == ComponentWrite::Remove,
        anchor.room is Some ==> r.claimed.seen == anchor.room,
        anchor.room is None ==> (claimed matches Some(record) ==> r.claimed.seen == record.seen),
{
}

/// The lane is told to the light exactly where it changes, and what is told is what the record
/// then holds.
pub proof fn the_lane_is_written_where_it_changes(
    anchor: InteriorAnchor,
    claimed: Option<ClaimedRoom>,
    claims: Option<CarriedClaims>,
    need: ClaimNeed,
    built: Option<ClaimSet>,
    at: Point,
    generation: u32,
    deny: u16,
    r: ClaimOutcome,
)
    requires
        call_ensures(
            claim_carried_light_rooms,
            (anchor, claimed, claims, need, built, at, generation, deny),
            r,
        ),
    ensures
        r.writes.lane matches Some(lane) ==> lane == r.claimed.lane,
        r.writes.lane is None <==> (claimed matches Some(record) && record.lane == r.claimed.lane),
{
}

/// A light with no room is on the interior lane exactly where the rooms it may light earn it: one
/// of them is a room proper, and none of them keeps light off the exterior batches.
pub proof fn a_roomless_light_earns_its_lane(
    anchor: InteriorAnchor,
    claimed: Option<ClaimedRoom>,
    claims: Option<CarriedClaims>,
    prefer: Preferred,
    set: ClaimSet,
    at: Point,
    generation: u32,
    deny: u16,
    r: ClaimOutcome,
    k: int,
)
    requires
        call_ensures(
            claim_carried_light_rooms,
            (anchor, claimed, claims, (ClaimNeed::Build { prefer }), Some(set), at, generation, deny),
            r,
        ),
        !half_in(anchor),
    ensures
        !set.any_interior ==> !r.claimed.lane,
        0 <= k < set.groups@.len() && set.groups@[k] & deny != 0 ==> !r.claimed.lane,
        set.any_interior && (forall|j: int|
            0 <= j < set.groups@.len() ==> (#[trigger] set.groups@[j]) & deny == 0)
            ==> r.claimed.lane,
{
}

/// What a set of claims is worth is decided by its rooms alone: some room proper, and no group
/// with the mark.
pub proof fn a_marked_group_costs_the_lane(set: &ClaimSet, deny: u16, k: int, r: bool)
    requires
        call_ensures(lane_worthy, (set, deny), r),
    ensures
        r ==> set.any_interior,
        r && 0 <= k < set.groups@.len() ==> set.groups@[k] & deny == 0,
        set.any_interior && set.groups@.len() == 0 ==> r,
{
}

/// Claims that stand are kept with their record, claims that are decided anew take what was found
/// under the room and the generation of this frame, and claims that are dropped leave none.
pub proof fn the_record_follows_the_decision(
    anchor: InteriorAnchor,
    claimed: Option<ClaimedRoom>,
    claims: Option<CarriedClaims>,
    need: ClaimNeed,
    built: Option<ClaimSet>,
    at: Point,
    generation: u32,
    deny: u16,
    r: ClaimOutcome,
)
    requires
        call_ensures(
            claim_carried_light_rooms,
            (anchor, claimed, claims, need, built, at, generation, deny),
            r,
        ),
    ensures
        need == ClaimNeed::Keep ==> r.claims == claims,
        need != ClaimNeed::Keep ==> (r.claims matches Some(c) && c.at == at && c.generation
            == generation && c.room == r.claimed.applied),
        need is Build ==> (r.claims matches Some(c) && c.set == built),
        need == ClaimNeed::Drop ==> (r.claims matches Some(c) && c.set is None),
        need == ClaimNeed::Drop && (claims matches Some(c) && c.set is Some) ==> r.writes.lit_rooms
            == ComponentWrite::Remove,
        need == ClaimNeed::Drop && !(claims matches Some(c) && c.set is Some)
            ==> r.writes.lit_rooms == ComponentWrite::Leave,
        need is Build && built is Some && !(claims matches Some(c) && c.set is Some)
            ==> r.writes.lit_rooms == ComponentWrite::Insert,
        need is Build && built is None && (claims matches Some(c) && c.set is Some)
            ==> r.writes.lit_rooms == ComponentWrite::Remove,
{
}

/// The rooms a light may light are left alone only where what was found says just what stood
/// there: another building, another list of groups or another fade is written.
pub proof fn changed_claims_are_written(
    anchor: InteriorAnchor,
    claimed: Option<ClaimedRoom>,
    c: CarriedClaims,
    had: ClaimSet,
    prefer: Preferred,
    found: ClaimSet,
    at: Point,
    generation: u32,
    deny: u16,
    r: ClaimOutcome,
    k: int,
)
    requires
        c.set == Some(had),
        call_ensures(
            claim_carried_light_rooms,
            (anchor, claimed, Some(c), (ClaimNeed::Build { prefer }), Some(found), at, generation, deny),
            r,
        ),
    ensures
        r.writes.lit_rooms != ComponentWrite::Remove,
        found.instance != had.instance ==> r.writes.lit_rooms == ComponentWrite::Insert,
        found.groups@ != had.groups@ ==> r.writes.lit_rooms == ComponentWrite::Insert,
        found.fades@.len() != had.fades@.len() ==> r.writes.lit_rooms == ComponentWrite::Insert,
        0 <= k < found.fades@.len() && !found.fades@[k].same_number(had.fades@[k])
            ==> r.writes.lit_rooms == ComponentWrite::Insert,
        found.instance == had.instance && found.groups@ == had.groups@ && found.fades@.len() == had.fades@.len() && (forall|j: int|
            0 <= j < found.fades@.len() ==> (#[trigger] found.fades@[j]).same_number(had.fades@[j]))
            ==> r.writes.lit_rooms == ComponentWrite::Leave,
{
}

/// Claims are rebuilt or dropped as soon as one of the three things they were decided under has
/// changed: the resident buildings, the room, and the light's own place, by more than half a yard.
pub proof fn stale_claims_do_not_stand(
    c: CarriedClaims,
    want: Option<WmoRoom>,
    drift_squared: Single,
    generation: u32,
    allowed: bool,
    r: ClaimNeed,
)
    requires
        call_ensures(decide_claims, (&Some(c), want, drift_squared, generation, allowed), r),
    ensures
        c.generation != generation ==> r != ClaimNeed::Keep,
        c.room != want ==> r != ClaimNeed::Keep,
        (Single { bits: 0x3E80_0000 }).below(drift_squared) ==> r != ClaimNeed::Keep,
        drift_squared.not_a_number() ==> r != ClaimNeed::Keep,
        c.generation == generation && c.room == want && drift_squared.bits
            == 0x3E80_0000 ==> r == ClaimNeed::Keep,
        r is Build ==> allowed,
        r == ClaimNeed::Drop ==> !allowed,
{
}

/// A rebuild asks the building of the bearer's room first and that of the former claims second,
/// and a light that has claimed nothing is never kept.
pub proof fn a_rebuild_asks_the_bearers_building_first(
    claims: &Option<CarriedClaims>,
    want: Option<WmoRoom>,
    drift_squared: Single,
    generation: u32,
    allowed: bool,
    r: ClaimNeed,
)
    requires
        call_ensures(decide_claims, (claims, want, drift_squared, generation, allowed), r),
    ensures
        claims is None ==> r != ClaimNeed::Keep,
        claims is None && allowed ==> r is Build,
        r matches ClaimNeed::Build { prefer } ==> {
            &&& want matches Some(room) ==> prefer.first == Some(room.instance)
            &&& want is None ==> prefer.first is None
            &&& claims is None ==> prefer.second is None
            &&& claims matches Some(c) ==> (c.set matches Some(set) ==> prefer.second == Some(
                set.instance,
            ))
            &&& claims matches Some(c) ==> (c.set is None ==> prefer.second is None)
        },
{
}

/// The building asked first takes a light that it holds whatever else holds it; the second only
/// where the first does not; and a building that does not hold the light never takes it.
pub proof fn a_preferred_building_takes_its_light(
    places: &Vec<Placement>,
    prefer: Preferred,
    r: Option<u64>,
)
    requires
        call_ensures(claims_at, (places, prefer), r),
    ensures
        prefer.first matches Some(e) ==> (holds_light(places@, e) ==> r == Some(e)),
        prefer.second matches Some(e) ==> (holds_light(places@, e) && (prefer.first is None
            || !holds_light(places@, prefer.first->0)) ==> r == Some(e)),
        r matches Some(e) ==> holds_light(places@, e),
        (exists|k: int| 0 <= k < places@.len() && (#[trigger] places@[k]).holds) ==> r is Some,
{
    if let Some(e) = r {
        if !holds_light(places@, e) {
            let k = choose|k: int|
                0 <= k < places@.len() && (#[trigger] places@[k]).holds && places@[k].entity == e
                    && places@[k] == (Placement { entity: e, holds: true });
            assert(places@[k] == (Placement { entity: e, holds: true }));
        }
    }
    if exists|k: int| 0 <= k < places@.len() && (#[trigger] places@[k]).holds {
        let k = choose|k: int| 0 <= k < places@.len() && (#[trigger] places@[k]).holds;
        assert(places@[k].holds);
    }
}

/// With no building preferred, the first in the list that holds the light takes it.
pub proof fn the_first_building_in_the_list_takes_a_stray(
    places: &Vec<Placement>,
    k: int,
    r: Option<u64>,
)
    requires
        call_ensures(claims_at, (places, (Preferred { first: None, second: None })), r),
        0 <= k < places@.len(),
        places@[k].holds,
        forall|j: int| 0 <= j < k ==> !(#[trigger] places@[j]).holds,
    ensures
        r == Some(places@[k].entity),
{
    assert(places@[k].holds);
}

/// A spell's light may always claim, any other only after it has been tracked and has stood still
/// for long enough.
pub proof fn only_a_settled_light_claims(spell: bool, motion: Option<CarriedLightMotion>, r: bool)
    requires
        call_ensures(may_claim, (spell, motion), r),
    ensures
        spell ==> r,
        !spell && motion is None ==> !r,
        !spell ==> (motion matches Some(m) ==> (r <==> (Single { bits: 0x3F40_0000 }).at_most(
            m.still_for,
        ))),
{
}

proof fn lemma_nearest_anchor(
    entity: u64,
    parents: Map<u64, u64>,
    anchors: Map<u64, InteriorAnchor>,
    depth: nat,
    n: nat,
    bearer: u64,
)
    requires
        n < depth,
        above(parents, entity, n) == Some(bearer),
        anchors.contains_key(bearer),
        forall|m: nat|
            m < n ==> (#[trigger] above(parents, entity, m) matches Some(e)
                && !anchors.contains_key(e)),
    ensures
        anchor_above(entity, parents, anchors, depth) == anchors[bearer],
    decreases n,
{
    if n > 0 {
        assert(above(parents, entity, 0) == Some(entity));
        assert(!anchors.contains_key(entity));
        lemma_above_from_parent(entity, parents, n);
        let parent = parents[entity];
        assert forall|m: nat| m < n - 1 implies (#[trigger] above(parents, parent, m) matches Some(
            e,
        ) && !anchors.contains_key(e)) by {
            assert(above(parents, entity, m + 1) is Some);
            lemma_above_from_parent(entity, parents, m + 1);
        }
        lemma_nearest_anchor(parent, parents, anchors, (depth - 1) as nat, (n - 1) as nat, bearer);
    }
}

proof fn lemma_above_from_parent(entity: u64, parents: Map<u64, u64>, n: nat)
    requires
        n > 0,
        above(parents, entity, n) is Some,
    ensures
        parents.contains_key(entity),
        above(parents, entity, n) == above(parents, parents[entity], (n - 1) as nat),
    decreases n,
{
    if n > 1 {
        lemma_above_from_parent(entity, parents, (n - 1) as nat);
    } else {
        assert(above(parents, entity, 0) == Some(entity));
        assert(above(parents, entity, 1) is Some);
    }
}

/// A light goes by the nearest anchor above it, its own before any other's, as far up as the walk
/// looks.
pub proof fn the_nearest_anchor_speaks_for_a_light(
    light: u64,
    parents: &HashMap<u64, u64>,
    anchors: &HashMap<u64, InteriorAnchor>,
    n: nat,
    bearer: u64,
    r: InteriorAnchor,
)
    requires
        call_ensures(owner_lane, (light, parents, anchors), r),
        n < 64,
        above(parents@, light, n) == Some(bearer),
        anchors@.contains_key(bearer),
        forall|m: nat|
            m < n ==> (#[trigger] above(parents@, light, m) matches Some(e)
                && !anchors@.contains_key(e)),
    ensures
        r == anchors@[bearer],
{
    lemma_nearest_anchor(light, parents@, anchors@, 64, n, bearer);
}

proof fn lemma_no_anchor(
    entity: u64,
    parents: Map<u64, u64>,
    anchors: Map<u64, InteriorAnchor>,
    depth: nat,
)
    requires
        forall|e: u64| !#[trigger] anchors.contains_key(e),
    ensures
        anchor_above(entity, parents, anchors, depth).room is None,
        anchor_above(entity, parents, anchors, depth).lane.bits == ZERO_BITS,
    decreases depth,
{
    if depth > 0 && parents.contains_key(entity) {
        lemma_no_anchor(parents[entity], parents, anchors, (depth - 1) as nat);
    }
}

/// A light with no anchor above it is outdoors: it has no room and has crossed into none.
pub proof fn a_light_without_an_anchor_is_outdoors(
    light: u64,
    parents: &HashMap<u64, u64>,
    anchors: &HashMap<u64, InteriorAnchor>,
    r: InteriorAnchor,
)
    requires
        call_ensures(owner_lane, (light, parents, anchors), r),
        (forall|e: u64| !#[trigger] anchors@.contains_key(e)) || (!anchors@.contains_key(light)
            && !parents@.contains_key(light)),
    ensures
        r.room is None,
        r.lane.bits == ZERO_BITS,
{
    if forall|e: u64| !#[trigger] anchors@.contains_key(e) {
        lemma_no_anchor(light, parents@, anchors@, 64);
    }
}

proof fn lemma_walk_ends(
    entity: u64,
    parents: Map<u64, u64>,
    anchors: Map<u64, InteriorAnchor>,
    depth: nat,
)
    requires
        forall|m: nat|
            m < depth ==> (#[trigger] above(parents, entity, m) matches Some(e) ==> !anchors.contains_key(e)),
    ensures
        anchor_above(entity, parents, anchors, depth).room is None,
        anchor_above(entity, parents, anchors, depth).lane.bits == ZERO_BITS,
    decreases depth,
{
    if depth > 0 {
        assert(above(parents, entity, 0) == Some(entity));
        if parents.contains_key(entity) {
            let parent = parents[entity];
            assert forall|m: nat| m < depth - 1 implies (#[trigger] above(parents, parent, m) matches Some(e)
                ==> !anchors.contains_key(e)) by {
                lemma_above_by_parent(entity, parents, m);
            }
            lemma_walk_ends(parent, parents, anchors, (depth - 1) as nat);
        }
    }
}

proof fn lemma_above_by_parent(entity: u64, parents: Map<u64, u64>, n: nat)
    requires
        parents.contains_key(entity),
    ensures
        above(parents, entity, n + 1) == above(parents, parents[entity], n),
    decreases n,
{
    if n > 0 {
        lemma_above_by_parent(entity, parents, (n - 1) as nat);
    } else {
        assert(above(parents, entity, 0) == Some(entity));
    }
}

/// The walk up looks at sixty-four entities and no further: where none of them has an anchor the
/// light is outdoors, whatever stands above them.
pub proof fn the_walk_up_ends(
    light: u64,
    parents: &HashMap<u64, u64>,
    anchors: &HashMap<u64, InteriorAnchor>,
    r: InteriorAnchor,
)
    requires
        call_ensures(owner_lane, (light, parents, anchors), r),
        forall|m: nat|
            m < 64 ==> (#[trigger] above(parents@, light, m) matches Some(e) ==> !anchors@.contains_key(e)),
    ensures
        r.room is None,
        r.lane.bits == ZERO_BITS,
{
    lemma_walk_ends(light, parents@, anchors@, 64);
}

} // verus!
