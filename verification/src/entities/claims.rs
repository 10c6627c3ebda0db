//! The rooms a carried light belongs to: the one its bearer stands in, the ones it may light, and
//! the lane it is packed on.
use crate::entities::carried::CarriedLightMotion;
use crate::shadow::geometry::Point;
use crate::single::{Single, ZERO_BITS};
use std::collections::HashMap;
use vstd::prelude::*;

verus! {

broadcast use vstd::std_specs::hash::group_hash_axioms;

/// How far up the walk for an anchor looks before it gives up.
pub const ANCHOR_WALK_DEPTH: usize = 64;

/// The crossfade weight at which a carried light commits to its owner's room: 0.5.
pub const LANE_INTERIOR_BITS: u32 = 0x3F00_0000;

/// The square of how far a light may drift before its claims are rebuilt: half a yard.
pub const CLAIM_DRIFT_SQUARED_BITS: u32 = 0x3E80_0000;

/// A room: a building's placement and one of its groups.
#[derive(Clone, Copy, Debug, PartialEq, Eq, Structural)]
pub struct WmoRoom {
    pub instance: u64,
    pub group: u16,
}

/// What an anchor says of its bearer: the room it stands in, and how far it has crossed into it.
#[derive(Clone, Copy, Debug, PartialEq, Eq, Structural)]
pub struct InteriorAnchor {
    pub room: Option<WmoRoom>,
    pub lane: Single,
}

/// An anchor that names no room and has crossed into none.
pub open spec fn outdoors() -> InteriorAnchor {
    InteriorAnchor { room: None, lane: Single { bits: ZERO_BITS } }
}

/// The anchor that holds for `entity`: its own, else that of what it hangs under, looking at no
/// more than `depth` entities; outdoors where there is none.
pub open spec fn anchor_above(
    entity: u64,
    parents: Map<u64, u64>,
    anchors: Map<u64, InteriorAnchor>,
    depth: nat,
) -> InteriorAnchor
    decreases depth,
{
    if depth == 0 {
        outdoors()
    } else if anchors.contains_key(entity) {
        anchors[entity]
    } else if parents.contains_key(entity) {
        anchor_above(parents[entity], parents, anchors, (depth - 1) as nat)
    } else {
        outdoors()
    }
}

/// Walks up from a light to the anchor of its bearer.
pub fn owner_lane(
    light: u64,
    parents: &HashMap<u64, u64>,
    anchors: &HashMap<u64, InteriorAnchor>,
) -> (r: InteriorAnchor)
    ensures
        r == anchor_above(light, parents@, anchors@, ANCHOR_WALK_DEPTH as nat),
{
    let nowhere = InteriorAnchor { room: None, lane: Single { bits: ZERO_BITS } };
    let mut entity: u64 = light;
    let mut left: usize = ANCHOR_WALK_DEPTH;
    while left > 0
        invariant
            nowhere == outdoors(),
            anchor_above(light, parents@, anchors@, ANCHOR_WALK_DEPTH as nat) == anchor_above(
                entity,
                parents@,
                anchors@,
                left as nat,
            ),
        decreases left,
    {
        if let Some(anchor) = anchors.get(&entity) {
            return *anchor;
        }
        match parents.get(&entity) {
            Some(parent) => {
                entity = *parent;
            },
            None => {
                return nowhere;
            },
        }
        left -= 1;
    }
    nowhere
}

/// The rooms a light may light: the building they are of, the groups, how far each is faded by
/// the reach the light has left there, and whether any of them is a room proper.
#[derive(Debug, PartialEq, Eq)]
pub struct ClaimSet {
    pub instance: u64,
    pub groups: Vec<u16>,
    pub fades: Vec<Single>,
    pub any_interior: bool,
}

/// No group of `set` carries the mark that keeps a light off the exterior batches.
pub open spec fn all_exterior_ok(set: ClaimSet, deny: u16) -> bool {
    forall|k: int| 0 <= k < set.groups@.len() ==> (#[trigger] set.groups@[k]) & deny == 0
}

/// Decides whether a set of claims earns the interior lane: it names a room proper, and every
/// group of it may light exterior batches too.
pub fn lane_worthy(set: &ClaimSet, deny: u16) -> (r: bool)
    ensures
        r == (set.any_interior && all_exterior_ok(*set, deny)),
{
    if !set.any_interior {
        return false;
    }
    let mut k: usize = 0;
    while k < set.groups.len()
        invariant
            k <= set.groups@.len(),
            forall|j: int| 0 <= j < k ==> (#[trigger] set.groups@[j]) & deny == 0,
        decreases set.groups@.len() - k,
    {
        if set.groups[k] & deny != 0 {
            return false;
        }
        k += 1;
    }
    true
}

/// The two sets say the same: the same building, the same groups and the same fades.
pub open spec fn same_claims(a: ClaimSet, b: ClaimSet) -> bool {
    &&& a.instance == b.instance
    &&& a.groups@ == b.groups@
    &&& a.fades@.len() == b.fades@.len()
    &&& forall|k: int|
        0 <= k < a.fades@.len() ==> (#[trigger] a.fades@[k]).same_number(b.fades@[k])
}

fn agree(a: &ClaimSet, b: &ClaimSet) -> (r: bool)
    ensures
        r == same_claims(*a, *b),
{
    if a.instance != b.instance || a.groups.len() != b.groups.len() || a.fades.len()
        != b.fades.len() {
        return false;
    }
    let mut k: usize = 0;
    while k < a.groups.len()
        invariant
            k <= a.groups@.len(),
            a.groups@.len() == b.groups@.len(),
            forall|j: int| 0 <= j < k ==> #[trigger] a.groups@[j] == b.groups@[j],
        decreases a.groups@.len() - k,
    {
        if a.groups[k] != b.groups[k] {
            return false;
        }
        k += 1;
    }
    assert(a.groups@ =~= b.groups@);
    let mut m: usize = 0;
    while m < a.fades.len()
        invariant
            m <= a.fades@.len(),
            a.fades@.len() == b.fades@.len(),
            forall|j: int| 0 <= j < m ==> (#[trigger] a.fades@[j]).same_number(b.fades@[j]),
        decreases a.fades@.len() - m,
    {
        if !a.fades[m].equals(b.fades[m]) {
            return false;
        }
        m += 1;
    }
    true
}

/// A building near the light: its placement, and whether one of its boxes holds the light.
#[derive(Clone, Copy, Debug, PartialEq, Eq, Structural)]
pub struct Placement {
    pub entity: u64,
    pub holds: bool,
}

/// The two placements that are asked first.
#[derive(Clone, Copy, Debug, PartialEq, Eq, Structural)]
pub struct Preferred {
    pub first: Option<u64>,
    pub second: Option<u64>,
}

/// `places` has a placement `entity` that holds the light.
pub open spec fn holds_light(places: Seq<Placement>, entity: u64) -> bool {
    exists|k: int| 0 <= k < places.len() && (#[trigger] places[k]) == (Placement { entity, holds: true })
}

/// The placement whose claims a light takes: a preferred one that holds it, in order, else the
/// first that does.
pub open spec fn claimed_placement(places: Seq<Placement>, prefer: Preferred, r: Option<u64>) -> bool {
    let by_first = prefer.first matches Some(e) && holds_light(places, e);
    let by_second = prefer.second matches Some(e) && holds_light(places, e);
    if by_first {
        r == prefer.first
    } else if by_second {
        r == prefer.second
    } else {
        match r {
            Some(entity) => exists|k: int| #[trigger]
                first_holder(places, k) && places[k].entity == entity,
            None => forall|k: int| 0 <= k < places.len() ==> !(#[trigger] places[k]).holds,
        }
    }
}

/// The first of `places` that holds the light stands at `k`.
pub open spec fn first_holder(places: Seq<Placement>, k: int) -> bool {
    &&& 0 <= k < places.len()
    &&& places[k].holds
    &&& forall|j: int| 0 <= j < k ==> !(#[trigger] places[j]).holds
}

fn probe(places: &Vec<Placement>, entity: u64) -> (r: bool)
    ensures
        r == holds_light(places@, entity),
{
    let mut k: usize = 0;
    while k < places.len()
        invariant
            k <= places@.len(),
            forall|j: int| 0 <= j < k ==> (#[trigger] places@[j]) != (Placement { entity, holds: true }),
        decreases places@.len() - k,
    {
        if places[k].entity == entity && places[k].holds {
            assert(places@[k as int] == (Placement { entity, holds: true }));
            return true;
        }
        k += 1;
    }
    false
}

/// Finds the placement whose claims a light takes.
pub fn claims_at(places: &Vec<Placement>, prefer: Preferred) -> (r: Option<u64>)
    ensures
        claimed_placement(places@, prefer, r),
{
    if let Some(entity) = prefer.first {
        if probe(places, entity) {
            return Some(entity);
        }
    }
    if let Some(entity) = prefer.second {
        if probe(places, entity) {
            return Some(entity);
        }
    }
    let mut k: usize = 0;
    while k < places.len()
        invariant
            k <= places@.len(),
            forall|j: int| 0 <= j < k ==> !(#[trigger] places@[j]).holds,
            !(prefer.first matches Some(e) && holds_light(places@, e)),
            !(prefer.second matches Some(e) && holds_light(places@, e)),
        decreases places@.len() - k,
    {
        if places[k].holds {
            assert(first_holder(places@, k as int));
            return Some(places[k].entity);
        }
        k += 1;
    }
    None
}

/// The claims a light carries, with what they were decided under.
#[derive(Debug, PartialEq, Eq)]
pub struct CarriedClaims {
    pub set: Option<ClaimSet>,
    pub at: Point,
    pub generation: u32,
    pub room: Option<WmoRoom>,
}

impl CarriedClaims {
    /// The claims still stand: the same buildings are resident, the bearer is in the same room,
    /// and the light has not drifted off.
    pub open spec fn stands(
        self,
        drift_squared: Single,
        generation: u32,
        room: Option<WmoRoom>,
    ) -> bool {
        &&& self.generation == generation
        &&& self.room == room
        &&& drift_squared.at_most(Single { bits: CLAIM_DRIFT_SQUARED_BITS })
    }

    /// Decides whether the claims still stand.
    pub fn fresh(&self, drift_squared: Single, generation: u32, room: Option<WmoRoom>) -> (r: bool)
        ensures
            r == self.stands(drift_squared, generation, room),
    {
        let limit = Single { bits: CLAIM_DRIFT_SQUARED_BITS };
        self.generation == generation && same_room(self.room, room) && drift_squared.is_at_most(
            limit,
        )
    }
}

fn same_room(a: Option<WmoRoom>, b: Option<WmoRoom>) -> (r: bool)
    ensures
        r == (a == b),
{
    match (a, b) {
        (Some(x), Some(y)) => x == y,
        (None, None) => true,
        _ => false,
    }
}

/// A light may claim rooms when it is a spell's, and else once it has settled.
pub open spec fn claim_allowed(spell: bool, motion: Option<CarriedLightMotion>) -> bool {
    spell || (motion matches Some(m) && m.is_settled())
}

/// Decides whether a light may claim rooms this frame.
pub fn may_claim(spell: bool, motion: Option<CarriedLightMotion>) -> (r: bool)
    ensures
        r == claim_allowed(spell, motion),
{
    spell || match motion {
        Some(m) => m.settled(),
        None => false,
    }
}

/// What a light's room claim currently stands for: the room applied, the last room its anchor
/// named, and the lane it is on.
#[derive(Clone, Copy, Debug, PartialEq, Eq, Structural)]
pub struct ClaimedRoom {
    pub applied: Option<WmoRoom>,
    pub seen: Option<WmoRoom>,
    pub lane: bool,
}

/// The last room the anchor named: the one it names now, else the one on record.
pub open spec fn seen_room(anchor: InteriorAnchor, claimed: Option<ClaimedRoom>) -> Option<WmoRoom> {
    match anchor.room {
        Some(room) => Some(room),
        None => match claimed {
            Some(c) => c.seen,
            None => None,
        },
    }
}

/// The room the light claims: the last one seen, while the bearer has crossed at least half into
/// it.
pub open spec fn wanted_room(anchor: InteriorAnchor, claimed: Option<ClaimedRoom>) -> Option<WmoRoom> {
    if (Single { bits: LANE_INTERIOR_BITS }).at_most(anchor.lane) {
        seen_room(anchor, claimed)
    } else {
        None
    }
}

/// Reads the last room the anchor named.
pub fn last_seen(anchor: InteriorAnchor, claimed: Option<ClaimedRoom>) -> (r: Option<WmoRoom>)
    ensures
        r == seen_room(anchor, claimed),
{
    match anchor.room {
        Some(room) => Some(room),
        None => match claimed {
            Some(c) => c.seen,
            None => None,
        },
    }
}

/// Decides the room the light claims.
pub fn room_to_claim(anchor: InteriorAnchor, claimed: Option<ClaimedRoom>) -> (r: Option<WmoRoom>)
    ensures
        r == wanted_room(anchor, claimed),
{
    let half = Single { bits: LANE_INTERIOR_BITS };
    if half.is_at_most(anchor.lane) {
        last_seen(anchor, claimed)
    } else {
        None
    }
}

/// What a frame owes a light's claims.
#[derive(Clone, Copy, Debug, PartialEq, Eq, Structural)]
pub enum ClaimNeed {
    /// They still stand.
    Keep,
    /// They have to be rebuilt, these placements asked first.
    Build { prefer: Preferred },
    /// They no longer hold, and the light may claim none.
    Drop,
}

/// The building that the claims on record are of.
pub open spec fn former_instance(claims: Option<CarriedClaims>) -> Option<u64> {
    match claims {
        Some(c) => match c.set {
            Some(set) => Some(set.instance),
            None => None,
        },
        None => None,
    }
}

/// What a frame owes a light's claims.
pub open spec fn claim_need(
    claims: Option<CarriedClaims>,
    want: Option<WmoRoom>,
    drift_squared: Single,
    generation: u32,
    allowed: bool,
) -> ClaimNeed {
    if claims matches Some(c) && c.stands(drift_squared, generation, want) {
        ClaimNeed::Keep
    } else if allowed {
        ClaimNeed::Build {
            prefer: Preferred {
                first: match want {
                    Some(room) => Some(room.instance),
                    None => None,
                },
                second: former_instance(claims),
            },
        }
    } else {
        ClaimNeed::Drop
    }
}

/// Decides what a frame owes a light's claims.
pub fn decide_claims(
    claims: &Option<CarriedClaims>,
    want: Option<WmoRoom>,
    drift_squared: Single,
    generation: u32,
    allowed: bool,
) -> (r: ClaimNeed)
    ensures
        r == claim_need(*claims, want, drift_squared, generation, allowed),
{
    let stands = match claims {
        Some(c) => c.fresh(drift_squared, generation, want),
        None => false,
    };
    if stands {
        return ClaimNeed::Keep;
    }
    if !allowed {
        return ClaimNeed::Drop;
    }
    let first: Option<u64> = match want {
        Some(room) => Some(room.instance),
        None => None,
    };
    let second: Option<u64> = match claims {
        Some(c) => match &c.set {
            Some(set) => Some(set.instance),
            None => None,
        },
        None => None,
    };
    ClaimNeed::Build { prefer: Preferred { first, second } }
}

/// What is done to a component of the light.
#[derive(Clone, Copy, Debug, PartialEq, Eq, Structural)]
pub enum ComponentWrite {
    Leave,
    Insert,
    Remove,
}

/// What one pass writes on a light: its lane, its room, and the rooms it may light.
#[derive(Clone, Copy, Debug, PartialEq, Eq, Structural)]
pub struct ClaimWrites {
    pub lane: Option<bool>,
    pub room: ComponentWrite,
    pub lit_rooms: ComponentWrite,
}

/// The set that stands after the decision: the one just built, none where it was dropped, else
/// the one on record.
pub open spec fn standing_set(
    need: ClaimNeed,
    built: Option<ClaimSet>,
    claims: Option<CarriedClaims>,
) -> Option<ClaimSet> {
    match need {
        ClaimNeed::Keep => match claims {
            Some(c) => c.set,
            None => None,
        },
        ClaimNeed::Build { .. } => built,
        ClaimNeed::Drop => None,
    }
}

/// The light belongs on the interior lane: by its bearer's room, or by what it claims.
pub open spec fn on_interior_lane(
    want: Option<WmoRoom>,
    set: Option<ClaimSet>,
    deny: u16,
) -> bool {
    want is Some || (set matches Some(s) && s.any_interior && all_exterior_ok(s, deny))
}

/// What has to be done to a component that stood for `had` and is to stand for `next`.
pub open spec fn lit_rooms_write(had: Option<ClaimSet>, next: Option<ClaimSet>) -> ComponentWrite {
    match (had, next) {
        (None, None) => ComponentWrite::Leave,
        (Some(h), Some(n)) => if same_claims(n, h) {
            ComponentWrite::Leave
        } else {
            ComponentWrite::Insert
        },
        (None, Some(_)) => ComponentWrite::Insert,
        (Some(_), None) => ComponentWrite::Remove,
    }
}

/// What has to be done to the room component of a light that claimed as on record and claims
/// `want`.
pub open spec fn room_write(claimed: Option<ClaimedRoom>, want: Option<WmoRoom>) -> ComponentWrite {
    if claimed matches Some(c) && c.applied == want {
        ComponentWrite::Leave
    } else if want is Some {
        ComponentWrite::Insert
    } else {
        ComponentWrite::Remove
    }
}

/// The record of a light's room claim, and of its lit rooms, after a pass.
#[derive(Debug)]
pub struct ClaimOutcome {
    pub writes: ClaimWrites,
    pub claimed: ClaimedRoom,
    pub claims: Option<CarriedClaims>,
}

/// Settles one light's claims for a frame, `built` being what the rebuild found where one was
/// owed. Each component is written exactly where what it stands for changes; the records follow,
/// and the claims' own record only where they were decided anew.
pub fn claim_carried_light_rooms(
    anchor: InteriorAnchor,
    claimed: Option<ClaimedRoom>,
    claims: Option<CarriedClaims>,
    need: ClaimNeed,
    built: Option<ClaimSet>,
    at: Point,
    generation: u32,
    deny: u16,
) -> (r: ClaimOutcome)
    ensures
        ({
            let want = wanted_room(anchor, claimed);
            let next = standing_set(need, built, claims);
            let lane = on_interior_lane(want, next, deny);
            let had = match claims {
                Some(c) => c.set,
                None => None,
            };
            &&& r.claimed == (ClaimedRoom {
                applied: want,
                seen: seen_room(anchor, claimed),
                lane,
            })
            &&& r.writes.lane == if claimed matches Some(c) && c.lane == lane {
                None::<bool>
            } else {
                Some(lane)
            }
            &&& r.writes.room == room_write(claimed, want)
            &&& r.writes.lit_rooms == lit_rooms_write(had, next)
            &&& r.claims == if need is Keep {
                claims
            } else {
                Some(CarriedClaims { set: next, at, generation, room: want })
            }
        }),
{
    let seen = last_seen(anchor, claimed);
    let want = room_to_claim(anchor, claimed);
    let keep = match need {
        ClaimNeed::Keep => true,
        _ => false,
    };
    let decided: Option<ClaimSet> = match need {
        ClaimNeed::Build { .. } => built,
        _ => None,
    };
    let had: Option<&ClaimSet> = match &claims {
        Some(c) => match &c.set {
            Some(set) => Some(set),
            None => None,
        },
        None => None,
    };
    let next: Option<&ClaimSet> = if keep {
        had
    } else {
        match &decided {
            Some(set) => Some(set),
            None => None,
        }
    };
    let lit_rooms = match (had, next) {
        (None, None) => ComponentWrite::Leave,
        (Some(h), Some(n)) => if agree(n, h) {
            ComponentWrite::Leave
        } else {
            ComponentWrite::Insert
        },
        (None, Some(_)) => ComponentWrite::Insert,
        (Some(_), None) => ComponentWrite::Remove,
    };
    let by_claims = match next {
        Some(set) => lane_worthy(set, deny),
        None => false,
    };
    let lane = want.is_some() || by_claims;
    let lane_write: Option<bool> = match claimed {
        Some(c) => if c.lane == lane {
            None
        } else {
            Some(lane)
        },
        None => Some(lane),
    };
    let room_stays = match claimed {
        Some(c) => same_room(c.applied, want),
        None => false,
    };
    let room = if room_stays {
        ComponentWrite::Leave
    } else if want.is_some() {
        ComponentWrite::Insert
    } else {
        ComponentWrite::Remove
    };
    let writes = ClaimWrites { lane: lane_write, room, lit_rooms };
    let record = ClaimedRoom { applied: want, seen, lane };
    if keep {
        ClaimOutcome { writes, claimed: record, claims }
    } else {
        ClaimOutcome {
            writes,
            claimed: record,
            claims: Some(CarriedClaims { set: decided, at, generation, room: want }),
        }
    }
}

/// A light whose claims have just been settled and whose bearer and place do not change is left
/// alone from then on: nothing is owed to its claims.
pub proof fn settled_claims_stand(
    set: Option<ClaimSet>,
    at: Point,
    generation: u32,
    want: Option<WmoRoom>,
    drift_squared: Single,
    allowed: bool,
    limit: Single,
)
    requires
        limit == (Single { bits: CLAIM_DRIFT_SQUARED_BITS }),
        drift_squared.at_most(limit),
    ensures
        claim_need(
            Some(CarriedClaims { set, at, generation, room: want }),
            want,
            drift_squared,
            generation,
            allowed,
        ) == ClaimNeed::Keep,
{
}

/// A bearer whose anchor falls silent keeps its room while it has not yet crossed back out, and
/// loses it once it has.
pub proof fn a_room_is_held_across_the_ramp(
    anchor: InteriorAnchor,
    record: ClaimedRoom,
    half: Single,
)
    requires
        half == (Single { bits: LANE_INTERIOR_BITS }),
        anchor.room is None,
    ensures
        half.at_most(anchor.lane) ==> wanted_room(anchor, Some(record)) == record.seen,
        !half.at_most(anchor.lane) ==> wanted_room(anchor, Some(record)) is None,
        seen_room(anchor, Some(record)) == record.seen,
{
}

} // verus!
