//! The ceiling on spell lights: which ones go when there are too many.
use crate::single::Single;
use vstd::prelude::*;

verus! {

/// How many spell lights may be alive at once, across every lane.
pub const SPELL_LIGHTS_MAX: usize = 24;

/// A live spell light as the ceiling sees it.
#[derive(Clone, Copy, Debug, PartialEq, Eq, Structural)]
pub struct LiveLight {
    pub entity: u64,
    pub area: bool,
    pub age: Single,
}

/// The light at `i` goes before the one at `j`: lights over an area go last, older lights go
/// before newer ones, and among equals the one listed first.
pub open spec fn goes_first(lights: Seq<LiveLight>, i: int, j: int) -> bool {
    let a = lights[i];
    let b = lights[j];
    if a.area != b.area {
        b.area
    } else if a.age.total_rank() != b.age.total_rank() {
        a.age.total_rank() > b.age.total_rank()
    } else {
        i < j
    }
}

/// How many lights are over the ceiling.
pub open spec fn surplus(count: int) -> int {
    if count > SPELL_LIGHTS_MAX {
        count - SPELL_LIGHTS_MAX
    } else {
        0
    }
}

/// The light at `j` stays behind all those that go.
pub open spec fn outlasts(lights: Seq<LiveLight>, evicted: Seq<usize>, j: int) -> bool {
    forall|k: int| 0 <= k < evicted.len() ==> goes_first(lights, #[trigger] evicted[k] as int, j)
}

/// `places` are places in `lights`, in the order in which they go.
pub open spec fn in_order(lights: Seq<LiveLight>, places: Seq<usize>) -> bool {
    &&& forall|k: int| 0 <= k < places.len() ==> #[trigger] places[k] < lights.len()
    &&& forall|k: int, m: int|
        0 <= k < m < places.len() ==> goes_first(
            lights,
            #[trigger] places[k] as int,
            #[trigger] places[m] as int,
        )
}

/// `evicted` are the places in `lights` of those that go, in the order in which they go.
pub open spec fn evicts(lights: Seq<LiveLight>, evicted: Seq<usize>) -> bool {
    &&& evicted.len() == surplus(lights.len() as int)
    &&& in_order(lights, evicted)
    &&& forall|j: int|
        0 <= j < lights.len() && !evicted.contains(j as usize) ==> #[trigger] outlasts(
            lights,
            evicted,
            j,
        )
}

fn precedes(lights: &Vec<LiveLight>, i: usize, j: usize) -> (r: bool)
    requires
        i < lights@.len(),
        j < lights@.len(),
    ensures
        r == goes_first(lights@, i as int, j as int),
{
    let a = lights[i];
    let b = lights[j];
    if a.area != b.area {
        b.area
    } else if a.age.sorts_after(b.age) {
        true
    } else if b.age.sorts_after(a.age) {
        false
    } else {
        i < j
    }
}

/// Lists the places of all the lights in the order in which they go.
fn eviction_order(lights: &Vec<LiveLight>) -> (r: Vec<usize>)
    ensures
        r@.len() == lights@.len(),
        in_order(lights@, r@),
        forall|j: int| 0 <= j < lights@.len() ==> #[trigger] r@.contains(j as usize),
{
    let mut order: Vec<usize> = Vec::new();
    let mut i: usize = 0;
    while i < lights.len()
        invariant
            i <= lights@.len(),
            order@.len() == i,
            in_order(lights@, order@),
            forall|k: int| 0 <= k < i ==> #[trigger] order@[k] < i,
            forall|j: int| 0 <= j < i ==> #[trigger] order@.contains(j as usize),
        decreases lights@.len() - i,
    {
        let mut p: usize = 0;
        while p < order.len() && precedes(lights, order[p], i)
            invariant
                i < lights@.len(),
                p <= order@.len(),
                forall|k: int| 0 <= k < order@.len() ==> #[trigger] order@[k] < lights@.len(),
                forall|k: int|
                    0 <= k < p ==> goes_first(lights@, #[trigger] order@[k] as int, i as int),
            decreases order@.len() - p,
        {
            p += 1;
        }
        let ghost before = order@;
        order.insert(p, i);
        proof {
            assert(order@ =~= before.insert(p as int, i));
            assert forall|k: int, m: int| 0 <= k < m < order@.len() implies goes_first(
                lights@,
                #[trigger] order@[k] as int,
                #[trigger] order@[m] as int,
            ) by {
                if m < p {
                    assert(order@[k] == before[k] && order@[m] == before[m]);
                } else if m == p {
                    assert(order@[k] == before[k]);
                } else if k < p {
                    assert(order@[k] == before[k] && order@[m] == before[m - 1]);
                } else if k > p {
                    assert(order@[k] == before[k - 1] && order@[m] == before[m - 1]);
                } else {
                    assert(order@[m] == before[m - 1]);
                    assert(before[p as int] < i);
                    assert(goes_first(lights@, i as int, before[p as int] as int));
                    if m - 1 > p {
                        assert(goes_first(lights@, before[p as int] as int, before[m - 1] as int));
                    }
                }
            }
            assert forall|j: int| 0 <= j < i + 1 implies #[trigger] order@.contains(
                j as usize,
            ) by {
                if j < i {
                    assert(before.contains(j as usize));
                    let k = choose|k: int| 0 <= k < before.len() && before[k] == j as usize;
                    if k < p {
                        assert(order@[k] == j as usize);
                    } else {
                        assert(order@[k + 1] == j as usize);
                    }
                } else {
                    assert(order@[p as int] == i);
                }
            }
        }
        i += 1;
    }
    order
}

/// Picks the spell lights that go when more are alive than the ceiling allows, by their places.
pub fn budget_spell_lights(lights: &Vec<LiveLight>) -> (r: Vec<usize>)
    ensures
        evicts(lights@, r@),
{
    let mut evicted: Vec<usize> = Vec::new();
    let live: usize = lights.len();
    if live <= SPELL_LIGHTS_MAX {
        return evicted;
    }
    let order = eviction_order(lights);
    let over: usize = live - SPELL_LIGHTS_MAX;
    let mut k: usize = 0;
    while k < over
        invariant
            k <= over,
            over == lights@.len() - SPELL_LIGHTS_MAX,
            order@.len() == lights@.len(),
            evicted@ == order@.take(k as int),
        decreases over - k,
    {
        evicted.push(order[k]);
        assert(evicted@ =~= order@.take(k as int + 1));
        k += 1;
    }
    proof {
        assert forall|j: int|
            0 <= j < lights@.len() && !evicted@.contains(j as usize) implies #[trigger] outlasts(
            lights@,
            evicted@,
            j,
        ) by {
            assert(order@.contains(j as usize));
            let m = choose|m: int| 0 <= m < order@.len() && order@[m] == j as usize;
            if m < over {
                assert(evicted@[m] == j as usize);
            }
            assert forall|n: int| 0 <= n < evicted@.len() implies goes_first(
                lights@,
                #[trigger] evicted@[n] as int,
                j,
            ) by {
                assert(evicted@[n] == order@[n]);
                assert(goes_first(lights@, order@[n] as int, order@[m] as int));
            }
        }
    }
    evicted
}

/// After an eviction no more lights stand than the ceiling allows, and none goes below it.
pub proof fn the_ceiling_holds(lights: Seq<LiveLight>, evicted: Seq<usize>)
    requires
        evicts(lights, evicted),
    ensures
        lights.len() - evicted.len() <= SPELL_LIGHTS_MAX,
        lights.len() <= SPELL_LIGHTS_MAX ==> evicted.len() == 0,
{
}

/// A light over an area goes only when every light that is not has gone too.
pub proof fn area_lights_go_last(
    lights: Seq<LiveLight>,
    evicted: Seq<usize>,
    k: int,
    j: int,
)
    requires
        evicts(lights, evicted),
        0 <= k < evicted.len(),
        lights[evicted[k] as int].area,
        0 <= j < lights.len(),
        lights.len() <= usize::MAX,
        !lights[j].area,
    ensures
        evicted.contains(j as usize),
{
    if !evicted.contains(j as usize) {
        assert(outlasts(lights, evicted, j));
        assert(goes_first(lights, evicted[k] as int, j));
    }
}

/// Among lights of one class an older one never outlasts a newer one that goes.
pub proof fn the_oldest_go_first(lights: Seq<LiveLight>, evicted: Seq<usize>, k: int, j: int)
    requires
        evicts(lights, evicted),
        0 <= k < evicted.len(),
        0 <= j < lights.len(),
        lights.len() <= usize::MAX,
        lights[j].area == lights[evicted[k] as int].area,
        lights[j].age.total_rank() > lights[evicted[k] as int].age.total_rank(),
    ensures
        evicted.contains(j as usize),
{
    if !evicted.contains(j as usize) {
        assert(outlasts(lights, evicted, j));
        assert(goes_first(lights, evicted[k] as int, j));
    }
}

} // verus!
