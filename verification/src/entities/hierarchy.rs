//! Walking up from an entity through what it hangs under.
use std::collections::HashMap;
use std::collections::HashSet;
use vstd::prelude::*;

verus! {

broadcast use vstd::std_specs::hash::group_hash_axioms;

/// The entity `n` steps above `entity`, where there is one.
pub open spec fn above(parents: Map<u64, u64>, entity: u64, n: nat) -> Option<u64>
    decreases n,
{
    if n == 0 {
        Some(entity)
    } else {
        match above(parents, entity, (n - 1) as nat) {
            Some(e) if parents.contains_key(e) => Some(parents[e]),
            _ => None,
        }
    }
}

/// `ancestor` is `entity` or stands above it.
pub open spec fn stands_above(parents: Map<u64, u64>, entity: u64, ancestor: u64) -> bool {
    exists|n: nat| #[trigger] above(parents, entity, n) == Some(ancestor)
}

/// `height` falls with every step up.
pub open spec fn climbs(parents: Map<u64, u64>, height: spec_fn(u64) -> nat) -> bool {
    forall|e: u64| #[trigger] parents.contains_key(e) ==> height(parents[e]) < height(e)
}

/// No entity stands above itself: the parents form a forest.
pub open spec fn is_forest(parents: Map<u64, u64>) -> bool {
    exists|height: spec_fn(u64) -> nat| climbs(parents, height)
}

/// Names the units whose shadow a build holds: every part that brought a triangle, and everything
/// it hangs under.
pub fn mark_ready(built: &Vec<u64>, parents: &HashMap<u64, u64>) -> (r: HashSet<u64>)
    requires
        is_forest(parents@),
    ensures
        forall|e: u64| #[trigger]
            r@.contains(e) <==> exists|i: int|
                0 <= i < built@.len() && stands_above(parents@, #[trigger] built@[i], e),
{
    let ghost height = choose|height: spec_fn(u64) -> nat| climbs(parents@, height);
    let mut ready: HashSet<u64> = HashSet::new();
    let mut i: usize = 0;
    while i < built.len()
        invariant
            i <= built@.len(),
            climbs(parents@, height),
            forall|e: u64| #[trigger]
                ready@.contains(e) <==> exists|k: int|
                    0 <= k < i && stands_above(parents@, #[trigger] built@[k], e),
        decreases built@.len() - i,
    {
        let part: u64 = built[i];
        let ghost before = ready@;
        let mut at: u64 = part;
        let ghost mut n: nat = 0;
        let _new = ready.insert(part);
        assert(above(parents@, part, 0) == Some(part));
        assert forall|e: u64| #[trigger] ready@.contains(e) <==> before.contains(e) || exists|
            m: nat,
        |
            m <= n && #[trigger] above(parents@, part, m) == Some(e) by {
            if ready@.contains(e) && !before.contains(e) {
                assert(above(parents@, part, 0) == Some(e));
            }
        }
        while parents.contains_key(&at)
            invariant
                climbs(parents@, height),
                above(parents@, part, n) == Some(at),
                forall|e: u64| #[trigger]
                    ready@.contains(e) <==> before.contains(e) || exists|m: nat|
                        m <= n && #[trigger] above(parents@, part, m) == Some(e),
            decreases height(at),
        {
            let ghost held = ready@;
            let next: u64 = *parents.get(&at).unwrap();
            let _new = ready.insert(next);
            proof {
                assert(above(parents@, part, n + 1) == Some(next));
                assert forall|e: u64| #[trigger] ready@.contains(e) <==> before.contains(e)
                    || exists|m: nat|
                    m <= n + 1 && #[trigger] above(parents@, part, m) == Some(e) by {
                    if ready@.contains(e) {
                        if e == next {
                            assert(above(parents@, part, n + 1) == Some(e));
                        } else {
                            assert(held.contains(e));
                        }
                    }
                    if exists|m: nat| m <= n + 1 && #[trigger] above(parents@, part, m) == Some(
                        e,
                    ) {
                        let m = choose|m: nat|
                            m <= n + 1 && #[trigger] above(parents@, part, m) == Some(e);
                        if m <= n {
                            assert(held.contains(e));
                        } else {
                            assert(e == next);
                        }
                    }
                }
                n = n + 1;
            }
            at = next;
        }
        proof {
            lemma_chain_ends(parents@, part, n, at);
            assert forall|e: u64| #[trigger] ready@.contains(e) <==> exists|k: int|
                0 <= k < i + 1 && stands_above(parents@, #[trigger] built@[k], e) by {
                if ready@.contains(e) {
                    if before.contains(e) {
                        let k = choose|k: int|
                            0 <= k < i && stands_above(parents@, #[trigger] built@[k], e);
                        assert(0 <= k < i + 1 && stands_above(parents@, built@[k], e));
                    } else {
                        assert(stands_above(parents@, built@[i as int], e));
                    }
                }
                if exists|k: int|
                    0 <= k < i + 1 && stands_above(parents@, #[trigger] built@[k], e) {
                    let k = choose|k: int|
                        0 <= k < i + 1 && stands_above(parents@, #[trigger] built@[k], e);
                    if k < i {
                        assert(before.contains(e));
                    } else {
                        let m = choose|m: nat| #[trigger] above(parents@, part, m) == Some(e);
                        assert(m <= n);
                    }
                }
            }
        }
        i += 1;
    }
    ready
}

proof fn lemma_chain_ends(parents: Map<u64, u64>, entity: u64, n: nat, top: u64)
    requires
        above(parents, entity, n) == Some(top),
        !parents.contains_key(top),
    ensures
        forall|m: nat| m > n ==> #[trigger] above(parents, entity, m) is None,
{
    assert forall|m: nat| m > n implies #[trigger] above(parents, entity, m) is None by {
        lemma_above_end(parents, entity, n, m);
    }
}

proof fn lemma_above_end(parents: Map<u64, u64>, entity: u64, n: nat, m: nat)
    requires
        above(parents, entity, n) is Some,
        !parents.contains_key(above(parents, entity, n)->0),
        m > n,
    ensures
        above(parents, entity, m) is None,
    decreases m,
{
    if m > n + 1 {
        lemma_above_end(parents, entity, n, (m - 1) as nat);
    }
}

} // verus!
