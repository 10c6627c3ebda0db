//! What holds of every handler table and of every drain that goes through it.
use crate::net::events::SessionEventKind;
use crate::net::handlers::{
    both_halves_keep_packet_order, handled, handled_means_some_handler_runs, is_broadcast,
    match_half, packet_calls, table_half, CensusRow, Halves, NetHandlers, Registration, TableCall,
};
use vstd::prelude::*;

verus! {

/// A new handler runs behind those of its kind, and for no other kind.
pub proof fn a_new_handler_runs_last(
    table: &mut NetHandlers,
    kind: SessionEventKind,
    handler: u64,
    pushed: (),
    asked: SessionEventKind,
    before: Vec<u64>,
    after: Vec<u64>,
)
    requires
        call_ensures(NetHandlers::push, (table, kind, handler), pushed),
        call_ensures(NetHandlers::run, (&*old(table), asked), before),
        call_ensures(NetHandlers::run, (&*final(table), asked), after),
    ensures
        asked == kind ==> after@ == before@.push(handler),
        asked != kind ==> after@ == before@,
{
    let longer = old(table)@.push(Registration { kind, handler });
    assert(longer.drop_last() =~= old(table)@);
}

/// A fresh table runs nothing and claims nothing.
pub proof fn a_fresh_table_runs_nothing(table: NetHandlers, kind: SessionEventKind, r: Vec<u64>, claimed: bool)
    requires
        call_ensures(NetHandlers::new, (), table),
        call_ensures(NetHandlers::run, (&table, kind), r),
        call_ensures(NetHandlers::handles, (&table, kind), claimed),
    ensures
        r@.len() == 0,
        !claimed,
{
}

/// A kind is claimed exactly where some handler runs for it.
pub proof fn a_claimed_kind_has_a_handler_that_runs(table: &NetHandlers, kind: SessionEventKind, r: Vec<u64>, claimed: bool)
    requires
        call_ensures(NetHandlers::run, (table, kind), r),
        call_ensures(NetHandlers::handles, (table, kind), claimed),
    ensures
        claimed <==> r@.len() > 0,
{
    handled_means_some_handler_runs(table@, kind);
}

/// The end of a session is the one thing that everybody hears.
pub proof fn only_the_end_of_a_session_is_heard_by_all(kind: SessionEventKind, r: bool)
    requires
        call_ensures(is_broadcast, (kind,), r),
    ensures
        r <==> kind == SessionEventKind::Disconnected,
{
}

proof fn lemma_members(table: Seq<Registration>, kinds: Seq<SessionEventKind>, i: int)
    requires
        kinds.len() <= usize::MAX,
        0 <= i < kinds.len(),
    ensures
        match_half(table, kinds).contains(i as usize) <==> !handled(table, kinds[i]) || kinds[i]
            == SessionEventKind::Disconnected,
        table_half(table, kinds).contains(i as usize) <==> handled(table, kinds[i]),
    decreases kinds.len(),
{
    let rest = kinds.drop_last();
    let n = kinds.len() - 1;
    let m0 = match_half(table, rest);
    let t0 = table_half(table, rest);
    let m1 = match_half(table, kinds);
    let t1 = table_half(table, kinds);
    lemma_places(table, rest);
    if i < n {
        lemma_members(table, rest, i);
        assert(rest[i] == kinds[i]);
        if m0.contains(i as usize) {
            let k = choose|k: int| 0 <= k < m0.len() && m0[k] == i as usize;
            assert(m1[k] == i as usize);
        }
        if t0.contains(i as usize) {
            let k = choose|k: int| 0 <= k < t0.len() && t0[k] == i as usize;
            assert(t1[k] == i as usize);
        }
        if m1.contains(i as usize) {
            let k = choose|k: int| 0 <= k < m1.len() && m1[k] == i as usize;
            assert(k < m0.len());
            assert(m0[k] == i as usize);
        }
        if t1.contains(i as usize) {
            let k = choose|k: int| 0 <= k < t1.len() && t1[k] == i as usize;
            assert(k < t0.len());
            assert(t0[k] == i as usize);
        }
    } else {
        if m1.len() > m0.len() {
            assert(m1[m0.len() as int] == i as usize);
        }
        if t1.len() > t0.len() {
            assert(t1[t0.len() as int] == i as usize);
        }
    }
}

proof fn lemma_places(table: Seq<Registration>, kinds: Seq<SessionEventKind>)
    requires
        kinds.len() <= usize::MAX,
    ensures
        forall|k: int| 0 <= k < match_half(table, kinds).len() ==> #[trigger] match_half(table, kinds)[k] < kinds.len(),
        forall|k: int| 0 <= k < table_half(table, kinds).len() ==> #[trigger] table_half(table, kinds)[k] < kinds.len(),
    decreases kinds.len(),
{
    if kinds.len() > 0 {
        let rest = kinds.drop_last();
        lemma_places(table, rest);
        let m0 = match_half(table, rest);
        let t0 = table_half(table, rest);
        assert forall|k: int| 0 <= k < match_half(table, kinds).len() implies #[trigger] match_half(table, kinds)[k]
            < kinds.len() by {
            if k < m0.len() {
                assert(match_half(table, kinds)[k] == m0[k]);
            }
        }
        assert forall|k: int| 0 <= k < table_half(table, kinds).len() implies #[trigger] table_half(table, kinds)[k]
            < kinds.len() by {
            if k < t0.len() {
                assert(table_half(table, kinds)[k] == t0[k]);
            }
        }
    }
}

/// A packet goes to the dispatch where nobody has claimed its kind or its session has ended, and
/// to the table where somebody has; both keep the order in which the packets came.
pub proof fn a_packet_goes_to_those_who_claimed_it(
    table: &NetHandlers,
    kinds: &Vec<SessionEventKind>,
    r: Halves,
    i: int,
    claimed: bool,
    j: int,
    k: int,
)
    requires
        call_ensures(NetHandlers::dispatch, (table, kinds), r),
        0 <= i < kinds@.len(),
        call_ensures(NetHandlers::handles, (table, kinds@[i]), claimed),
        0 <= j < k,
    ensures
        r.to_table@.contains(i as usize) <==> claimed,
        r.to_match@.contains(i as usize) <==> !claimed || kinds@[i] == SessionEventKind::Disconnected,
        k < r.to_match@.len() ==> r.to_match@[j] < r.to_match@[k],
        k < r.to_table@.len() ==> r.to_table@[j] < r.to_table@[k],
{
    assert(kinds.len() == kinds@.len());
    lemma_members(table@, kinds@, i);
    both_halves_keep_packet_order(table@, kinds@, j, k);
}

/// A later packet's handlers are called after all that an earlier drain calls, each with the
/// packet's own place and in the order in which they run.
pub proof fn a_later_packet_is_handled_later(
    table: &NetHandlers,
    kinds: &Vec<SessionEventKind>,
    longer: &Vec<SessionEventKind>,
    kind: SessionEventKind,
    before: Vec<TableCall>,
    after: Vec<TableCall>,
    handlers: Vec<u64>,
    n: int,
)
    requires
        longer@ == kinds@.push(kind),
        call_ensures(NetHandlers::run_all, (table, kinds), before),
        call_ensures(NetHandlers::run_all, (table, longer), after),
        call_ensures(NetHandlers::run, (table, kind), handlers),
        0 <= n < handlers@.len(),
    ensures
        after@.len() == before@.len() + handlers@.len(),
        after@.take(before@.len() as int) == before@,
        after@[before@.len() + n].handler == handlers@[n],
        after@[before@.len() + n].packet == kinds@.len(),
{
    assert(longer.len() == longer@.len());
    assert(longer@.drop_last() =~= kinds@);
    let more = packet_calls(table@, kind, kinds@.len() as usize);
    assert(more.len() == handlers@.len());
    assert(after@ == before@ + more);
    assert(after@.take(before@.len() as int) =~= before@);
    assert(after@[before@.len() + n] == more[n]);
}

/// A drain without packets calls nobody.
pub proof fn an_empty_drain_calls_nobody(table: &NetHandlers, kinds: &Vec<SessionEventKind>, r: Vec<TableCall>)
    requires
        call_ensures(NetHandlers::run_all, (table, kinds), r),
        kinds@.len() == 0,
    ensures
        r@.len() == 0,
{
}

/// The census lists every claimed kind once, with the handlers that run for it.
pub proof fn the_census_lists_what_runs(
    table: &NetHandlers,
    rows: Vec<CensusRow>,
    kind: SessionEventKind,
    handlers: Vec<u64>,
    i: int,
    j: int,
)
    requires
        call_ensures(NetHandlers::census, (table,), rows),
        call_ensures(NetHandlers::run, (table, kind), handlers),
    ensures
        0 <= i < rows@.len() && rows@[i].kind == kind ==> rows@[i].handlers@ == handlers@ && handlers@.len() > 0,
        handlers@.len() > 0 ==> exists|k: int| 0 <= k < rows@.len() && (#[trigger] rows@[k]).kind == kind,
        0 <= i < j < rows@.len() ==> rows@[i].kind != rows@[j].kind,
{
    handled_means_some_handler_runs(table@, kind);
    if handlers@.len() > 0 {
        let k = choose|k: int| 0 <= k < table@.len() && (#[trigger] table@[k]).kind == kind;
        assert(table@[k].kind == kind);
        let at = choose|at: int| 0 <= at < rows@.len() && (#[trigger] rows@[at]).kind == table@[k].kind;
        assert(rows@[at].kind == kind);
    }
}

} // verus!
