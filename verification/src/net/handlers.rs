//! The handler table: which subsystem answers which kind of event, and the two halves of a drain.
//! The dispatch takes the kinds that nobody has claimed, in packet order; the table then takes the
//! claimed ones, in packet order. A broadcast kind reaches both.
use crate::net::events::SessionEventKind;
use vstd::prelude::*;

verus! {

/// One registration: the kind it answers and the number of its handler.
#[derive(Clone, Copy, Debug, PartialEq, Eq, Structural)]
pub struct Registration {
    pub kind: SessionEventKind,
    pub handler: u64,
}

/// The handlers of one kind, as the census lists them.
#[derive(Debug, PartialEq, Eq)]
pub struct CensusRow {
    pub kind: SessionEventKind,
    pub handlers: Vec<u64>,
}

/// The table, in the order in which the subsystems registered.
#[derive(Debug)]
pub struct NetHandlers {
    registered: Vec<Registration>,
}

impl View for NetHandlers {
    type V = Seq<Registration>;

    closed spec fn view(&self) -> Seq<Registration> {
        self.registered@
    }
}

/// The kinds that the dispatch answers and subsystems listen to as well: the end of a session.
pub open spec fn broadcast_kind(kind: SessionEventKind) -> bool {
    kind == SessionEventKind::Disconnected
}

/// Decides whether a kind reaches both halves.
pub fn is_broadcast(kind: SessionEventKind) -> (r: bool)
    ensures
        r == broadcast_kind(kind),
{
    kind == SessionEventKind::Disconnected
}

/// The table has a handler for `kind`.
pub open spec fn handled(table: Seq<Registration>, kind: SessionEventKind) -> bool {
    exists|i: int| 0 <= i < table.len() && (#[trigger] table[i]).kind == kind
}

/// The handlers of `kind`, in registration order.
pub open spec fn handlers_of(table: Seq<Registration>, kind: SessionEventKind) -> Seq<u64>
    decreases table.len(),
{
    if table.len() == 0 {
        seq![]
    } else {
        let before = handlers_of(table.drop_last(), kind);
        if table.last().kind == kind {
            before.push(table.last().handler)
        } else {
            before
        }
    }
}

/// One call of a handler: the packet it is for, by its place in the drain, and the handler.
#[derive(Clone, Copy, Debug, PartialEq, Eq, Structural)]
pub struct TableCall {
    pub packet: usize,
    pub handler: u64,
}

/// The two halves of a drain: the packets that the dispatch takes, and the calls the table makes
/// after it.
#[derive(Debug, PartialEq, Eq)]
pub struct Halves {
    pub to_match: Vec<usize>,
    pub to_table: Vec<usize>,
}

/// A packet of this kind goes through the dispatch: nobody claimed it, or everybody hears it.
pub open spec fn matched(table: Seq<Registration>, kind: SessionEventKind) -> bool {
    !handled(table, kind) || broadcast_kind(kind)
}

/// The places of the packets that go through the dispatch, in packet order.
pub open spec fn match_half(table: Seq<Registration>, kinds: Seq<SessionEventKind>) -> Seq<usize>
    decreases kinds.len(),
{
    if kinds.len() == 0 {
        seq![]
    } else {
        let before = match_half(table, kinds.drop_last());
        if matched(table, kinds.last()) {
            before.push((kinds.len() - 1) as usize)
        } else {
            before
        }
    }
}

/// The places of the packets that go through the table, in packet order.
pub open spec fn table_half(table: Seq<Registration>, kinds: Seq<SessionEventKind>) -> Seq<usize>
    decreases kinds.len(),
{
    if kinds.len() == 0 {
        seq![]
    } else {
        let before = table_half(table, kinds.drop_last());
        if handled(table, kinds.last()) {
            before.push((kinds.len() - 1) as usize)
        } else {
            before
        }
    }
}

/// The calls one packet makes: every handler of its kind, in registration order.
pub open spec fn packet_calls(
    table: Seq<Registration>,
    kind: SessionEventKind,
    packet: usize,
) -> Seq<TableCall> {
    handlers_of(table, kind).map_values(|handler: u64| TableCall { packet, handler })
}

/// The calls the table makes in a drain: packet by packet, each to its handlers.
pub open spec fn table_calls(
    table: Seq<Registration>,
    kinds: Seq<SessionEventKind>,
) -> Seq<TableCall>
    decreases kinds.len(),
{
    if kinds.len() == 0 {
        seq![]
    } else {
        table_calls(table, kinds.drop_last()) + packet_calls(
            table,
            kinds.last(),
            (kinds.len() - 1) as usize,
        )
    }
}

/// One row per kind that has a handler, its handlers in registration order.
pub open spec fn is_census(table: Seq<Registration>, rows: Seq<CensusRow>) -> bool {
    &&& forall|i: int|
        0 <= i < rows.len() ==> handled(table, (#[trigger] rows[i]).kind) && rows[i].handlers@
            == handlers_of(table, rows[i].kind)
    &&& forall|i: int, j: int|
        0 <= i < j < rows.len() ==> (#[trigger] rows[i]).kind != (#[trigger] rows[j]).kind
    &&& forall|k: int|
        0 <= k < table.len() ==> exists|i: int|
            0 <= i < rows.len() && (#[trigger] rows[i]).kind == (#[trigger] table[k]).kind
}

impl NetHandlers {
    /// An empty table.
    pub fn new() -> (r: NetHandlers)
        ensures
            r@ == Seq::<Registration>::empty(),
    {
        NetHandlers { registered: Vec::new() }
    }

    /// Registers a handler for a kind, behind those registered before.
    pub fn push(&mut self, kind: SessionEventKind, handler: u64)
        ensures
            final(self)@ == old(self)@.push(Registration { kind, handler }),
    {
        self.registered.push(Registration { kind, handler });
    }

    /// Is there at least one handler for this kind?
    pub fn handles(&self, kind: SessionEventKind) -> (r: bool)
        ensures
            r == handled(self@, kind),
    {
        let mut i: usize = 0;
        while i < self.registered.len()
            invariant
                i <= self.registered@.len(),
                forall|k: int| 0 <= k < i ==> (#[trigger] self.registered@[k]).kind != kind,
            decreases self.registered@.len() - i,
        {
            if self.registered[i].kind == kind {
                assert(self@[i as int].kind == kind);
                return true;
            }
            i += 1;
        }
        false
    }

    /// The handlers that an event of this kind runs, in registration order.
    pub fn run(&self, kind: SessionEventKind) -> (r: Vec<u64>)
        ensures
            r@ == handlers_of(self@, kind),
    {
        let mut handlers: Vec<u64> = Vec::new();
        let mut i: usize = 0;
        assert(self@.take(0) =~= seq![]);
        while i < self.registered.len()
            invariant
                i <= self.registered@.len(),
                handlers@ == handlers_of(self@.take(i as int), kind),
                self@ == self.registered@,
            decreases self.registered@.len() - i,
        {
            let entry: Registration = self.registered[i];
            proof {
                assert(self@.take(i as int + 1).drop_last() =~= self@.take(i as int));
                assert(self@.take(i as int + 1).last() == entry);
            }
            if entry.kind == kind {
                handlers.push(entry.handler);
            }
            i += 1;
        }
        assert(self@.take(i as int) =~= self@);
        handlers
    }

    /// Every kind with a handler, with its handlers in registration order.
    pub fn census(&self) -> (r: Vec<CensusRow>)
        ensures
            is_census(self@, r@),
    {
        let mut rows: Vec<CensusRow> = Vec::new();
        let mut i: usize = 0;
        while i < self.registered.len()
            invariant
                i <= self.registered@.len(),
                self@ == self.registered@,
                forall|k: int|
                    0 <= k < rows@.len() ==> handled(self@, (#[trigger] rows@[k]).kind)
                        && rows@[k].handlers@ == handlers_of(self@, rows@[k].kind),
                forall|k: int, j: int|
                    0 <= k < j < rows@.len() ==> (#[trigger] rows@[k]).kind != (
                    #[trigger] rows@[j]).kind,
                forall|k: int|
                    0 <= k < i ==> exists|j: int|
                        0 <= j < rows@.len() && (#[trigger] rows@[j]).kind == (
                        #[trigger] self@[k]).kind,
            decreases self.registered@.len() - i,
        {
            let kind = self.registered[i].kind;
            let mut known = false;
            let mut n: usize = 0;
            while n < rows.len()
                invariant
                    n <= rows@.len(),
                    known <==> exists|j: int| 0 <= j < n && (#[trigger] rows@[j]).kind == kind,
                decreases rows@.len() - n,
            {
                if rows[n].kind == kind {
                    known = true;
                }
                n += 1;
            }
            if !known {
                assert(self@[i as int].kind == kind);
                let ghost before = rows@;
                rows.push(CensusRow { kind, handlers: self.run(kind) });
                assert forall|k: int| 0 <= k < i + 1 implies exists|j: int|
                    0 <= j < rows@.len() && (#[trigger] rows@[j]).kind == (
                    #[trigger] self@[k]).kind by {
                    if k < i {
                        let j = choose|j: int|
                            0 <= j < before.len() && (#[trigger] before[j]).kind == self@[k].kind;
                        assert(rows@[j] == before[j]);
                    } else {
                        assert(rows@[before.len() as int].kind == kind);
                    }
                }
            }
            i += 1;
        }
        rows
    }

    /// Splits one drain, given by the kinds of its packets, into its two halves.
    pub fn dispatch(&self, kinds: &Vec<SessionEventKind>) -> (r: Halves)
        ensures
            r.to_match@ == match_half(self@, kinds@),
            r.to_table@ == table_half(self@, kinds@),
    {
        let mut to_match: Vec<usize> = Vec::new();
        let mut to_table: Vec<usize> = Vec::new();
        let mut i: usize = 0;
        assert(kinds@.take(0) =~= seq![]);
        while i < kinds.len()
            invariant
                i <= kinds@.len(),
                to_match@ == match_half(self@, kinds@.take(i as int)),
                to_table@ == table_half(self@, kinds@.take(i as int)),
            decreases kinds@.len() - i,
        {
            let kind = kinds[i];
            proof {
                assert(kinds@.take(i as int + 1).drop_last() =~= kinds@.take(i as int));
                assert(kinds@.take(i as int + 1).last() == kind);
            }
            if !self.handles(kind) {
                to_match.push(i);
            } else if is_broadcast(kind) {
                to_table.push(i);
                to_match.push(i);
            } else {
                to_table.push(i);
            }
            i += 1;
        }
        assert(kinds@.take(i as int) =~= kinds@);
        Halves { to_match, to_table }
    }

    /// The calls that the table half of a drain makes: its packets in packet order, each to every
    /// handler of its kind in registration order.
    pub fn run_all(&self, kinds: &Vec<SessionEventKind>) -> (r: Vec<TableCall>)
        ensures
            r@ == table_calls(self@, kinds@),
    {
        let mut calls: Vec<TableCall> = Vec::new();
        let mut i: usize = 0;
        assert(kinds@.take(0) =~= seq![]);
        while i < kinds.len()
            invariant
                i <= kinds@.len(),
                calls@ == table_calls(self@, kinds@.take(i as int)),
            decreases kinds@.len() - i,
        {
            let ghost before = calls@;
            let handlers = self.run(kinds[i]);
            let mut n: usize = 0;
            while n < handlers.len()
                invariant
                    n <= handlers@.len(),
                    calls@ == before + handlers@.take(n as int).map_values(
                        |handler: u64| TableCall { packet: i, handler },
                    ),
                decreases handlers@.len() - n,
            {
                calls.push(TableCall { packet: i, handler: handlers[n] });
                assert(calls@ =~= before + handlers@.take(n as int + 1).map_values(
                    |handler: u64| TableCall { packet: i, handler },
                ));
                n += 1;
            }
            proof {
                assert(handlers@.take(n as int) =~= handlers@);
                assert(kinds@.take(i as int + 1).drop_last() =~= kinds@.take(i as int));
                assert(kinds@.take(i as int + 1).last() == kinds@[i as int]);
            }
            i += 1;
        }
        assert(kinds@.take(i as int) =~= kinds@);
        calls
    }
}

/// `places` holds the places below `n` that `keep` picks, in ascending order.
spec fn picks(places: Seq<usize>, n: int, keep: spec_fn(int) -> bool) -> bool {
    &&& forall|k: int| 0 <= k < places.len() ==> 0 <= #[trigger] places[k] < n && keep(
        places[k] as int,
    )
    &&& forall|k: int, j: int| 0 <= k < j < places.len() ==> #[trigger] places[k] < #[trigger] places[j]
    &&& forall|i: int| 0 <= i < n && keep(i) ==> #[trigger] places.contains(i as usize)
}

proof fn lemma_halves(table: Seq<Registration>, kinds: Seq<SessionEventKind>)
    requires
        kinds.len() <= usize::MAX,
    ensures
        picks(match_half(table, kinds), kinds.len() as int, |i: int| matched(table, kinds[i])),
        picks(table_half(table, kinds), kinds.len() as int, |i: int| handled(table, kinds[i])),
    decreases kinds.len(),
{
    if kinds.len() > 0 {
        let n = kinds.len() - 1;
        let rest = kinds.drop_last();
        lemma_halves(table, rest);
        let m0 = match_half(table, rest);
        let t0 = table_half(table, rest);
        let m1 = match_half(table, kinds);
        let t1 = table_half(table, kinds);
        assert forall|i: int| 0 <= i < kinds.len() && matched(
            table,
            kinds[i],
        ) implies #[trigger] m1.contains(i as usize) by {
            if i < n {
                assert(rest[i] == kinds[i]);
                assert(m0.contains(i as usize));
                let k = choose|k: int| 0 <= k < m0.len() && m0[k] == i as usize;
                assert(m1[k] == i as usize);
            } else {
                assert(m1[m1.len() - 1] == n as usize);
            }
        }
        assert forall|i: int| 0 <= i < kinds.len() && handled(
            table,
            kinds[i],
        ) implies #[trigger] t1.contains(i as usize) by {
            if i < n {
                assert(rest[i] == kinds[i]);
                assert(t0.contains(i as usize));
                let k = choose|k: int| 0 <= k < t0.len() && t0[k] == i as usize;
                assert(t1[k] == i as usize);
            } else {
                assert(t1[t1.len() - 1] == n as usize);
            }
        }
        assert forall|k: int| 0 <= k < m0.len() implies kinds[#[trigger] m0[k] as int]
            == rest[m0[k] as int] by {}
        assert forall|k: int| 0 <= k < t0.len() implies kinds[#[trigger] t0[k] as int]
            == rest[t0[k] as int] by {}
    }
}

/// Both halves keep packet order: a packet that came later stands later.
pub proof fn both_halves_keep_packet_order(
    table: Seq<Registration>,
    kinds: Seq<SessionEventKind>,
    j: int,
    k: int,
)
    requires
        kinds.len() <= usize::MAX,
        0 <= j < k,
    ensures
        k < match_half(table, kinds).len() ==> match_half(table, kinds)[j] < match_half(
            table,
            kinds,
        )[k],
        k < table_half(table, kinds).len() ==> table_half(table, kinds)[j] < table_half(
            table,
            kinds,
        )[k],
{
    lemma_halves(table, kinds);
}

/// Every packet of a drain reaches exactly one half, except that a broadcast kind with a handler
/// reaches both.
pub proof fn every_packet_has_one_owner(
    table: Seq<Registration>,
    kinds: Seq<SessionEventKind>,
    i: usize,
)
    requires
        kinds.len() <= usize::MAX,
        i < kinds.len(),
    ensures
        match_half(table, kinds).contains(i) || table_half(table, kinds).contains(i),
        match_half(table, kinds).contains(i) && table_half(table, kinds).contains(i) <==> handled(
            table,
            kinds[i as int],
        ) && broadcast_kind(kinds[i as int]),
{
    lemma_halves(table, kinds);
    let m = match_half(table, kinds);
    let t = table_half(table, kinds);
    assert(matched(table, kinds[i as int]) ==> m.contains((i as int) as usize));
    assert(handled(table, kinds[i as int]) ==> t.contains((i as int) as usize));
}

/// With no table at all everything goes to the dispatch.
pub proof fn an_empty_table_claims_nothing(kinds: Seq<SessionEventKind>)
    requires
        kinds.len() <= usize::MAX,
    ensures
        table_half(seq![], kinds) == Seq::<usize>::empty(),
        table_calls(seq![], kinds) == Seq::<TableCall>::empty(),
        match_half(seq![], kinds) == Seq::new(kinds.len(), |i: int| i as usize),
    decreases kinds.len(),
{
    if kinds.len() > 0 {
        an_empty_table_claims_nothing(kinds.drop_last());
        assert(packet_calls(seq![], kinds.last(), (kinds.len() - 1) as usize) =~= seq![]);
    }
    assert(match_half(seq![], kinds) =~= Seq::new(kinds.len(), |i: int| i as usize));
}

/// A kind has a handler exactly when some handler runs for it.
pub proof fn handled_means_some_handler_runs(table: Seq<Registration>, kind: SessionEventKind)
    ensures
        handled(table, kind) <==> handlers_of(table, kind).len() > 0,
    decreases table.len(),
{
    if table.len() > 0 {
        handled_means_some_handler_runs(table.drop_last(), kind);
        let rest = table.drop_last();
        if handled(rest, kind) {
            let i = choose|i: int| 0 <= i < rest.len() && (#[trigger] rest[i]).kind == kind;
            assert(table[i].kind == kind);
        }
        if handled(table, kind) && table.last().kind != kind {
            let i = choose|i: int| 0 <= i < table.len() && (#[trigger] table[i]).kind == kind;
            assert(rest[i].kind == kind);
        }
        if table.last().kind == kind {
            assert(table[table.len() - 1].kind == kind);
        }
    }
}

} // verus!
