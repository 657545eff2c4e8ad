use vstd::prelude::*;

use crate::protocol::codec::{RxFrame, TxFrame};

verus! {

/// The id under which ports attached from outside publish; in-process
/// clients count up from the next value.
pub const EXTERNAL_CLIENT_ID: u32 = 0;

/// What a sent frame looks like on the receive side.
pub open spec fn spec_rx_of_tx(f: TxFrame) -> RxFrame {
    match f {
        TxFrame::Long(inner) => RxFrame::Long(inner),
        TxFrame::Short(inner) => RxFrame::Short(inner),
    }
}

/// What a client with the given id is delivered from a bus history: every
/// frame in the one shared order, except those the client itself sent.
pub open spec fn delivered(log: Seq<(u32, RxFrame)>, id: u32) -> Seq<RxFrame>
    decreases log.len(),
{
    if log.len() == 0 {
        Seq::empty()
    } else if log[0].0 != id {
        seq![log[0].1] + delivered(log.skip(1), id)
    } else {
        delivered(log.skip(1), id)
    }
}

/// Publishing one more entry extends what every other client is delivered
/// by exactly that frame, and leaves the sender's own deliveries alone.
proof fn lemma_delivered_push(log: Seq<(u32, RxFrame)>, id: u32, e: (u32, RxFrame))
    ensures
        delivered(log.push(e), id) == if e.0 != id {
            delivered(log, id).push(e.1)
        } else {
            delivered(log, id)
        },
    decreases log.len(),
{
    if log.len() == 0 {
        assert(log.push(e)[0] == e);
        assert(log.push(e).skip(1) =~= log);
        assert(delivered(log, id) == Seq::<RxFrame>::empty());
        if e.0 != id {
            assert(delivered(log.push(e), id) == seq![e.1] + delivered(log, id));
            assert(seq![e.1] + Seq::<RxFrame>::empty() =~= Seq::<RxFrame>::empty().push(e.1));
        }
    } else {
        lemma_delivered_push(log.skip(1), id, e);
        assert(log.push(e).skip(1) =~= log.skip(1).push(e));
        assert(log.push(e)[0] == log[0]);
        if log[0].0 != id && e.0 != id {
            assert(seq![log[0].1] + delivered(log.skip(1), id).push(e.1) =~= (seq![log[0].1]
                + delivered(log.skip(1), id)).push(e.1));
        }
    }
}

/// Self-exclusion: a frame a client publishes is delivered, in order, to
/// every other client, and never back to the sender.
pub proof fn lemma_self_exclusion(log: Seq<(u32, RxFrame)>, sender: u32, other: u32, f: RxFrame)
    requires
        sender != other,
    ensures
        delivered(log.push((sender, f)), sender) == delivered(log, sender),
        delivered(log.push((sender, f)), other) == delivered(log, other).push(f),
{
    lemma_delivered_push(log, sender, (sender, f));
    lemma_delivered_push(log, other, (sender, f));
}

/// The position of the first entry at or after `from` that the client with
/// the given id did not send itself, if any.
pub open spec fn spec_next_foreign(log: Seq<(u32, RxFrame)>, id: u32, from: int) -> Option<int>
    decreases log.len() - from,
    when 0 <= from <= log.len()
{
    if from >= log.len() {
        None
    } else if log[from].0 != id {
        Some(from)
    } else {
        spec_next_foreign(log, id, from + 1)
    }
}

/// Where the next foreign entry lies: within the history, after `from`,
/// foreign itself, with only the client's own entries before it; and when
/// there is none, everything from `from` on is the client's own.
pub proof fn lemma_next_foreign_bounds(log: Seq<(u32, RxFrame)>, id: u32, from: int)
    requires
        0 <= from <= log.len(),
    ensures
        match spec_next_foreign(log, id, from) {
            Some(i) => from <= i < log.len() && log[i].0 != id && (forall|j: int|
                from <= j < i ==> log[j].0 == id),
            None => forall|j: int| from <= j < log.len() ==> log[j].0 == id,
        },
    decreases log.len() - from,
{
    if from >= log.len() {
    } else if log[from].0 != id {
    } else {
        lemma_next_foreign_bounds(log, id, from + 1);
    }
}

#[via_fn]
proof fn received_from_decreases(log: Seq<(u32, RxFrame)>, id: u32, from: int) {
    lemma_next_foreign_bounds(log, id, from);
}

/// The frames a client receives by repeatedly taking the next foreign
/// entry, starting at position `from`.
pub open spec fn received_from(log: Seq<(u32, RxFrame)>, id: u32, from: int) -> Seq<RxFrame>
    decreases log.len() - from,
    when 0 <= from <= log.len()
    via received_from_decreases
{
    match spec_next_foreign(log, id, from) {
        None => Seq::empty(),
        Some(i) => seq![log[i].1] + received_from(log, id, i + 1),
    }
}

proof fn lemma_received_from_delivered(log: Seq<(u32, RxFrame)>, id: u32, from: int)
    requires
        0 <= from <= log.len(),
    ensures
        received_from(log, id, from) == delivered(log.skip(from), id),
    decreases log.len() - from,
{
    lemma_next_foreign_bounds(log, id, from);
    if from >= log.len() {
        assert(log.skip(from) =~= Seq::<(u32, RxFrame)>::empty());
    } else if log[from].0 != id {
        lemma_received_from_delivered(log, id, from + 1);
        assert(log.skip(from)[0] == log[from]);
        assert(log.skip(from).skip(1) =~= log.skip(from + 1));
    } else {
        lemma_received_from_delivered(log, id, from + 1);
        assert(log.skip(from)[0] == log[from]);
        assert(log.skip(from).skip(1) =~= log.skip(from + 1));
    }
}

/// A client that reads the whole history receives exactly what the bus
/// delivers to it: every foreign frame, in the one shared order, and
/// nothing of its own.
pub proof fn lemma_receiving_yields_delivered(log: Seq<(u32, RxFrame)>, id: u32)
    ensures
        received_from(log, id, 0) == delivered(log, id),
{
    lemma_received_from_delivered(log, id, 0);
    assert(log.skip(0) =~= log);
}

/// The shared broadcast medium: every sent frame joins one total order,
/// tagged with its sender, and every client reads that order.
pub struct Bus {
    next_client_id: u32,
    log: Vec<(u32, RxFrame)>,
}

impl Bus {
    /// The one shared order of everything published so far.
    pub closed spec fn spec_log(self) -> Seq<(u32, RxFrame)> {
        self.log@
    }

    /// The id the next attaching client will get.
    pub closed spec fn spec_next_id(self) -> u32 {
        self.next_client_id
    }

    /// A fresh bus with no traffic and no clients.
    pub fn new() -> (r: Bus)
        ensures
            r.spec_log() == Seq::<(u32, RxFrame)>::empty(),
            r.spec_next_id() == EXTERNAL_CLIENT_ID + 1,
    {
        Bus { next_client_id: EXTERNAL_CLIENT_ID + 1, log: Vec::new() }
    }

    /// Attach one more client under a fresh id; it sees only traffic
    /// published after it joined.
    pub fn new_client(&mut self) -> (r: BusClient)
        requires
            old(self).spec_next_id() < u32::MAX,
        ensures
            r.spec_id() == old(self).spec_next_id(),
            r.spec_cursor() == old(self).spec_log().len(),
            final(self).spec_next_id() == old(self).spec_next_id() + 1,
            final(self).spec_log() == old(self).spec_log(),
    {
        let id = self.next_client_id;
        self.next_client_id = self.next_client_id + 1;
        BusClient { id, cursor: self.log.len() }
    }
}

/// One participant attached to the bus.
pub struct BusClient {
    id: u32,
    cursor: usize,
}

impl BusClient {
    /// The unique id under which this client publishes.
    pub closed spec fn spec_id(self) -> u32 {
        self.id
    }

    /// How far into the shared order this client has read.
    pub closed spec fn spec_cursor(self) -> int {
        self.cursor as int
    }

    /// The client has not read past the end of the bus history.
    pub open spec fn wf(self, bus: Bus) -> bool {
        self.spec_cursor() <= bus.spec_log().len()
    }

    /// Publish a frame: it joins the shared order, tagged with this client,
    /// and will reach every other client.
    pub fn send(&self, bus: &mut Bus, frame: TxFrame)
        ensures
            final(bus).spec_log() == old(bus).spec_log().push(
                (self.spec_id(), spec_rx_of_tx(frame)),
            ),
            final(bus).spec_next_id() == old(bus).spec_next_id(),
    {
        let rx = RxFrame::from(frame);
        bus.log.push((self.id, rx));
    }

    /// Take the next frame some other client published, if one is pending:
    /// entries tagged with the caller's own id are silently skipped.
    pub fn recv(&mut self, bus: &Bus) -> (r: Option<RxFrame>)
        requires
            old(self).wf(*bus),
        ensures
            final(self).spec_id() == old(self).spec_id(),
            final(self).wf(*bus),
            match r {
                Some(f) => {
                    &&& spec_next_foreign(bus.spec_log(), old(self).spec_id(), old(self).spec_cursor())
                        matches Some(i)
                    &&& f@ == bus.spec_log()[
                        spec_next_foreign(
                            bus.spec_log(),
                            old(self).spec_id(),
                            old(self).spec_cursor(),
                        ).unwrap()
                    ].1@
                    &&& final(self).spec_cursor() == spec_next_foreign(
                        bus.spec_log(),
                        old(self).spec_id(),
                        old(self).spec_cursor(),
                    ).unwrap() + 1
                },
                None => {
                    &&& spec_next_foreign(bus.spec_log(), old(self).spec_id(), old(self).spec_cursor())
                        is None
                    &&& final(self).spec_cursor() == old(self).spec_cursor()
                },
            },
    {
        let mut k: usize = self.cursor;
        while k < bus.log.len()
            invariant
                self.cursor <= k <= bus.log@.len(),
                *self == *old(self),
                spec_next_foreign(bus.spec_log(), self.spec_id(), self.spec_cursor())
                    == spec_next_foreign(bus.spec_log(), self.spec_id(), k as int),
            decreases bus.log@.len() - k,
        {
            let entry = &bus.log[k];
            if entry.0 != self.id {
                self.cursor = k + 1;
                return Some(entry.1.clone());
            }
            k = k + 1;
        }
        None
    }
}

} // verus!
