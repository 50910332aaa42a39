//! Status distribution: a single-slot cell holding the latest serialized
//! StatusSnapshot together with a monotonically increasing version, and
//! per-session readers that coalesce intermediate values — a reader that
//! polls observes the latest value exactly once per change, never a queue of
//! intermediate ones.
use vstd::prelude::*;

verus! {

/// The mathematical content of a status cell: the latest serialized snapshot
/// and how many times the cell has been written.
pub struct StatusCellModel {
    pub value: Seq<char>,
    pub version: nat,
}

/// The single-slot "latest value + change counter" cell. The external player
/// is its only writer; every session holds an independent reader.
pub struct StatusCell {
    value: String,
    version: u64,
}

impl View for StatusCell {
    type V = StatusCellModel;

    closed spec fn view(&self) -> StatusCellModel {
        StatusCellModel { value: self.value@, version: self.version as nat }
    }
}

impl StatusCell {
    /// A fresh cell holding the player's initial snapshot; no write has
    /// happened yet.
    pub fn new(initial: String) -> (r: StatusCell)
        ensures
            r@.value == initial@,
            r@.version == 0,
    {
        StatusCell { value: initial, version: 0 }
    }

    /// Replace the current value: the cell now holds exactly the new
    /// snapshot and its version advances by one.
    pub fn write(&mut self, v: String)
        requires
            old(self)@.version < u64::MAX,
        ensures
            final(self)@.value == v@,
            final(self)@.version == old(self)@.version + 1,
    {
        self.value = v;
        self.version = self.version + 1;
    }

    /// How many times the cell has been written.
    pub fn version(&self) -> (r: u64)
        ensures
            r == self@.version,
    {
        self.version
    }

    /// Read the most recently written value, independent of any reader: this
    /// is what answers a state query, however many writes happened since the
    /// last one.
    pub fn read_current(&self) -> (r: String)
        ensures
            r@ == self@.value,
    {
        self.value.clone()
    }
}

/// One session's view into the cell: the version it has last observed.
pub struct StatusReader {
    last_seen: u64,
}

impl View for StatusReader {
    type V = nat;

    closed spec fn view(&self) -> nat {
        self.last_seen as nat
    }
}

impl StatusReader {
    /// Subscribe at the cell's present value: the first poll delivers only
    /// once the cell changes after subscription.
    pub fn subscribe(cell: &StatusCell) -> (r: StatusReader)
        ensures
            r@ == cell@.version,
    {
        StatusReader { last_seen: cell.version }
    }

    /// Poll the cell: delivers the current value exactly when the cell has
    /// changed since this reader last looked, and marks everything up to the
    /// cell's present version as seen — intermediate values are coalesced
    /// away, never queued.
    pub fn poll(&mut self, cell: &StatusCell) -> (r: Option<String>)
        ensures
            final(self)@ == cell@.version,
            r is Some <==> old(self)@ != cell@.version,
            r is Some ==> r->Some_0@ == cell@.value,
    {
        if self.last_seen != cell.version {
            self.last_seen = cell.version;
            Some(cell.value.clone())
        } else {
            None
        }
    }
}

/// One interaction with the cell, as seen by a fixed reader: either the
/// player writes a new snapshot, or the reader polls.
pub enum ChannelOp {
    Write(Seq<char>),
    Poll,
}

/// The joint state of the cell, one reader, and the values that reader has
/// been delivered so far.
pub struct ChannelState {
    pub value: Seq<char>,
    pub version: nat,
    pub seen: nat,
    pub delivered: Seq<Seq<char>>,
}

/// How one interaction transforms the joint state: a write replaces the
/// value and advances the version; a poll delivers the current value exactly
/// when the reader is behind, and synchronizes the reader.
pub open spec fn channel_step(m: ChannelState, op: ChannelOp) -> ChannelState {
    match op {
        ChannelOp::Write(v) => ChannelState { value: v, version: m.version + 1, ..m },
        ChannelOp::Poll => if m.seen != m.version {
            ChannelState { seen: m.version, delivered: m.delivered.push(m.value), ..m }
        } else {
            m
        },
    }
}

/// The joint state after a whole sequence of interactions.
pub open spec fn channel_run(m: ChannelState, ops: Seq<ChannelOp>) -> ChannelState
    decreases ops.len(),
{
    if ops.len() == 0 {
        m
    } else {
        channel_run(channel_step(m, ops.first()), ops.drop_first())
    }
}

/// How many of the interactions are writes.
pub open spec fn write_count(ops: Seq<ChannelOp>) -> nat
    decreases ops.len(),
{
    if ops.len() == 0 {
        0
    } else {
        (if ops.first() is Write {
            1nat
        } else {
            0nat
        }) + write_count(ops.drop_first())
    }
}

/// The interactions consisting of exactly the given writes, in order.
pub open spec fn writes_of(ws: Seq<Seq<char>>) -> Seq<ChannelOp> {
    ws.map_values(|v: Seq<char>| ChannelOp::Write(v))
}

/// Running two interaction sequences in turn is running their concatenation.
pub proof fn lemma_channel_run_append(m: ChannelState, a: Seq<ChannelOp>, b: Seq<ChannelOp>)
    ensures
        channel_run(m, a + b) == channel_run(channel_run(m, a), b),
    decreases a.len(),
{
    if a.len() == 0 {
        assert(a + b =~= b);
    } else {
        assert((a + b).first() == a.first());
        assert((a + b).drop_first() =~= a.drop_first() + b);
        lemma_channel_run_append(channel_step(m, a.first()), a.drop_first(), b);
    }
}

/// Writes alone move the value to the last one written and advance the
/// version once per write; they deliver nothing by themselves.
pub proof fn lemma_channel_writes(m: ChannelState, ws: Seq<Seq<char>>)
    ensures
        channel_run(m, writes_of(ws)).value == (if ws.len() > 0 {
            ws.last()
        } else {
            m.value
        }),
        channel_run(m, writes_of(ws)).version == m.version + ws.len(),
        channel_run(m, writes_of(ws)).seen == m.seen,
        channel_run(m, writes_of(ws)).delivered == m.delivered,
    decreases ws.len(),
{
    if ws.len() > 0 {
        assert(writes_of(ws).first() == ChannelOp::Write(ws.first()));
        assert(writes_of(ws).drop_first() =~= writes_of(ws.drop_first()));
        let m1 = channel_step(m, ChannelOp::Write(ws.first()));
        lemma_channel_writes(m1, ws.drop_first());
        if ws.len() > 1 {
            assert(ws.drop_first().last() == ws.last());
        }
    } else {
        assert(writes_of(ws).len() == 0);
    }
}

/// The coalescing law for a synchronized reader: after any number of
/// consecutive writes with no intervening poll, a single poll delivers the
/// final written value, exactly once, and none of the intermediate values.
pub proof fn lemma_coalesced_delivery(m: ChannelState, ws: Seq<Seq<char>>)
    requires
        m.seen == m.version,
        ws.len() > 0,
    ensures
        channel_run(m, writes_of(ws).push(ChannelOp::Poll)).delivered == m.delivered.push(
            ws.last(),
        ),
        channel_run(m, writes_of(ws).push(ChannelOp::Poll)).value == ws.last(),
        channel_run(m, writes_of(ws).push(ChannelOp::Poll)).seen == channel_run(
            m,
            writes_of(ws).push(ChannelOp::Poll),
        ).version,
{
    assert(writes_of(ws).push(ChannelOp::Poll) =~= writes_of(ws) + seq![ChannelOp::Poll]);
    lemma_channel_run_append(m, writes_of(ws), seq![ChannelOp::Poll]);
    lemma_channel_writes(m, ws);
    let w = channel_run(m, writes_of(ws));
    assert(seq![ChannelOp::Poll].first() == ChannelOp::Poll);
    assert(seq![ChannelOp::Poll].drop_first() =~= Seq::<ChannelOp>::empty());
    assert(channel_run(w, seq![ChannelOp::Poll]) == channel_run(
        channel_step(w, ChannelOp::Poll),
        seq![ChannelOp::Poll].drop_first(),
    ));
    assert(channel_run(w, seq![ChannelOp::Poll]) == channel_step(w, ChannelOp::Poll));
}

/// The delivery bound: starting synchronized, over any interleaving of
/// writes and polls the reader is delivered at most one value per write —
/// delivered-count never exceeds update-count.
pub proof fn lemma_delivery_bound(m: ChannelState, ops: Seq<ChannelOp>)
    requires
        m.seen <= m.version,
    ensures
        channel_run(m, ops).seen <= channel_run(m, ops).version,
        channel_run(m, ops).delivered.len() <= m.delivered.len() + write_count(ops) + (
        if m.seen < m.version {
            1int
        } else {
            0int
        }),
    decreases ops.len(),
{
    if ops.len() > 0 {
        lemma_delivery_bound(channel_step(m, ops.first()), ops.drop_first());
    }
}

} // verus!
