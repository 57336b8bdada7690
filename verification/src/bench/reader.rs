//! The receiving side of the benchmark.

use crate::chunk::chunk;
use crate::protocol::{ConnectionId, DaemonMessage, DaemonTcpOutgoing, LogMessage};
use vstd::prelude::*;

verus! {

/// How much came back on a connection.
#[derive(Debug, Clone, Copy, PartialEq, Eq)]
pub struct Received {
    pub id: ConnectionId,
    pub bytes: u64,
}

/// Drains what is echoed, until all connections are closed.
#[derive(Debug)]
pub struct Reader {
    /// Every connection once.
    pub received: Vec<Received>,
    /// How many bytes every connection has to get back.
    pub expected: u64,
    /// How many bytes came back in all.
    pub total: u64,
    /// How many connections were closed.
    pub closed: usize,
}

/// What the receiving side makes of a message.
#[derive(Debug, PartialEq, Eq)]
pub enum ReaderStep {
    /// This many bytes came back in all.
    Progress(u64),
    /// A connection was closed, and there are more.
    Closed,
    /// The last connection was closed; this many bytes came back in all.
    Finished(u64),
    /// The agent has something to say.
    Log(LogMessage),
    Fail(ReaderError),
}

/// Why a run failed.
#[derive(Debug, PartialEq, Eq)]
pub enum ReaderError {
    /// Data came for a connection that is not one of the benchmark's.
    UnknownConn(ConnectionId),
    /// A connection was closed before everything came back.
    ClosedEarly(ConnectionId),
    /// More came back than can be counted.
    TooMuch,
    /// The agent sent something else.
    Unexpected(DaemonMessage),
}

/// The number of bytes on all connections.
pub open spec fn sum(received: Seq<Received>) -> nat
    decreases received.len(),
{
    if received.len() == 0 {
        0
    } else {
        sum(received.drop_last()) + received.last().bytes as nat
    }
}

/// Whether a connection is one of these.
pub open spec fn known(received: Seq<Received>, id: ConnectionId) -> bool {
    exists|i: int| 0 <= i < received.len() && (#[trigger] received[i]).id == id
}

/// How much came back on a connection, if it is one of these.
pub open spec fn received_on(received: Seq<Received>, id: ConnectionId) -> Option<u64>
    decreases received.len(),
{
    if received.len() == 0 {
        None
    } else if received.last().id == id {
        Some(received.last().bytes)
    } else {
        received_on(received.drop_last(), id)
    }
}

pub open spec fn distinct(received: Seq<Received>) -> bool {
    forall|i: int, j: int|
        0 <= i < j < received.len() ==> (#[trigger] received[i]).id != (#[trigger] received[j]).id
}

proof fn lemma_received_on(received: Seq<Received>, i: int)
    requires
        distinct(received),
        0 <= i < received.len(),
    ensures
        received_on(received, received[i].id) == Some(received[i].bytes),
    decreases received.len(),
{
    if i < received.len() - 1 {
        lemma_received_on(received.drop_last(), i);
        assert(received.drop_last()[i] == received[i]);
    }
}

proof fn lemma_unknown(received: Seq<Received>, id: ConnectionId)
    requires
        !known(received, id),
    ensures
        received_on(received, id) is None,
    decreases received.len(),
{
    if received.len() > 0 {
        let shorter = received.drop_last();
        assert(received[received.len() - 1].id != id);
        assert forall|i: int| 0 <= i < shorter.len() implies (#[trigger] shorter[i]).id != id by {
            assert(shorter[i] == received[i]);
        }
        lemma_unknown(shorter, id);
    }
}

/// Adding to one connection adds to the sum.
proof fn lemma_sum_update(received: Seq<Received>, i: int, entry: Received)
    requires
        0 <= i < received.len(),
    ensures
        sum(received.update(i, entry)) == sum(received) - received[i].bytes + entry.bytes,
    decreases received.len(),
{
    let updated = received.update(i, entry);
    if i < received.len() - 1 {
        lemma_sum_update(received.drop_last(), i, entry);
        assert(updated.drop_last() =~= received.drop_last().update(i, entry));
    } else {
        assert(updated.drop_last() =~= received.drop_last());
    }
}

proof fn lemma_sum_bound(received: Seq<Received>, i: int)
    requires
        0 <= i < received.len(),
    ensures
        received[i].bytes <= sum(received),
    decreases received.len(),
{
    if i < received.len() - 1 {
        lemma_sum_bound(received.drop_last(), i);
    }
}

impl Reader {
    pub open spec fn well_formed(self) -> bool {
        &&& distinct(self.received@)
        &&& self.total == sum(self.received@)
    }

    /// How much the connection `id` has to get back, if it is one of the benchmark's.
    pub open spec fn expected_on(self, id: ConnectionId) -> Option<u64> {
        if known(self.received@, id) {
            Some(self.expected)
        } else {
            None
        }
    }

    /// A receiving side for these connections. One that is named twice counts once.
    pub fn new(conns: &Vec<ConnectionId>, expected: u64) -> (r: Reader)
        ensures
            r.well_formed(),
            r.expected == expected,
            r.total == 0,
            r.closed == 0,
            forall|id: ConnectionId| #[trigger] known(r.received@, id) <==> conns@.contains(id),
            forall|i: int| 0 <= i < r.received@.len() ==> (#[trigger] r.received@[i]).bytes == 0,
    {
        let mut received: Vec<Received> = Vec::new();
        let mut i: usize = 0;
        while i < conns.len()
            invariant
                i <= conns.len(),
                distinct(received@),
                sum(received@) == 0,
                forall|id: ConnectionId| #[trigger]
                    known(received@, id) <==> exists|j: int| 0 <= j < i && #[trigger] conns@[j] == id,
                forall|k: int| 0 <= k < received@.len() ==> (#[trigger] received@[k]).bytes == 0,
            decreases conns.len() - i,
        {
            let id: ConnectionId = conns[i];
            let ghost before = received@;
            if find(&received, id).is_none() {
                received.push(Received { id, bytes: 0 });
                proof {
                    assert(received@.drop_last() =~= before);
                    assert forall|other: ConnectionId| #[trigger]
                        known(received@, other) <==> known(before, other) || other == id by {
                        if known(before, other) {
                            let k = choose|k: int|
                                0 <= k < before.len() && (#[trigger] before[k]).id == other;
                            assert(received@[k].id == other);
                        }
                        if other == id {
                            assert(received@[before.len() as int].id == other);
                        }
                        if known(received@, other) {
                            let k = choose|k: int|
                                0 <= k < received@.len() && (#[trigger] received@[k]).id == other;
                            if k < before.len() {
                                assert(before[k].id == other);
                            }
                        }
                    }
                    assert forall|a: int, b: int| 0 <= a < b < received@.len() implies (
                    #[trigger] received@[a]).id != (#[trigger] received@[b]).id by {
                        assert(before[a].id != id);
                        if b < before.len() {
                            assert(before[b] == received@[b]);
                        }
                    }
                }
            }
            i = i + 1;
            proof {
                assert forall|other: ConnectionId| #[trigger]
                    known(received@, other) <==> exists|j: int|
                        0 <= j < i && #[trigger] conns@[j] == other by {
                    if exists|j: int| 0 <= j < i && #[trigger] conns@[j] == other {
                        let j = choose|j: int| 0 <= j < i && #[trigger] conns@[j] == other;
                        if j < i - 1 {
                            assert(known(before, other));
                        }
                    }
                    if known(received@, other) && other == id {
                        assert(conns@[i - 1] == other);
                    } else if known(received@, other) {
                        assert(known(before, other));
                        let j = choose|j: int| 0 <= j < i - 1 && #[trigger] conns@[j] == other;
                        assert(conns@[j] == other);
                    }
                }
            }
        }
        proof {
            assert forall|id: ConnectionId| known(received@, id) <==> conns@.contains(id) by {
                if conns@.contains(id) {
                    let j = conns@.index_of(id);
                    assert(conns@[j] == id);
                    assert(known(received@, id));
                }
            }
        }
        Reader { received, expected, total: 0, closed: 0 }
    }

    /// Takes a message of the agent.
    pub fn step(&mut self, message: DaemonMessage) -> (r: ReaderStep)
        requires
            old(self).well_formed(),
            old(self).closed < old(self).received@.len(),
        ensures
            final(self).well_formed(),
            final(self).expected == old(self).expected,
            forall|id: ConnectionId|
                known(final(self).received@, id) <==> known(old(self).received@, id),
            final(self).received@.len() == old(self).received@.len(),
            match message {
                DaemonMessage::TcpOutgoing(DaemonTcpOutgoing::Read(Ok(read))) => {
                    let id = read.connection_id;
                    let len = chunk(read.bytes).len();
                    if !known(old(self).received@, id) {
                        r == ReaderStep::Fail(ReaderError::UnknownConn(id)) && *final(self) == *old(
                            self,
                        )
                    } else if old(self).total + len > u64::MAX {
                        r == ReaderStep::Fail(ReaderError::TooMuch) && *final(self) == *old(self)
                    } else {
                        &&& r == ReaderStep::Progress((old(self).total + len) as u64)
                        &&& final(self).total == old(self).total + len
                        &&& final(self).closed == old(self).closed
                        &&& received_on(final(self).received@, id) == Some(
                            (received_on(old(self).received@, id)->0 + len) as u64,
                        )
                        &&& forall|other: ConnectionId|
                            other != id ==> received_on(final(self).received@, other)
                                == received_on(old(self).received@, other)
                    }
                },
                DaemonMessage::TcpOutgoing(DaemonTcpOutgoing::Close(id)) => {
                    &&& final(self).received == old(self).received
                    &&& final(self).total == old(self).total
                    &&& if received_on(old(self).received@, id) != old(self).expected_on(id) {
                        r == ReaderStep::Fail(ReaderError::ClosedEarly(id)) && final(self).closed
                            == old(self).closed
                    } else {
                        final(self).closed == old(self).closed + 1 && r == if final(self).closed
                            == final(self).received@.len() {
                            ReaderStep::Finished(final(self).total)
                        } else {
                            ReaderStep::Closed
                        }
                    }
                },
                DaemonMessage::LogMessage(log) => r == ReaderStep::Log(log) && *final(self) == *old(
                    self,
                ),
                other => r == ReaderStep::Fail(ReaderError::Unexpected(other)) && *final(self)
                    == *old(self),
            },
    {
        match message {
            DaemonMessage::TcpOutgoing(DaemonTcpOutgoing::Read(Ok(read))) => {
                let id: ConnectionId = read.connection_id;
                let i: usize = match find(&self.received, id) {
                    Some(i) => i,
                    None => {
                        return ReaderStep::Fail(ReaderError::UnknownConn(id));
                    },
                };
                assert(known(self.received@, id));
                let len: u64 = read.bytes.len() as u64;
                let total: u64 = match self.total.checked_add(len) {
                    Some(total) => total,
                    None => {
                        return ReaderStep::Fail(ReaderError::TooMuch);
                    },
                };
                let ghost before = self.received@;
                proof {
                    lemma_sum_bound(before, i as int);
                    lemma_received_on(before, i as int);
                }
                let entry = Received { id, bytes: self.received[i].bytes + len };
                self.received.set(i, entry);
                self.total = total;
                proof {
                    lemma_sum_update(before, i as int, entry);
                    lemma_counted(before, i as int, entry);
                }
                ReaderStep::Progress(total)
            },
            DaemonMessage::TcpOutgoing(DaemonTcpOutgoing::Close(id)) => {
                if let Some(i) = find(&self.received, id) {
                    proof {
                        lemma_received_on(self.received@, i as int);
                        assert(known(self.received@, id));
                    }
                    if self.received[i].bytes != self.expected {
                        return ReaderStep::Fail(ReaderError::ClosedEarly(id));
                    }
                } else {
                    proof {
                        lemma_unknown(self.received@, id);
                    }
                }
                let conns: usize = self.received.len();
                self.closed = self.closed + 1;
                if self.closed == conns {
                    ReaderStep::Finished(self.total)
                } else {
                    ReaderStep::Closed
                }
            },
            DaemonMessage::LogMessage(log) => ReaderStep::Log(log),
            other => ReaderStep::Fail(ReaderError::Unexpected(other)),
        }
    }
}

/// Where every connection got back what it had to, that is the whole volume.
pub proof fn law_everything_came_back(reader: Reader)
    requires
        reader.well_formed(),
        forall|i: int|
            0 <= i < reader.received@.len() ==> (#[trigger] reader.received@[i]).bytes
                == reader.expected,
    ensures
        reader.total == reader.received@.len() * reader.expected,
{
    lemma_even_sum(reader.received@, reader.expected);
}

proof fn lemma_even_sum(received: Seq<Received>, bytes: u64)
    requires
        forall|i: int| 0 <= i < received.len() ==> (#[trigger] received[i]).bytes == bytes,
    ensures
        sum(received) == received.len() * bytes,
    decreases received.len(),
{
    if received.len() > 0 {
        let shorter = received.drop_last();
        assert forall|i: int| 0 <= i < shorter.len() implies (#[trigger] shorter[i]).bytes
            == bytes by {
            assert(shorter[i] == received[i]);
        }
        lemma_even_sum(shorter, bytes);
        assert(received.len() * bytes == shorter.len() * bytes + bytes) by (nonlinear_arith)
            requires
                received.len() == shorter.len() + 1,
        ;
    } else {
        assert(received.len() * bytes == 0) by (nonlinear_arith)
            requires
                received.len() == 0,
        ;
    }
}

/// What becomes of a list when one connection gets more back.
proof fn lemma_counted(before: Seq<Received>, i: int, entry: Received)
    requires
        distinct(before),
        0 <= i < before.len(),
        entry.id == before[i].id,
    ensures
        distinct(before.update(i, entry)),
        received_on(before.update(i, entry), entry.id) == Some(entry.bytes),
        forall|id: ConnectionId|
            known(before.update(i, entry), id) <==> #[trigger] known(before, id),
        forall|id: ConnectionId|
            id != entry.id ==> received_on(before.update(i, entry), id) == #[trigger] received_on(
                before,
                id,
            ),
{
    let after = before.update(i, entry);
    assert forall|a: int, b: int| 0 <= a < b < after.len() implies (#[trigger] after[a]).id != (
    #[trigger] after[b]).id by {
        assert(before[a].id != before[b].id);
    }
    lemma_received_on(after, i);
    assert forall|id: ConnectionId| known(after, id) <==> #[trigger] known(before, id) by {
        if known(before, id) {
            let k = choose|k: int| 0 <= k < before.len() && (#[trigger] before[k]).id == id;
            assert(after[k].id == id);
        }
        if known(after, id) {
            let k = choose|k: int| 0 <= k < after.len() && (#[trigger] after[k]).id == id;
            assert(before[k].id == id);
        }
    }
    assert forall|id: ConnectionId| id != entry.id implies received_on(after, id)
        == #[trigger] received_on(before, id) by {
        lemma_others(before, i, entry, id);
    }
}

proof fn lemma_others(before: Seq<Received>, i: int, entry: Received, id: ConnectionId)
    requires
        0 <= i < before.len(),
        entry.id == before[i].id,
        id != entry.id,
    ensures
        received_on(before.update(i, entry), id) == received_on(before, id),
    decreases before.len(),
{
    let after = before.update(i, entry);
    if i < before.len() - 1 {
        lemma_others(before.drop_last(), i, entry, id);
        assert(after.drop_last() =~= before.drop_last().update(i, entry));
    } else {
        assert(after.drop_last() =~= before.drop_last());
    }
}

fn find(received: &Vec<Received>, id: ConnectionId) -> (r: Option<usize>)
    ensures
        match r {
            Some(i) => i < received@.len() && received@[i as int].id == id,
            None => !known(received@, id),
        },
{
    let mut i: usize = 0;
    while i < received.len()
        invariant
            i <= received.len(),
            forall|j: int| 0 <= j < i ==> (#[trigger] received@[j]).id != id,
        decreases received.len() - i,
    {
        if received[i].id == id {
            return Some(i);
        }
        i = i + 1;
    }
    None
}

/// Every byte that comes back on one of the benchmark's connections is counted once, for that
/// connection and in all, and nothing else is counted. A connection that is closed is counted
/// exactly if all of its bytes came back before, and the run is over with the last of them. A
/// log message is told and counts for nothing, and anything else ends the run.
pub proof fn law_every_byte_is_counted_once(
    reader: &mut Reader,
    message: DaemonMessage,
    r: ReaderStep,
    id: ConnectionId,
)
    requires
        old(reader).well_formed(),
        call_ensures(Reader::step, (reader, message), r),
    ensures
        r is Progress ==> (message matches DaemonMessage::TcpOutgoing(
            DaemonTcpOutgoing::Read(Ok(read)),
        ) && final(reader).total == old(reader).total + chunk(read.bytes).len() && known(
            old(reader).received@,
            read.connection_id,
        )),
        r matches ReaderStep::Progress(n) ==> n == final(reader).total,
        !(r is Progress) ==> final(reader).total == old(reader).total && received_on(
            final(reader).received@,
            id,
        ) == received_on(old(reader).received@, id),
        r is Progress ==> (message matches DaemonMessage::TcpOutgoing(
            DaemonTcpOutgoing::Read(Ok(read)),
        ) && (id != read.connection_id ==> received_on(final(reader).received@, id) == received_on(
            old(reader).received@,
            id,
        ))),
        r is Closed || r is Finished <==> final(reader).closed == old(reader).closed + 1,
        !(r is Closed || r is Finished) ==> final(reader).closed == old(reader).closed,
        r is Closed || r is Finished ==> (message matches DaemonMessage::TcpOutgoing(
            DaemonTcpOutgoing::Close(closed),
        ) && (known(old(reader).received@, closed) ==> received_on(old(reader).received@, closed)
            == Some(old(reader).expected))),
        r is Finished ==> final(reader).closed == final(reader).received@.len(),
        r is Closed ==> final(reader).closed != final(reader).received@.len(),
        r matches ReaderStep::Finished(n) ==> n == final(reader).total,
        r matches ReaderStep::Log(log) ==> message == DaemonMessage::LogMessage(log),
        message is LogMessage ==> r is Log,
        r matches ReaderStep::Fail(ReaderError::Unexpected(told)) ==> told == message,
{
    if let DaemonMessage::TcpOutgoing(DaemonTcpOutgoing::Close(closed)) = message {
        if !known(old(reader).received@, closed) {
            lemma_unknown(old(reader).received@, closed);
        }
    }
}

/// A run starts with nothing counted on any of its connections, which are exactly the ones
/// that it was given.
pub proof fn law_a_run_starts_at_zero(
    conns: &Vec<ConnectionId>,
    expected: u64,
    start: Reader,
    id: ConnectionId,
)
    requires
        call_ensures(Reader::new, (conns, expected), start),
    ensures
        start.total == 0 && start.closed == 0 && start.expected == expected,
        conns@.contains(id) ==> received_on(start.received@, id) == Some(0u64)
            && start.expected_on(id) == Some(expected),
        !conns@.contains(id) ==> received_on(start.received@, id) is None && start.expected_on(id)
            is None,
        start.received@.len() > 0 <==> conns@.len() > 0,
{
    assert(known(start.received@, id) <==> conns@.contains(id));
    if conns@.contains(id) {
        let i = choose|i: int|
            0 <= i < start.received@.len() && (#[trigger] start.received@[i]).id == id;
        lemma_received_on(start.received@, i);
    } else {
        lemma_unknown(start.received@, id);
    }
    if conns@.len() > 0 {
        assert(conns@.contains(conns@[0]));
        assert(known(start.received@, conns@[0]));
    }
    if start.received@.len() > 0 {
        let first = start.received@[0].id;
        assert(known(start.received@, first));
        assert(conns@.contains(first));
    }
}

} // verus!
