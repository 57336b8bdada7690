//! The sending side of the benchmark.

use crate::bench::Plan;
use crate::protocol::ConnectionId;
use vstd::prelude::*;

verus! {

/// Writes chunks to all connections in turn, then shuts their write sides down.
#[derive(Debug)]
pub struct Writer {
    pub conns: Vec<ConnectionId>,
    pub plan: Plan,
    /// How many chunks every connection got.
    pub round: usize,
    /// How many connections got one chunk more.
    pub at: usize,
    /// How many bytes were sent.
    pub sent: u64,
    /// How many connections were shut down.
    pub shut: usize,
}

/// What the sending side does next.
#[derive(Debug, Clone, Copy, PartialEq, Eq)]
pub enum WriterStep {
    /// Wait until more was echoed.
    Wait,
    /// Write a chunk to this connection.
    Send(ConnectionId),
    /// Shut the write side of this connection down.
    ShutDown(ConnectionId),
    Done,
}

impl Writer {
    /// The number of chunks that were sent.
    pub open spec fn chunks_sent(self) -> int {
        self.round * self.conns@.len() + self.at
    }

    pub open spec fn well_formed(self) -> bool {
        &&& 0 < self.plan.chunk_len <= self.plan.window
        &&& self.plan.per_conn_chunks * self.conns@.len() * self.plan.chunk_len <= u64::MAX
        &&& self.round <= self.plan.per_conn_chunks
        &&& self.at < self.conns@.len() || (self.at == 0 && self.conns@.len() == 0)
        &&& self.round == self.plan.per_conn_chunks ==> self.at == 0
        &&& self.round < self.plan.per_conn_chunks ==> self.shut == 0
        &&& self.shut <= self.conns@.len()
        &&& self.sent == self.chunks_sent() * self.plan.chunk_len
    }

    /// The bytes that were sent but not yet echoed, when this many were.
    pub open spec fn in_flight(self, received: u64) -> int {
        if self.sent >= received {
            self.sent - received
        } else {
            0
        }
    }

    /// What the sending side does next, when this many bytes were echoed: a chunk is sent
    /// only if the window has room for all of it.
    pub open spec fn upcoming(self, received: u64) -> WriterStep {
        if self.conns@.len() == 0 {
            WriterStep::Done
        } else if self.round < self.plan.per_conn_chunks {
            if self.in_flight(received) + self.plan.chunk_len > self.plan.window {
                WriterStep::Wait
            } else {
                WriterStep::Send(self.conns@[self.at as int])
            }
        } else if self.shut < self.conns@.len() {
            WriterStep::ShutDown(self.conns@[self.shut as int])
        } else {
            WriterStep::Done
        }
    }

    /// The sending side after its next step.
    pub open spec fn after(self, received: u64) -> Writer {
        match self.upcoming(received) {
            WriterStep::Send(_) => Writer {
                round: if self.at + 1 == self.conns@.len() {
                    (self.round + 1) as usize
                } else {
                    self.round
                },
                at: if self.at + 1 == self.conns@.len() {
                    0
                } else {
                    (self.at + 1) as usize
                },
                sent: (self.sent + self.plan.chunk_len) as u64,
                ..self
            },
            WriterStep::ShutDown(_) => Writer { shut: (self.shut + 1) as usize, ..self },
            _ => self,
        }
    }

    pub fn new(conns: Vec<ConnectionId>, plan: Plan) -> (r: Writer)
        requires
            0 < plan.chunk_len <= plan.window,
            plan.per_conn_chunks * conns@.len() * plan.chunk_len <= u64::MAX,
        ensures
            r.well_formed(),
            r.conns == conns,
            r.plan == plan,
            r.round == 0,
            r.at == 0,
            r.sent == 0,
            r.shut == 0,
    {
        assert((0 * conns@.len() + 0) * plan.chunk_len == 0) by (nonlinear_arith);
        Writer { conns, plan, round: 0, at: 0, sent: 0, shut: 0 }
    }

    /// Decides what the sending side does next, and takes note of it.
    pub fn step(&mut self, received: u64) -> (r: WriterStep)
        requires
            old(self).well_formed(),
        ensures
            final(self).well_formed(),
            r == old(self).upcoming(received),
            *final(self) == old(self).after(received),
            r is Send ==> final(self).in_flight(received) <= final(self).plan.window,
    {
        let n: usize = self.conns.len();
        if n == 0 {
            return WriterStep::Done;
        }
        if self.round < self.plan.per_conn_chunks {
            let in_flight: u64 = self.sent.saturating_sub(received);
            let window: u64 = self.plan.window as u64;
            let chunk_len: u64 = self.plan.chunk_len as u64;
            if in_flight > window - chunk_len {
                return WriterStep::Wait;
            }
            let id: ConnectionId = self.conns[self.at];
            proof {
                lemma_room(
                    self.round as int,
                    self.at as int,
                    n as int,
                    self.plan.per_conn_chunks as int,
                    chunk_len as int,
                );
            }
            self.sent = self.sent + chunk_len;
            if self.at + 1 == n {
                proof {
                    assert((self.round + 1) * n == self.round * n + n) by (nonlinear_arith);
                }
                self.at = 0;
                self.round = self.round + 1;
            } else {
                self.at = self.at + 1;
            }
            WriterStep::Send(id)
        } else if self.shut < n {
            let id: ConnectionId = self.conns[self.shut];
            self.shut = self.shut + 1;
            WriterStep::ShutDown(id)
        } else {
            WriterStep::Done
        }
    }
}

/// One more chunk is still within what is planned.
proof fn lemma_room(round: int, at: int, n: int, rounds: int, len: int)
    requires
        0 <= round < rounds,
        0 <= at < n,
        len > 0,
    ensures
        (round * n + at + 1) * len <= rounds * n * len,
        (round * n + at + 1) * len == (round * n + at) * len + len,
{
    assert(round * n + at + 1 <= rounds * n) by (nonlinear_arith)
        requires
            0 <= round < rounds,
            0 <= at < n,
    ;
    assert((round * n + at + 1) * len <= rounds * n * len) by (nonlinear_arith)
        requires
            round * n + at + 1 <= rounds * n,
            len > 0,
    ;
    assert((round * n + at + 1) * len == (round * n + at) * len + len) by (nonlinear_arith);
}

/// While nothing is in flight, the sending side never waits: the window holds a chunk.
pub proof fn law_an_empty_window_never_blocks(writer: Writer, received: u64)
    requires
        writer.well_formed(),
        writer.in_flight(received) == 0,
    ensures
        !(writer.upcoming(received) is Wait),
{
}

/// The sending side after some steps; `received` says how much was echoed before each.
pub open spec fn writer_run(start: Writer, received: Seq<u64>) -> Writer
    decreases received.len(),
{
    if received.len() == 0 {
        start
    } else {
        writer_run(start, received.drop_last()).after(received.last())
    }
}

/// How many chunks the connection number `k` got in some steps.
pub open spec fn chunks_to(start: Writer, received: Seq<u64>, k: int) -> nat
    decreases received.len(),
{
    if received.len() == 0 {
        0
    } else {
        let before = writer_run(start, received.drop_last());
        chunks_to(start, received.drop_last(), k) + if before.upcoming(received.last()) is Send
            && before.at == k {
            1nat
        } else {
            0nat
        }
    }
}

/// Chunks go to all connections in turn, whatever is echoed when; and when the first write
/// side is shut down, every connection got as many chunks as were planned.
pub proof fn law_every_connection_gets_its_share(
    start: Writer,
    received: Seq<u64>,
    last: u64,
    k: int,
)
    requires
        start.well_formed(),
        start.round == 0,
        start.at == 0,
        start.shut == 0,
        0 <= k < start.conns@.len(),
    ensures
        ({
            let w = writer_run(start, received);
            &&& chunks_to(start, received, k) == w.round + if k < w.at {
                1int
            } else {
                0
            }
            &&& w.upcoming(last) is ShutDown || w.upcoming(last) is Done ==> chunks_to(
                start,
                received,
                k,
            ) == start.plan.per_conn_chunks
        }),
{
    lemma_shares(start, received, k);
}

/// There are never more bytes in flight than the window holds, as long as what was echoed
/// does not become less.
pub proof fn law_the_window_is_kept(start: Writer, received: Seq<u64>)
    requires
        start.well_formed(),
        start.sent == 0,
        received.len() > 0,
        forall|i: int, j: int| 0 <= i <= j < received.len() ==> received[i] <= received[j],
    ensures
        writer_run(start, received).in_flight(received.last()) <= start.plan.window,
    decreases received.len(),
{
    let earlier = received.drop_last();
    let w = writer_run(start, earlier);
    lemma_run_keeps_the_plan(start, earlier);
    lemma_run_keeps_the_plan(start, received);
    if earlier.len() > 0 {
        law_the_window_is_kept(start, earlier);
        assert(earlier.last() == received[received.len() - 2]);
        assert(received[received.len() - 2] <= received[received.len() - 1]);
    }
}

proof fn lemma_run_keeps_the_plan(start: Writer, received: Seq<u64>)
    requires
        start.well_formed(),
    ensures
        writer_run(start, received).plan == start.plan,
        writer_run(start, received).conns == start.conns,
        writer_run(start, received).well_formed(),
    decreases received.len(),
{
    if received.len() > 0 {
        lemma_run_keeps_the_plan(start, received.drop_last());
        let w = writer_run(start, received.drop_last());
        assert(w.conns@.len() == w.conns.len());
        if w.upcoming(received.last()) is Send {
            lemma_room(
                w.round as int,
                w.at as int,
                w.conns@.len() as int,
                w.plan.per_conn_chunks as int,
                w.plan.chunk_len as int,
            );
            assert((w.round + 1) * w.conns@.len() == w.round * w.conns@.len() + w.conns@.len())
                by (nonlinear_arith);
        }
    }
}

proof fn lemma_shares(start: Writer, received: Seq<u64>, k: int)
    requires
        start.well_formed(),
        start.round == 0,
        start.at == 0,
        start.shut == 0,
        0 <= k < start.conns@.len(),
    ensures
        ({
            let w = writer_run(start, received);
            &&& w.well_formed()
            &&& w.conns == start.conns
            &&& w.plan == start.plan
            &&& chunks_to(start, received, k) == w.round + if k < w.at {
                1int
            } else {
                0
            }
        }),
    decreases received.len(),
{
    if received.len() > 0 {
        lemma_shares(start, received.drop_last(), k);
        lemma_run_keeps_the_plan(start, received.drop_last());
        lemma_run_keeps_the_plan(start, received);
        let w = writer_run(start, received.drop_last());
        assert(w.conns@.len() == w.conns.len());
    }
}

/// The connections that chunks went to in some steps, in order.
pub open spec fn sent_to(start: Writer, received: Seq<u64>) -> Seq<ConnectionId>
    decreases received.len(),
{
    if received.len() == 0 {
        Seq::empty()
    } else {
        let before = sent_to(start, received.drop_last());
        match writer_run(start, received.drop_last()).upcoming(received.last()) {
            WriterStep::Send(id) => before.push(id),
            _ => before,
        }
    }
}

/// The connections whose write sides were shut down in some steps, in order.
pub open spec fn shut_down(start: Writer, received: Seq<u64>) -> Seq<ConnectionId>
    decreases received.len(),
{
    if received.len() == 0 {
        Seq::empty()
    } else {
        let before = shut_down(start, received.drop_last());
        match writer_run(start, received.drop_last()).upcoming(received.last()) {
            WriterStep::ShutDown(id) => before.push(id),
            _ => before,
        }
    }
}

/// Chunks go round: chunk number `k` goes to connection number `k`, counted round all of
/// them. As many bytes count as sent as the chunks hold, and there are never more chunks than
/// were planned.
pub proof fn law_chunks_go_round(start: Writer, received: Seq<u64>, k: int)
    requires
        start.well_formed(),
        start.round == 0,
        start.at == 0,
        start.shut == 0,
        0 <= k < sent_to(start, received).len(),
    ensures
        start.conns@.len() > 0,
        sent_to(start, received)[k] == start.conns@[k % start.conns@.len() as int],
        writer_run(start, received).sent == sent_to(start, received).len()
            * start.plan.chunk_len,
        sent_to(start, received).len() <= start.plan.per_conn_chunks * start.conns@.len(),
    decreases received.len(),
{
    lemma_sent_to(start, received);
    lemma_run_keeps_the_plan(start, received);
    let earlier = received.drop_last();
    let w = writer_run(start, earlier);
    lemma_sent_to(start, earlier);
    lemma_run_keeps_the_plan(start, earlier);
    let n = start.conns@.len() as int;
    if k < sent_to(start, earlier).len() {
        law_chunks_go_round(start, earlier, k);
    } else {
        assert(w.upcoming(received.last()) is Send);
        assert(k == w.round * n + w.at);
        assert(k % n == w.at) by (nonlinear_arith)
            requires
                k == w.round * n + w.at,
                0 <= w.at < n,
        ;
    }
    let last = writer_run(start, received);
    assert(last.round * n + last.at <= start.plan.per_conn_chunks * n) by (nonlinear_arith)
        requires
            0 <= last.round <= start.plan.per_conn_chunks,
            last.round == start.plan.per_conn_chunks ==> last.at == 0,
            0 <= last.at < n,
    ;
}

proof fn lemma_sent_to(start: Writer, received: Seq<u64>)
    requires
        start.well_formed(),
        start.round == 0,
        start.at == 0,
        start.shut == 0,
    ensures
        sent_to(start, received).len() == writer_run(start, received).chunks_sent(),
        sent_to(start, received).len() > 0 ==> start.conns@.len() > 0,
    decreases received.len(),
{
    let n = start.conns@.len();
    if received.len() > 0 {
        let earlier = received.drop_last();
        lemma_sent_to(start, earlier);
        lemma_run_keeps_the_plan(start, earlier);
        let w = writer_run(start, earlier);
        assert(w.conns@.len() == w.conns.len());
        assert((w.round + 1) * n == w.round * n + n) by (nonlinear_arith);
    } else {
        assert(0 * n + 0 == 0) by (nonlinear_arith);
    }
}

/// Write sides are shut down one after the other, each once, and only after all chunks were
/// sent. When the sending side is done, all of them are.
pub proof fn law_every_side_is_shut_down_once(start: Writer, received: Seq<u64>, last: u64)
    requires
        start.well_formed(),
        start.round == 0,
        start.at == 0,
        start.shut == 0,
    ensures
        ({
            let w = writer_run(start, received);
            let shut = shut_down(start, received);
            &&& shut.len() <= start.conns@.len()
            &&& shut == start.conns@.take(shut.len() as int)
            &&& shut.len() > 0 ==> sent_to(start, received).len() == start.plan.per_conn_chunks
                * start.conns@.len()
            &&& w.upcoming(last) is Done <==> shut.len() == start.conns@.len() && (sent_to(
                start,
                received,
            ).len() == start.plan.per_conn_chunks * start.conns@.len() || start.conns@.len() == 0)
        }),
    decreases received.len(),
{
    let n = start.conns@.len();
    lemma_sent_to(start, received);
    lemma_run_keeps_the_plan(start, received);
    let w = writer_run(start, received);
    assert(w.conns@.len() == w.conns.len());
    if w.round < start.plan.per_conn_chunks && n > 0 {
        assert(w.round * n + w.at < start.plan.per_conn_chunks * n) by (nonlinear_arith)
            requires
                0 <= w.round < start.plan.per_conn_chunks,
                0 <= w.at < n,
        ;
    }
    lemma_shut_down(start, received);
}

proof fn lemma_shut_down(start: Writer, received: Seq<u64>)
    requires
        start.well_formed(),
        start.round == 0,
        start.at == 0,
        start.shut == 0,
    ensures
        shut_down(start, received).len() == writer_run(start, received).shut,
        shut_down(start, received) == start.conns@.take(writer_run(start, received).shut as int),
    decreases received.len(),
{
    lemma_run_keeps_the_plan(start, received);
    if received.len() > 0 {
        let earlier = received.drop_last();
        lemma_shut_down(start, earlier);
        lemma_run_keeps_the_plan(start, earlier);
        let w = writer_run(start, earlier);
        assert(w.conns@.len() == w.conns.len());
        if w.upcoming(received.last()) is ShutDown {
            assert(start.conns@.take(w.shut + 1) =~= start.conns@.take(w.shut as int).push(
                start.conns@[w.shut as int],
            ));
        }
    } else {
        assert(start.conns@.take(0) =~= Seq::empty());
    }
}

/// A chunk waits exactly if the window has no room for all of it.
pub proof fn law_chunks_wait_for_room(writer: Writer, received: u64)
    requires
        writer.well_formed(),
        writer.conns@.len() > 0,
        writer.round < writer.plan.per_conn_chunks,
    ensures
        writer.upcoming(received) is Wait || writer.upcoming(received) is Send,
        writer.upcoming(received) is Wait <==> writer.sent + writer.plan.chunk_len
            > received + writer.plan.window,
        writer.upcoming(received) is Wait ==> writer.after(received) == writer,
{
}

/// The sending side starts with nothing sent, for the connections and the plan that it was
/// given.
pub proof fn law_sending_starts_at_zero(conns: Vec<ConnectionId>, plan: Plan, start: Writer)
    requires
        call_ensures(Writer::new, (conns, plan), start),
    ensures
        start.conns@ == conns@,
        start.plan == plan,
        start.sent == 0 && start.round == 0 && start.at == 0 && start.shut == 0,
        start.well_formed(),
{
}

} // verus!
