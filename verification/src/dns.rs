//! DNS lookups of one client.
//!
//! Lookups run concurrently, but answers are released to the client strictly in request
//! order - the protocol has no request IDs for DNS, so the client matches answers to
//! requests by order alone. Ordering is kept with a sequence-numbered queue: results
//! parked out of order wait until everything before them has resolved.

pub mod resolve;

use crate::protocol::{
    DaemonMessage, DaemonMessageView, DnsLookup, GetAddrInfoRequestV2, LookupRecordView,
    ResolveErrorKindInternal, ResolveErrorView, ResponseError, ResponseErrorView,
};
use std::collections::VecDeque;
use vstd::prelude::*;

verus! {

/// Overall timeout for one lookup in seconds, so a parked answer cannot block the
/// ordered queue (and with it every later answer) forever.
pub const LOOKUP_TASK_TIMEOUT_SECS: u64 = 15;

/// The outcome of a lookup.
pub type LookupResult = Result<DnsLookup, ResolveErrorKindInternal>;

/// The outcome of a lookup, as specifications speak of it.
pub type LookupResultView = Result<Seq<LookupRecordView>, ResolveErrorView>;

pub open spec fn result_view(r: LookupResult) -> LookupResultView {
    match r {
        Ok(lookup) => Ok(lookup@),
        Err(kind) => Err(kind@),
    }
}

/// What the DNS actor is told.
#[derive(Debug, PartialEq, Eq)]
pub enum DnsMsg {
    /// A request of the client.
    Lookup(GetAddrInfoRequestV2),
    /// A lookup has resolved.
    Resolved { seq: u64, result: LookupResult },
}

/// What the DNS actor wants done.
#[derive(Debug, PartialEq, Eq)]
pub enum DnsAction {
    /// Look something up, and tell the result under this number.
    Start { seq: u64, request: GetAddrInfoRequestV2 },
    /// Send these messages to the client; if that fails, so does the actor.
    Answer(Vec<DaemonMessage>),
}

/// The actor that answers the DNS requests of one client.
pub struct DnsActor;

pub struct DnsState {
    pub next_seq: u64,
    /// Lookups that were requested but not yet answered to the client, in request order.
    /// The front is the next answer owed to the client.
    pub pending: VecDeque<(u64, Option<LookupResult>)>,
}

pub struct DnsView {
    pub next_seq: u64,
    pub pending: Seq<(u64, Option<LookupResultView>)>,
}

pub open spec fn slot_view(slot: (u64, Option<LookupResult>)) -> (u64, Option<LookupResultView>) {
    (
        slot.0,
        match slot.1 {
            Some(result) => Some(result_view(result)),
            None => None,
        },
    )
}

pub open spec fn pending_view(pending: Seq<(u64, Option<LookupResult>)>) -> Seq<
    (u64, Option<LookupResultView>),
> {
    pending.map_values(|slot: (u64, Option<LookupResult>)| slot_view(slot))
}

impl View for DnsState {
    type V = DnsView;

    open spec fn view(&self) -> DnsView {
        DnsView { next_seq: self.next_seq, pending: pending_view(self.pending@) }
    }
}

/// The position of the first slot for `seq`.
pub open spec fn slot_of(pending: Seq<(u64, Option<LookupResultView>)>, seq: u64) -> Option<int>
    decreases pending.len(),
{
    if pending.len() == 0 {
        None
    } else if pending[0].0 == seq {
        Some(0)
    } else {
        match slot_of(pending.skip(1), seq) {
            Some(i) => Some(i + 1),
            None => None,
        }
    }
}

/// The queue with `result` in the slot for `seq`, if there is one.
pub open spec fn parked(
    pending: Seq<(u64, Option<LookupResultView>)>,
    seq: u64,
    result: LookupResultView,
) -> Seq<(u64, Option<LookupResultView>)> {
    match slot_of(pending, seq) {
        Some(i) => pending.update(i, (seq, Some(result))),
        None => pending,
    }
}

/// The number of slots at the front of the queue that have a result.
pub open spec fn ready(pending: Seq<(u64, Option<LookupResultView>)>) -> nat
    decreases pending.len(),
{
    if pending.len() == 0 || pending[0].1 is None {
        0
    } else {
        1 + ready(pending.skip(1))
    }
}

/// The message that answers a lookup.
pub open spec fn answer(result: LookupResultView) -> DaemonMessageView {
    DaemonMessageView::GetAddrInfoResponse(
        match result {
            Ok(records) => Ok(records),
            Err(kind) => Err(ResponseErrorView::DnsLookup(kind)),
        },
    )
}

/// What is told to the client when the lookup `seq` has resolved: the answers that were
/// only waiting for it.
pub open spec fn released(
    pending: Seq<(u64, Option<LookupResultView>)>,
    seq: u64,
    result: LookupResultView,
) -> Seq<(u64, LookupResultView)> {
    let now = parked(pending, seq, result);
    Seq::new(ready(now), |i: int| (now[i].0, now[i].1->0))
}

/// The queue after the lookup `seq` has resolved.
pub open spec fn remaining(
    pending: Seq<(u64, Option<LookupResultView>)>,
    seq: u64,
    result: LookupResultView,
) -> Seq<(u64, Option<LookupResultView>)> {
    let now = parked(pending, seq, result);
    now.skip(ready(now) as int)
}

pub open spec fn answers_view(messages: Seq<DaemonMessage>) -> Seq<DaemonMessageView> {
    messages.map_values(|m: DaemonMessage| m@)
}

proof fn lemma_slot_of(pending: Seq<(u64, Option<LookupResultView>)>, seq: u64, i: int)
    requires
        0 <= i <= pending.len(),
        forall|k: int| 0 <= k < i ==> (#[trigger] pending[k]).0 != seq,
        i < pending.len() ==> pending[i].0 == seq,
    ensures
        slot_of(pending, seq) == (if i < pending.len() {
            Some(i)
        } else {
            None
        }),
    decreases i,
{
    if i > 0 {
        let rest = pending.skip(1);
        assert forall|k: int| 0 <= k < i - 1 implies (#[trigger] rest[k]).0 != seq by {
            assert(rest[k] == pending[k + 1]);
        }
        lemma_slot_of(rest, seq, i - 1);
    }
}

proof fn lemma_slot_of_found(pending: Seq<(u64, Option<LookupResultView>)>, seq: u64)
    ensures
        match slot_of(pending, seq) {
            Some(i) => 0 <= i < pending.len() && pending[i].0 == seq,
            None => forall|k: int| 0 <= k < pending.len() ==> (#[trigger] pending[k]).0 != seq,
        },
    decreases pending.len(),
{
    if pending.len() > 0 && pending[0].0 != seq {
        let rest = pending.skip(1);
        lemma_slot_of_found(rest, seq);
        assert forall|k: int| 0 < k < pending.len() implies pending[k] == rest[k - 1] by {}
        if slot_of(rest, seq) is None {
            assert forall|k: int| 0 <= k < pending.len() implies (#[trigger] pending[k]).0
                != seq by {
                if k > 0 {
                    assert(rest[k - 1].0 != seq);
                }
            }
        }
    }
}

proof fn lemma_ready(pending: Seq<(u64, Option<LookupResultView>)>)
    ensures
        ready(pending) <= pending.len(),
        forall|i: int| 0 <= i < ready(pending) ==> (#[trigger] pending[i]).1 is Some,
        ready(pending) < pending.len() ==> pending[ready(pending) as int].1 is None,
    decreases pending.len(),
{
    if pending.len() > 0 && pending[0].1 is Some {
        let rest = pending.skip(1);
        lemma_ready(rest);
        assert forall|i: int| 0 <= i < ready(pending) implies (#[trigger] pending[i]).1
            is Some by {
            if i > 0 {
                assert(rest[i - 1].1 is Some);
            }
        }
    }
}

impl DnsActor {
    pub fn pre_start() -> (r: DnsState)
        ensures
            r@.next_seq == 0,
            r@.pending == Seq::<(u64, Option<LookupResultView>)>::empty(),
    {
        let state = DnsState { next_seq: 0, pending: VecDeque::new() };
        assert(state@.pending =~= Seq::empty());
        state
    }

    pub fn handle(state: &mut DnsState, message: DnsMsg) -> (r: DnsAction)
        requires
            message is Lookup ==> old(state)@.next_seq < u64::MAX,
        ensures
            match message {
                DnsMsg::Lookup(request) => {
                    &&& r == (DnsAction::Start { seq: old(state)@.next_seq, request })
                    &&& final(state)@.next_seq == old(state)@.next_seq + 1
                    &&& final(state)@.pending == old(state)@.pending.push(
                        (old(state)@.next_seq, None),
                    )
                },
                DnsMsg::Resolved { seq, result } => {
                    &&& final(state)@.next_seq == old(state)@.next_seq
                    &&& final(state)@.pending == remaining(
                        old(state)@.pending,
                        seq,
                        result_view(result),
                    )
                    &&& r matches DnsAction::Answer(messages) && answers_view(messages@)
                        == released(old(state)@.pending, seq, result_view(result)).map_values(
                        |a: (u64, LookupResultView)| answer(a.1),
                    )
                },
            },
    {
        match message {
            DnsMsg::Lookup(request) => {
                let seq: u64 = Self::lookup(state);
                DnsAction::Start { seq, request }
            },
            DnsMsg::Resolved { seq, result } => DnsAction::Answer(
                Self::resolved(state, seq, result),
            ),
        }
    }

    /// Takes a request: its lookup is to be started under the returned number.
    fn lookup(state: &mut DnsState) -> (seq: u64)
        requires
            old(state)@.next_seq < u64::MAX,
        ensures
            seq == old(state)@.next_seq,
            final(state)@.next_seq == old(state)@.next_seq + 1,
            final(state)@.pending == old(state)@.pending.push((seq, None)),
    {
        let seq: u64 = state.next_seq;
        state.next_seq = seq + 1;
        state.pending.push_back((seq, None));
        assert(state@.pending =~= old(state)@.pending.push((seq, None)));
        seq
    }

    /// Parks the result of a lookup and returns the answers that are now due to the
    /// client. A result that nobody waits for is dropped.
    fn resolved(state: &mut DnsState, seq: u64, result: LookupResult) -> (r: Vec<
        DaemonMessage,
    >)
        ensures
            final(state)@.next_seq == old(state)@.next_seq,
            final(state)@.pending == remaining(old(state)@.pending, seq, result_view(result)),
            answers_view(r@) == released(old(state)@.pending, seq, result_view(result)).map_values(
                |a: (u64, LookupResultView)| answer(a.1),
            ),
    {
        let ghost before = state@.pending;
        let ghost result_seen = result_view(result);
        let mut i: usize = 0;
        while i < state.pending.len() && state.pending[i].0 != seq
            invariant
                i <= state.pending@.len(),
                state@ == old(state)@,
                before == state@.pending,
                forall|k: int| 0 <= k < i ==> (#[trigger] before[k]).0 != seq,
            decreases state.pending@.len() - i,
        {
            assert(before[i as int].0 != seq);
            i = i + 1;
        }
        proof {
            if i < before.len() {
                assert(before[i as int].0 == seq);
            }
            lemma_slot_of(before, seq, i as int);
        }
        let ghost now = parked(before, seq, result_seen);
        if i < state.pending.len() {
            let _ = state.pending.remove(i);
            state.pending.insert(i, (seq, Some(result)));
            assert(state@.pending =~= now);
        }
        let mut messages: Vec<DaemonMessage> = Vec::new();
        let ghost due = released(before, seq, result_seen).map_values(
            |a: (u64, LookupResultView)| answer(a.1),
        );
        proof {
            assert(now.skip(0) =~= now);
            lemma_ready(now);
        }
        loop
            invariant
                state@.next_seq == old(state)@.next_seq,
                messages@.len() <= ready(now),
                ready(now) <= now.len(),
                forall|k: int| 0 <= k < ready(now) ==> (#[trigger] now[k]).1 is Some,
                ready(now) < now.len() ==> now[ready(now) as int].1 is None,
                state@.pending == now.skip(messages@.len() as int),
                due == Seq::new(ready(now), |k: int| answer(now[k].1->0)),
                answers_view(messages@) == due.take(messages@.len() as int),
            ensures
                state@.pending == now.skip(ready(now) as int),
                state@.next_seq == old(state)@.next_seq,
                answers_view(messages@) == due,
            decreases now.len() - messages@.len(),
        {
            let ghost n = messages@.len() as int;
            if state.pending.len() == 0 || state.pending[0].1.is_none() {
                proof {
                    assert(state@.pending.len() == state.pending@.len());
                    if n < ready(now) {
                        assert(state@.pending[0] == now[n]);
                        assert(state@.pending[0] == slot_view(state.pending@[0]));
                    }
                    assert(due.take(n) =~= due);
                }
                break ;
            }
            proof {
                assert(state@.pending.len() == state.pending@.len());
                assert(state@.pending[0] == slot_view(state.pending@[0]));
                assert(state@.pending[0] == now[n]);
                assert(n < ready(now));
            }
            let ghost said = answers_view(messages@);
            let ghost queue = state.pending@;
            if let Some((_, Some(result))) = state.pending.pop_front() {
                let response: Result<DnsLookup, ResponseError> = match result {
                    Ok(lookup) => Ok(lookup),
                    Err(kind) => Err(ResponseError::DnsLookup(kind)),
                };
                messages.push(DaemonMessage::GetAddrInfoResponse(response));
                proof {
                    assert(now[n].1 == Some(result_view(result)));
                    assert(messages@[n]@ == answer(result_view(result)));
                    assert(answers_view(messages@) =~= said.push(answer(result_view(result))));
                    assert(due[n] == answer(now[n].1->0));
                    assert(due.take(n).push(due[n]) =~= due.take(n + 1));
                    assert forall|k: int| 0 <= k < state@.pending.len() implies #[trigger] state@.pending[k]
                        == now.skip(n + 1)[k] by {
                        assert(state@.pending[k] == slot_view(queue[k + 1]));
                        assert(pending_view(queue)[k + 1] == now.skip(n)[k + 1]);
                    }
                    assert(state@.pending =~= now.skip(n + 1));
                }
            }
        }
        messages
    }
}

// ---------------------------------------------------------------------------------
// Laws of the queue
// ---------------------------------------------------------------------------------

/// What happens to the DNS actor, in the order in which it happens.
pub enum DnsEvent {
    Lookup,
    Resolved { seq: u64, result: LookupResultView },
}

/// The state after some events, and the answers given on the way, each with the number
/// of its request.
pub open spec fn dns_run(events: Seq<DnsEvent>) -> (DnsView, Seq<(u64, LookupResultView)>)
    decreases events.len(),
{
    if events.len() == 0 {
        (DnsView { next_seq: 0, pending: Seq::empty() }, Seq::empty())
    } else {
        let (s, answers) = dns_run(events.drop_last());
        match events.last() {
            DnsEvent::Lookup => (
                DnsView {
                    next_seq: (s.next_seq + 1) as u64,
                    pending: s.pending.push((s.next_seq, None)),
                },
                answers,
            ),
            DnsEvent::Resolved { seq, result } => (
                DnsView { pending: remaining(s.pending, seq, result), ..s },
                answers + released(s.pending, seq, result),
            ),
        }
    }
}

/// The number of requests among the events.
pub open spec fn lookups(events: Seq<DnsEvent>) -> nat
    decreases events.len(),
{
    if events.len() == 0 {
        0
    } else {
        lookups(events.drop_last()) + if events.last() is Lookup {
            1nat
        } else {
            0
        }
    }
}

/// Whether the events brought this result for the request `seq` after it was made.
pub open spec fn brought(events: Seq<DnsEvent>, seq: u64, result: LookupResultView) -> bool {
    exists|i: int|
        0 <= i < events.len() && (#[trigger] events[i]) == (DnsEvent::Resolved { seq, result })
            && seq < lookups(events.take(i))
}

/// Whether the events brought a result for the request `seq` after it was made.
pub open spec fn has_resolved(events: Seq<DnsEvent>, seq: u64) -> bool {
    exists|result: LookupResultView| brought(events, seq, result)
}

proof fn lemma_brought_earlier(events: Seq<DnsEvent>, seq: u64, result: LookupResultView)
    requires
        events.len() > 0,
        brought(events.drop_last(), seq, result),
    ensures
        brought(events, seq, result),
{
    let earlier = events.drop_last();
    let i = choose|i: int|
        0 <= i < earlier.len() && (#[trigger] earlier[i]) == (DnsEvent::Resolved { seq, result })
            && seq < lookups(earlier.take(i));
    assert(events[i] == earlier[i]);
    assert(events.take(i) =~= earlier.take(i));
}

/// Answers go out strictly in request order, one per request: the n-th answer is that to
/// the n-th request, and every request that was not answered waits in the queue, in
/// order. An answer carries a result that was brought for its request, and no answer is
/// held back that could go out: the first request in the queue has no result yet.
pub proof fn law_answers_in_request_order(events: Seq<DnsEvent>)
    requires
        lookups(events) <= u64::MAX,
    ensures
        ({
            let (s, answers) = dns_run(events);
            &&& s.next_seq == lookups(events)
            &&& answers.len() + s.pending.len() == s.next_seq
            &&& forall|i: int| 0 <= i < answers.len() ==> (#[trigger] answers[i]).0 == i
            &&& forall|i: int|
                0 <= i < answers.len() ==> brought(events, i as u64, (#[trigger] answers[i]).1)
            &&& forall|i: int|
                0 <= i < s.pending.len() ==> (#[trigger] s.pending[i]).0 == answers.len() + i
            &&& forall|i: int|
                0 <= i < s.pending.len() && (#[trigger] s.pending[i]).1 is Some ==> brought(
                    events,
                    s.pending[i].0,
                    s.pending[i].1->0,
                )
            &&& s.pending.len() > 0 ==> s.pending[0].1 is None
        }),
    decreases events.len(),
{
    if events.len() > 0 {
        let earlier = events.drop_last();
        law_answers_in_request_order(earlier);
        let (s, answers) = dns_run(earlier);
        let (end, all) = dns_run(events);
        match events.last() {
            DnsEvent::Lookup => {
                assert forall|i: int| 0 <= i < all.len() implies brought(
                    events,
                    i as u64,
                    (#[trigger] all[i]).1,
                ) by {
                    lemma_brought_earlier(events, i as u64, answers[i].1);
                }
                assert forall|i: int|
                    0 <= i < end.pending.len() && (#[trigger] end.pending[i]).1
                        is Some implies brought(
                    events,
                    end.pending[i].0,
                    end.pending[i].1->0,
                ) by {
                    assert(end.pending[i] == s.pending[i]);
                    lemma_brought_earlier(events, s.pending[i].0, s.pending[i].1->0);
                }
            },
            DnsEvent::Resolved { seq, result } => {
                let now = parked(s.pending, seq, result);
                lemma_slot_of_found(s.pending, seq);
                lemma_ready(now);
                let k = ready(now) as int;
                assert(events.take(events.len() - 1) =~= earlier);
                assert forall|i: int| 0 <= i < now.len() && (#[trigger] now[i]).1 is Some implies
                    brought(events, now[i].0, now[i].1->0) by {
                    if slot_of(s.pending, seq) == Some(i) {
                        assert(events[events.len() - 1] == (DnsEvent::Resolved { seq, result }));
                        assert(seq < lookups(events.take(events.len() - 1)));
                    } else {
                        assert(now[i] == s.pending[i]);
                        lemma_brought_earlier(events, s.pending[i].0, s.pending[i].1->0);
                    }
                }
                assert forall|i: int| 0 <= i < now.len() implies (#[trigger] now[i]).0
                    == answers.len() + i by {
                    assert(s.pending[i].0 == answers.len() + i);
                }
                let out = released(s.pending, seq, result);
                assert forall|i: int| 0 <= i < all.len() implies (#[trigger] all[i]).0 == i
                    && brought(events, i as u64, all[i].1) by {
                    if i < answers.len() {
                        assert(all[i] == answers[i]);
                        lemma_brought_earlier(events, i as u64, answers[i].1);
                    } else {
                        let j = i - answers.len();
                        assert(all[i] == out[j]);
                        assert(now[j].1 is Some);
                    }
                }
                assert forall|i: int| 0 <= i < end.pending.len() implies #[trigger] end.pending[i]
                    == now[k + i] by {}
            },
        }
    }
}

/// A result that was brought after the request was made is not lost: the request is
/// answered, or waits in the queue with a result.
proof fn lemma_result_is_kept(events: Seq<DnsEvent>, seq: u64, result: LookupResultView)
    requires
        lookups(events) <= u64::MAX,
        brought(events, seq, result),
    ensures
        ({
            let (s, answers) = dns_run(events);
            seq < answers.len() || (seq - answers.len() < s.pending.len() && s.pending[seq
                - answers.len()].1 is Some)
        }),
    decreases events.len(),
{
    let earlier = events.drop_last();
    law_answers_in_request_order(earlier);
    law_answers_in_request_order(events);
    let (s, answers) = dns_run(earlier);
    let (end, all) = dns_run(events);
    let i = choose|i: int|
        0 <= i < events.len() && (#[trigger] events[i]) == (DnsEvent::Resolved { seq, result })
            && seq < lookups(events.take(i));
    if i < events.len() - 1 {
        assert(earlier[i] == events[i]);
        assert(earlier.take(i) =~= events.take(i));
        lemma_result_is_kept(earlier, seq, result);
    } else {
        assert(events.take(i) =~= earlier);
    }
    match events.last() {
        DnsEvent::Lookup => {},
        DnsEvent::Resolved { seq: other, result: brought_now } => {
            let now = parked(s.pending, other, brought_now);
            lemma_slot_of_found(s.pending, other);
            lemma_ready(now);
            if seq >= answers.len() {
                let at = seq - answers.len();
                assert(s.pending[at].0 == seq);
                if other == seq {
                    let found = slot_of(s.pending, seq);
                    assert(found is Some);
                    assert(s.pending[found->0].0 == answers.len() + found->0);
                    assert(found == Some(at));
                }
                assert(now[at].1 is Some);
                if at >= ready(now) {
                    assert(end.pending[at - ready(now)] == now[at]);
                }
            }
        },
    }
}

/// Every answer goes out as soon as it can: once all of the first `n` requests have had
/// a result, all of them are answered.
pub proof fn law_resolved_requests_are_answered(events: Seq<DnsEvent>, n: nat)
    requires
        lookups(events) <= u64::MAX,
        n <= lookups(events),
        forall|seq: u64| seq < n ==> #[trigger] has_resolved(events, seq),
    ensures
        dns_run(events).1.len() >= n,
{
    law_answers_in_request_order(events);
    let (s, answers) = dns_run(events);
    if answers.len() < n {
        let seq = answers.len() as u64;
        assert(has_resolved(events, seq));
        let result = choose|result: LookupResultView| brought(events, seq, result);
        lemma_result_is_kept(events, seq, result);
        assert(s.pending[0].1 is None);
    }
}

/// The messages that the client is sent, in order.
pub open spec fn dns_told(events: Seq<DnsEvent>) -> Seq<DaemonMessageView> {
    dns_run(events).1.map_values(|a: (u64, LookupResultView)| answer(a.1))
}

/// Whether a message tells a result: all the records that were found, in order, or why there
/// are none.
pub open spec fn tells(message: DaemonMessageView, result: LookupResultView) -> bool {
    message matches DaemonMessageView::GetAddrInfoResponse(told) && match result {
        Ok(records) => told matches Ok(r) && r.len() == records.len() && forall|i: int|
            0 <= i < r.len() ==> (#[trigger] r[i]).name == records[i].name && r[i].ip
                == records[i].ip,
        Err(kind) => told == Err::<Seq<LookupRecordView>, ResponseErrorView>(
            ResponseErrorView::DnsLookup(kind),
        ),
    }
}

/// The n-th message tells the client what was brought for its n-th request: every record that
/// was found, none left out and none added, or why the lookup failed.
pub proof fn law_answers_tell_what_was_brought(events: Seq<DnsEvent>, n: int)
    requires
        lookups(events) <= u64::MAX,
        0 <= n < dns_told(events).len(),
    ensures
        exists|result: LookupResultView| #[trigger]
            brought(events, n as u64, result) && tells(dns_told(events)[n], result),
        forall|result: LookupResultView|
            (forall|other: LookupResultView|
                #[trigger] brought(events, n as u64, other) ==> other == result)
                ==> #[trigger] tells(dns_told(events)[n], result),
{
    law_answers_in_request_order(events);
    let result = dns_run(events).1[n].1;
    assert(brought(events, n as u64, result) && tells(dns_told(events)[n], result));
}

/// A message holds the records of the lookup that it is made of, one by one, and no two
/// lookups that differ are told alike.
pub proof fn law_messages_hold_the_records(lookup: DnsLookup, kind: ResolveErrorKindInternal)
    ensures
        ({
            let message = DaemonMessage::GetAddrInfoResponse(Ok(lookup));
            &&& tells(message@, result_view(Ok(lookup)))
            &&& message@ matches DaemonMessageView::GetAddrInfoResponse(Ok(records))
                && records.len() == lookup.0@.len() && forall|i: int|
                0 <= i < records.len() ==> (#[trigger] records[i]).name == lookup.0@[i].name@
                    && records[i].ip == lookup.0@[i].ip
        }),
        tells(
            DaemonMessage::GetAddrInfoResponse(Err(ResponseError::DnsLookup(kind)))@,
            result_view(Err(kind)),
        ),
        DaemonMessage::GetAddrInfoResponse(Err(ResponseError::DnsLookup(kind)))@
            == DaemonMessageView::GetAddrInfoResponse(Err(ResponseErrorView::DnsLookup(kind@))),
{
}

/// Whether a message tells the outcome of a lookup: the same records, in the same order, or
/// the same reason why there are none.
pub open spec fn holds(message: DaemonMessage, result: LookupResult) -> bool {
    match result {
        Ok(lookup) => message matches DaemonMessage::GetAddrInfoResponse(Ok(told))
            && told.0@.len() == lookup.0@.len() && forall|i: int|
            0 <= i < told.0@.len() ==> (#[trigger] told.0@[i]).name@ == lookup.0@[i].name@
                && told.0@[i].ip == lookup.0@[i].ip,
        Err(kind) => message matches DaemonMessage::GetAddrInfoResponse(
            Err(ResponseError::DnsLookup(told)),
        ) && told@ == kind@,
    }
}

/// When a lookup has resolved, the client is sent the answers to the requests at the front of
/// the queue: one message for each, in order, up to the first that has not resolved. Each
/// tells the outcome of the very request, which is the one that just came for the request
/// that it came for, and the one that waited for all others. What is not answered stays in
/// the queue, with what came for it.
pub proof fn law_answers_are_for_their_requests(
    state: &mut DnsState,
    seq: u64,
    result: LookupResult,
    r: DnsAction,
    i: int,
)
    requires
        call_ensures(DnsActor::handle, (state, DnsMsg::Resolved { seq, result }), r),
        forall|a: int, b: int|
            0 <= a < b < old(state).pending@.len() ==> (#[trigger] old(state).pending@[a]).0 != (
            #[trigger] old(state).pending@[b]).0,
        0 <= i < old(state).pending@.len(),
    ensures
        ({
            let before = old(state).pending@;
            &&& r matches DnsAction::Answer(messages)
            &&& messages@.len() + final(state).pending@.len() == before.len()
            &&& i < messages@.len() ==> {
                &&& before[i].0 == seq || before[i].1 is Some
                &&& before[i].0 == seq ==> holds(messages@[i], result)
                &&& before[i].0 != seq ==> holds(messages@[i], before[i].1->0)
            }
            &&& i == messages@.len() ==> before[i].0 != seq && before[i].1 is None
            &&& i >= messages@.len() ==> {
                let slot = final(state).pending@[i - messages@.len()];
                &&& slot.0 == before[i].0
                &&& before[i].0 == seq ==> slot_view(slot).1 == Some(result_view(result))
                &&& before[i].0 != seq ==> slot_view(slot) == slot_view(before[i])
            }
        }),
{
    let before = pending_view(old(state).pending@);
    let now = parked(before, seq, result_view(result));
    lemma_slot_of_found(before, seq);
    lemma_ready(now);
    assert forall|k: int| 0 <= k < before.len() implies #[trigger] before[k] == slot_view(
        old(state).pending@[k],
    ) by {}
    assert forall|k: int| 0 <= k < before.len() && before[k].0 == seq implies slot_of(before, seq)
        == Some(k) by {
        let j = slot_of(before, seq)->0;
        assert(slot_of(before, seq) is Some);
        if j < k {
            assert(old(state).pending@[j].0 != old(state).pending@[k].0);
        }
        if k < j {
            assert(old(state).pending@[k].0 != old(state).pending@[j].0);
        }
    }
    if let DnsAction::Answer(messages) = r {
        let told = answers_view(messages@);
        let out = released(before, seq, result_view(result));
        assert(told.len() == messages@.len());
        assert(told.len() == ready(now));
        assert(final(state)@.pending.len() == final(state).pending@.len());
        if i < messages@.len() {
            assert(told[i] == messages@[i]@);
            assert(told[i] == answer(out[i].1));
            assert(out[i].1 == now[i].1->0);
            if before[i].0 == seq {
                lemma_holds(messages@[i], result);
            } else {
                assert(now[i] == before[i]);
                lemma_holds(messages@[i], old(state).pending@[i].1->0);
            }
        } else {
            let at = i - messages@.len();
            assert(final(state)@.pending[at] == now[i]);
            assert(final(state)@.pending[at] == slot_view(final(state).pending@[at]));
            if before[i].0 == seq {
                assert(now[i].0 == seq);
            }
        }
    }
}

proof fn lemma_holds(message: DaemonMessage, result: LookupResult)
    requires
        message@ == answer(result_view(result)),
    ensures
        holds(message, result),
{
    match (message, result) {
        (DaemonMessage::GetAddrInfoResponse(Ok(told)), Ok(lookup)) => {
            assert(told@.len() == told.0@.len() && lookup@.len() == lookup.0@.len());
            assert forall|i: int| 0 <= i < told.0@.len() implies (#[trigger] told.0@[i]).name@
                == lookup.0@[i].name@ && told.0@[i].ip == lookup.0@[i].ip by {
                assert(told@[i] == told.0@[i]@);
                assert(lookup@[i] == lookup.0@[i]@);
            }
        },
        (DaemonMessage::GetAddrInfoResponse(Err(ResponseError::DnsLookup(told))), Err(kind)) => {},
        (DaemonMessage::GetAddrInfoResponse(Err(ResponseError::RemoteIo(told))), Err(kind)) => {},
        _ => {},
    }
}

/// A request is looked up as it is, under a number that no request before it had, and waits
/// at the end of the queue.
pub proof fn law_requests_are_looked_up(
    state: &mut DnsState,
    request: GetAddrInfoRequestV2,
    r: DnsAction,
)
    requires
        call_ensures(DnsActor::handle, (state, DnsMsg::Lookup(request)), r),
    ensures
        r matches DnsAction::Start { seq, request: asked } && asked == request && seq
            == old(state).next_seq && final(state).next_seq == seq + 1,
        final(state).pending@.len() == old(state).pending@.len() + 1,
        final(state).pending@.last().0 == old(state).next_seq,
        final(state).pending@.last().1 is None,
{
    let before = old(state)@.pending;
    let after = final(state)@.pending;
    assert(after.len() == final(state).pending@.len());
    assert(before.len() == old(state).pending@.len());
    assert(after[after.len() - 1] == slot_view(final(state).pending@[after.len() - 1]));
}

/// The actor starts with nothing to answer, and counts requests from zero.
pub proof fn law_nothing_is_pending_at_first(start: DnsState)
    requires
        call_ensures(DnsActor::pre_start, (), start),
    ensures
        start.next_seq == 0,
        start.pending@.len() == 0,
{
    assert(start@.pending.len() == start.pending@.len());
}

} // verus!
