//! Memory budgets for client data buffered inside the agent.
//!
//! Mailboxes are unbounded, so data must not be put into them without limit - a fast peer
//! (or client) could otherwise balloon the agent's memory. Every data chunk travelling
//! through the agent reserves its size from a per-client, per-direction [`MemoryBudget`]
//! *before* it is put into a mailbox, and carries the resulting [`BudgetPermit`] along. The
//! permit is given back only after the chunk has left the agent, which caps the total bytes
//! in flight; the laws of `transit` prove that of the way of all data.

use std::sync::Arc;
use tokio::sync::{OwnedSemaphorePermit, Semaphore};
use vstd::prelude::*;

verus! {

/// How much peer->client data one client session can buffer in memory.
pub const TO_CLIENT_LIMIT: usize = 512 * 1024;

/// How much client->peer data one client session can buffer in memory.
pub const FROM_CLIENT_LIMIT: usize = 512 * 1024;

/// `tokio::sync::Semaphore`, an asynchronous counting semaphore.
#[verifier::external_type_specification]
#[verifier::external_body]
pub struct ExSemaphore(tokio::sync::Semaphore);

/// The number of permits that a semaphore was made with.
pub uninterp spec fn permits_made(s: Semaphore) -> nat;

/// The largest number of permits that a semaphore can be made with.
pub open spec fn max_permits() -> nat {
    (usize::MAX / 8) as nat
}

/// Makes a semaphore with the given number of permits, with `Semaphore::new`. It panics if
/// there are more than `Semaphore::MAX_PERMITS`, an eighth of the range of `usize`. What it
/// makes is a semaphore of its own, with its own count of permits, and none that was there
/// before: in particular it is not `other`.
#[allow(unused_variables)]
#[verifier::external_body]
fn new_semaphore(permits: usize, other: Option<&Semaphore>) -> (s: Semaphore)
    requires
        permits <= max_permits(),
    ensures
        permits_made(s) == permits,
        other matches Some(o) ==> s != *o,
{
    Semaphore::new(permits)
}

/// `tokio::sync::OwnedSemaphorePermit`, permits taken out of a semaphore. When it is dropped,
/// they go back.
#[verifier::external_type_specification]
#[verifier::external_body]
pub struct ExOwnedSemaphorePermit(tokio::sync::OwnedSemaphorePermit);

/// How many permits were taken out of a semaphore.
pub uninterp spec fn permits_held(p: OwnedSemaphorePermit) -> nat;

/// `OwnedSemaphorePermit::num_permits` tells how many permits were taken.
pub assume_specification[ tokio::sync::OwnedSemaphorePermit::num_permits ](
    p: &OwnedSemaphorePermit,
) -> (n: usize)
    ensures
        n == permits_held(*p),
;

/// How many permits were taken out of a semaphore altogether.
pub open spec fn held_together(permits: Seq<OwnedSemaphorePermit>) -> nat
    decreases permits.len(),
{
    if permits.len() == 0 {
        0
    } else {
        held_together(permits.drop_last()) + permits_held(permits.last())
    }
}

/// Byte budget shared by all data of one direction of one client session.
///
/// Clones share the same underlying budget.
pub struct MemoryBudget {
    semaphore: Arc<Semaphore>,
    max: usize,
}

/// Permits to be acquired from a semaphore, and to be held together.
pub struct Reservation {
    pub semaphore: Arc<Semaphore>,
    pub permits: usize,
}

/// How many permits stand for a chunk of `bytes` bytes in a budget of `max`: one for each
/// byte, but no more than the whole budget.
pub open spec fn reserved(max: nat, bytes: nat) -> nat {
    if bytes < max {
        bytes
    } else {
        max
    }
}

impl Reservation {
    /// How many permits to acquire next, when `held` of them are held already. A semaphore
    /// gives out no more than `u32::MAX` at once. All are held when there is none to acquire.
    pub fn next_step(&self, held: usize) -> (r: u32)
        requires
            held <= self.permits,
        ensures
            r == reserved(u32::MAX as nat, (self.permits - held) as nat),
    {
        let left: usize = self.permits - held;
        if left < u32::MAX as usize {
            left as u32
        } else {
            u32::MAX
        }
    }

    /// What was reserved, once these permits were acquired for it. There is nothing reserved
    /// unless they are as many as were to be acquired.
    pub fn granted(&self, permits: Vec<OwnedSemaphorePermit>) -> (r: Option<BudgetPermit>)
        ensures
            r is Some <==> held_together(permits@) == self.permits,
            r matches Some(permit) ==> permit.permits() == permits@ && permit.held()
                == self.permits,
    {
        let mut amount: usize = 0;
        let mut i: usize = 0;
        while i < permits.len()
            invariant
                i <= permits@.len(),
                amount == held_together(permits@.take(i as int)),
            decreases permits@.len() - i,
        {
            assert(permits@.take(i + 1).drop_last() =~= permits@.take(i as int));
            proof {
                lemma_held_grows(permits@, i + 1);
            }
            amount = match amount.checked_add(permits[i].num_permits()) {
                Some(sum) => sum,
                None => {
                    return None;
                },
            };
            i = i + 1;
        }
        assert(permits@.take(permits@.len() as int) =~= permits@);
        if amount == self.permits {
            Some(BudgetPermit { permits, amount })
        } else {
            None
        }
    }
}

proof fn lemma_held_grows(permits: Seq<OwnedSemaphorePermit>, n: int)
    requires
        0 <= n <= permits.len(),
    ensures
        held_together(permits.take(n)) <= held_together(permits),
    decreases permits.len(),
{
    if n < permits.len() {
        lemma_held_grows(permits.drop_last(), n);
        assert(permits.drop_last().take(n) =~= permits.take(n));
    } else {
        assert(permits.take(n) =~= permits);
    }
}

/// Proof of a [`MemoryBudget`] reservation. Returns the bytes to the budget on drop.
#[derive(Debug)]
#[allow(dead_code)]
pub struct BudgetPermit {
    /// Kept for their drop.
    permits: Vec<OwnedSemaphorePermit>,
    /// How many permits these are.
    amount: usize,
}

impl BudgetPermit {
    /// The permits that were acquired.
    pub closed spec fn permits(self) -> Seq<OwnedSemaphorePermit> {
        self.permits@
    }

    /// How many bytes of the budget are reserved.
    pub open spec fn held(self) -> nat {
        held_together(self.permits())
    }

    #[verifier::type_invariant]
    closed spec fn inv(self) -> bool {
        self.amount == held_together(self.permits@)
    }
}

/// Two reservations are worth the same if they are of as many bytes.
impl PartialEq for BudgetPermit {
    fn eq(&self, other: &BudgetPermit) -> (r: bool) {
        proof {
            use_type_invariant(self);
            use_type_invariant(other);
        }
        self.amount == other.amount
    }
}

impl vstd::std_specs::cmp::PartialEqSpecImpl for BudgetPermit {
    open spec fn obeys_eq_spec() -> bool {
        true
    }

    open spec fn eq_spec(&self, other: &BudgetPermit) -> bool {
        self.held() == other.held()
    }
}

impl Eq for BudgetPermit {

}

impl MemoryBudget {
    /// The semaphore that the budget goes by.
    pub closed spec fn semaphore(self) -> Semaphore {
        *self.semaphore
    }

    /// The size of the budget.
    pub open spec fn limit(self) -> nat {
        permits_made(self.semaphore())
    }

    #[verifier::type_invariant]
    closed spec fn inv(self) -> bool {
        self.max == permits_made(*self.semaphore)
    }

    pub fn new(max: usize) -> (r: MemoryBudget)
        requires
            max <= max_permits(),
        ensures
            r.limit() == max,
    {
        MemoryBudget { semaphore: Arc::new(new_semaphore(max, None)), max }
    }

    /// A new budget that is apart from this one: what is reserved from one of them takes
    /// nothing from the other.
    pub fn new_apart(&self, max: usize) -> (r: MemoryBudget)
        requires
            max <= max_permits(),
        ensures
            r.limit() == max,
            r.semaphore() != self.semaphore(),
    {
        MemoryBudget { semaphore: Arc::new(new_semaphore(max, Some(&self.semaphore))), max }
    }

    /// What to acquire in order to reserve `bytes` from this budget.
    ///
    /// Reservations larger than the whole budget are clamped, so a single oversized chunk
    /// cannot deadlock the session.
    pub fn reserve(&self, bytes: usize) -> (r: Reservation)
        ensures
            *r.semaphore == self.semaphore(),
            r.permits == reserved(self.limit(), bytes as nat),
            r.permits <= permits_made(*r.semaphore),
    {
        proof {
            use_type_invariant(self);
        }
        let permits: usize = if bytes < self.max {
            bytes
        } else {
            self.max
        };
        Reservation { semaphore: self.semaphore.clone(), permits }
    }
}

impl Clone for MemoryBudget {
    fn clone(&self) -> (r: MemoryBudget)
        ensures
            r.semaphore() == self.semaphore(),
            r.limit() == self.limit(),
    {
        proof {
            use_type_invariant(self);
        }
        MemoryBudget { semaphore: self.semaphore.clone(), max: self.max }
    }
}

/// The total size of some chunks.
pub open spec fn total(chunks: Seq<nat>) -> nat
    decreases chunks.len(),
{
    if chunks.len() == 0 {
        0
    } else {
        total(chunks.drop_last()) + chunks.last()
    }
}

/// How many permits some chunks hold together.
pub open spec fn total_reserved(max: nat, chunks: Seq<nat>) -> nat
    decreases chunks.len(),
{
    if chunks.len() == 0 {
        0
    } else {
        total_reserved(max, chunks.drop_last()) + reserved(max, chunks.last())
    }
}

proof fn lemma_total_reserved(max: nat, chunks: Seq<nat>)
    requires
        forall|i: int| 0 <= i < chunks.len() ==> #[trigger] chunks[i] <= max,
    ensures
        total_reserved(max, chunks) == total(chunks),
    decreases chunks.len(),
{
    if chunks.len() > 0 {
        let earlier = chunks.drop_last();
        assert forall|i: int| 0 <= i < earlier.len() implies #[trigger] earlier[i] <= max by {
            assert(earlier[i] == chunks[i]);
        }
        lemma_total_reserved(max, earlier);
    }
}

proof fn lemma_reserved_by_each(max: nat, chunks: Seq<nat>, i: int)
    requires
        0 <= i < chunks.len(),
    ensures
        reserved(max, chunks[i]) <= total_reserved(max, chunks),
    decreases chunks.len(),
{
    if i < chunks.len() - 1 {
        lemma_reserved_by_each(max, chunks.drop_last(), i);
    }
}

proof fn lemma_reserved_by_two(max: nat, chunks: Seq<nat>, i: int, j: int)
    requires
        0 <= i < j < chunks.len(),
    ensures
        reserved(max, chunks[i]) + reserved(max, chunks[j]) <= total_reserved(max, chunks),
    decreases chunks.len(),
{
    if j < chunks.len() - 1 {
        lemma_reserved_by_two(max, chunks.drop_last(), i, j);
    } else {
        lemma_reserved_by_each(max, chunks.drop_last(), i);
    }
}

proof fn lemma_reserved_without(max: nat, chunks: Seq<nat>, i: int)
    requires
        0 <= i < chunks.len(),
    ensures
        total_reserved(max, chunks) == total_reserved(max, chunks.remove(i)) + reserved(
            max,
            chunks[i],
        ),
    decreases chunks.len(),
{
    let earlier = chunks.drop_last();
    if i < chunks.len() - 1 {
        lemma_reserved_without(max, earlier, i);
        assert(chunks.remove(i).drop_last() =~= earlier.remove(i));
    } else {
        assert(chunks.remove(i) =~= earlier);
    }
}

/// What is done to budgets.
pub enum BudgetOp {
    /// A chunk of this size is granted its reservation, asked for through a budget.
    Reserve { through: MemoryBudget, bytes: nat },
    /// The permits of one of the chunks in flight are dropped.
    Drop { through: MemoryBudget, chunk: int },
}

/// The semaphore that an operation is on.
pub open spec fn semaphore_of(op: BudgetOp) -> Semaphore {
    match op {
        BudgetOp::Reserve { through, .. } => through.semaphore(),
        BudgetOp::Drop { through, .. } => through.semaphore(),
    }
}

/// A budget in use.
#[verifier::ext_equal]
pub struct BudgetUse {
    /// The permits left in the semaphore.
    pub free: nat,
    /// The sizes of the chunks in flight.
    pub in_flight: Seq<nat>,
}

/// Whether something can be done to a budget in use: a reservation is granted only where
/// enough is free.
pub open spec fn can_do(u: BudgetUse, op: BudgetOp) -> bool {
    match op {
        BudgetOp::Reserve { through, bytes } => reserved(through.limit(), bytes) <= u.free,
        BudgetOp::Drop { chunk, .. } => 0 <= chunk < u.in_flight.len(),
    }
}

/// What becomes of a budget in use: a reservation takes its permits out of the semaphore, and
/// a drop puts those of its chunk back.
pub open spec fn do_op(u: BudgetUse, op: BudgetOp) -> BudgetUse {
    match op {
        BudgetOp::Reserve { through, bytes } => BudgetUse {
            free: (u.free - reserved(through.limit(), bytes)) as nat,
            in_flight: u.in_flight.push(bytes),
        },
        BudgetOp::Drop { through, chunk } => BudgetUse {
            free: u.free + reserved(through.limit(), u.in_flight[chunk]),
            in_flight: u.in_flight.remove(chunk),
        },
    }
}

/// A budget after some operations. Those on the budget and its clones count, which share one
/// semaphore; those on others do not.
pub open spec fn after_ops(budget: MemoryBudget, ops: Seq<BudgetOp>) -> BudgetUse
    decreases ops.len(),
{
    if ops.len() == 0 {
        BudgetUse { free: budget.limit(), in_flight: Seq::empty() }
    } else {
        let before = after_ops(budget, ops.drop_last());
        if semaphore_of(ops.last()) == budget.semaphore() {
            do_op(before, ops.last())
        } else {
            before
        }
    }
}

/// Whether each of some operations on a budget and its clones could be done when it was.
pub open spec fn could_do(budget: MemoryBudget, ops: Seq<BudgetOp>) -> bool
    decreases ops.len(),
{
    ops.len() == 0 || {
        &&& could_do(budget, ops.drop_last())
        &&& semaphore_of(ops.last()) == budget.semaphore() ==> can_do(
            after_ops(budget, ops.drop_last()),
            ops.last(),
        )
    }
}

/// However reservations on a budget and its clones and their drops interleave, each chunk in
/// flight holds a permit per byte, up to the whole budget, and all of them together never
/// hold more than the budget. What they do not hold is free.
pub proof fn law_the_budget_is_never_exceeded(budget: MemoryBudget, ops: Seq<BudgetOp>)
    requires
        could_do(budget, ops),
    ensures
        ({
            let u = after_ops(budget, ops);
            &&& total_reserved(budget.limit(), u.in_flight) <= budget.limit()
            &&& u.free + total_reserved(budget.limit(), u.in_flight) == budget.limit()
        }),
    decreases ops.len(),
{
    if ops.len() > 0 {
        law_the_budget_is_never_exceeded(budget, ops.drop_last());
        let before = after_ops(budget, ops.drop_last());
        if semaphore_of(ops.last()) == budget.semaphore() {
            match ops.last() {
                BudgetOp::Reserve { through, bytes } => {
                    assert(before.in_flight.push(bytes).drop_last() =~= before.in_flight);
                },
                BudgetOp::Drop { through, chunk } => {
                    lemma_reserved_without(budget.limit(), before.in_flight, chunk);
                },
            }
        }
    }
}

/// A drop gives back exactly what the chunk held, whatever was reserved and dropped since:
/// that much more is free, and the other chunks hold what they held.
pub proof fn law_a_drop_gives_back_what_was_held(
    budget: MemoryBudget,
    ops: Seq<BudgetOp>,
    through: MemoryBudget,
    chunk: int,
)
    requires
        could_do(budget, ops.push(BudgetOp::Drop { through, chunk })),
        through.semaphore() == budget.semaphore(),
    ensures
        ({
            let before = after_ops(budget, ops);
            let after = after_ops(budget, ops.push(BudgetOp::Drop { through, chunk }));
            &&& after.in_flight == before.in_flight.remove(chunk)
            &&& after.free == before.free + reserved(budget.limit(), before.in_flight[chunk])
            &&& total_reserved(budget.limit(), before.in_flight) == total_reserved(
                budget.limit(),
                after.in_flight,
            ) + reserved(budget.limit(), before.in_flight[chunk])
        }),
{
    let drop = BudgetOp::Drop { through, chunk };
    assert(ops.push(drop).drop_last() =~= ops);
    lemma_reserved_without(budget.limit(), after_ops(budget, ops).in_flight, chunk);
}

/// Budgets that are apart do not hold each other up: what is done to one leaves the other as
/// it is, and while nothing of a budget is in flight, a chunk of any size is granted its
/// reservation, whatever the other has in flight.
pub proof fn law_budgets_apart_do_not_wait_for_each_other(
    budget: MemoryBudget,
    other: MemoryBudget,
    ops: Seq<BudgetOp>,
    op: BudgetOp,
    bytes: nat,
)
    requires
        other.semaphore() != budget.semaphore(),
        semaphore_of(op) == other.semaphore(),
        could_do(budget, ops),
    ensures
        after_ops(budget, ops.push(op)) == after_ops(budget, ops),
        after_ops(budget, ops).in_flight.len() == 0 ==> can_do(
            after_ops(budget, ops.push(op)),
            BudgetOp::Reserve { through: budget, bytes },
        ),
{
    assert(ops.push(op).drop_last() =~= ops);
    law_the_budget_is_never_exceeded(budget, ops);
}

/// The budget caps the bytes in flight: at any time the chunks in flight are no larger than
/// the budget together, or one chunk that is larger than the whole budget is in flight with
/// no other data beside it.
pub proof fn law_bytes_in_flight_are_capped(budget: MemoryBudget, ops: Seq<BudgetOp>)
    requires
        0 < budget.limit(),
        could_do(budget, ops),
    ensures
        ({
            let chunks = after_ops(budget, ops).in_flight;
            total(chunks) <= budget.limit() || exists|i: int|
                0 <= i < chunks.len() && #[trigger] chunks[i] > budget.limit() && forall|j: int|
                    0 <= j < chunks.len() && j != i ==> #[trigger] chunks[j] == 0
        }),
{
    law_the_budget_is_never_exceeded(budget, ops);
    lemma_bytes_are_capped(budget.limit(), after_ops(budget, ops).in_flight);
}

/// Chunks whose reservations fit into a budget together are no larger than it together,
/// unless one of them is larger than the whole budget and the others are empty.
pub proof fn lemma_bytes_are_capped(max: nat, chunks: Seq<nat>)
    requires
        0 < max,
        total_reserved(max, chunks) <= max,
    ensures
        total(chunks) <= max || exists|i: int|
            0 <= i < chunks.len() && #[trigger] chunks[i] > max && forall|j: int|
                0 <= j < chunks.len() && j != i ==> #[trigger] chunks[j] == 0,
{
    if exists|i: int| 0 <= i < chunks.len() && #[trigger] chunks[i] > max {
        let i = choose|i: int| 0 <= i < chunks.len() && #[trigger] chunks[i] > max;
        assert forall|j: int| 0 <= j < chunks.len() && j != i implies #[trigger] chunks[j]
            == 0 by {
            if i < j {
                lemma_reserved_by_two(max, chunks, i, j);
            } else {
                lemma_reserved_by_two(max, chunks, j, i);
            }
        }
    } else {
        lemma_total_reserved(max, chunks);
    }
}

/// No chunk waits forever for its reservation: it never needs more than the whole budget, and
/// it gets all that it asks for if the budget is that large. One that is larger gets the whole
/// budget.
pub proof fn law_every_chunk_fits(max: nat, bytes: nat)
    ensures
        reserved(max, bytes) <= max,
        bytes <= max ==> reserved(max, bytes) == bytes,
        bytes >= max ==> reserved(max, bytes) == max,
{
}

/// A reservation is acquired step by step: each step takes as much as a semaphore gives at
/// once, or all that is left, and the last one brings exactly what was to be reserved. What is
/// then granted is worth as much, and nothing else is granted.
pub proof fn law_steps_lead_to_the_reservation(
    reservation: Reservation,
    held: usize,
    step: u32,
    permits: Vec<OwnedSemaphorePermit>,
    granted: Option<BudgetPermit>,
)
    requires
        held <= reservation.permits,
        call_ensures(Reservation::next_step, (&reservation, held), step),
        call_ensures(Reservation::granted, (&reservation, permits), granted),
    ensures
        held + step <= reservation.permits,
        step == 0 <==> held == reservation.permits,
        step < u32::MAX ==> held + step == reservation.permits,
        granted is Some <==> held_together(permits@) == reservation.permits,
        granted matches Some(permit) ==> permit.held() == reservation.permits,
{
}

/// What is to be reserved comes out of the budget that it is asked of, and out of that of its
/// clones alike. It is as much as there are bytes, or the whole budget if that is less.
pub proof fn law_reservations_come_out_of_their_budget(
    budget: MemoryBudget,
    bytes: usize,
    reservation: Reservation,
    copy: MemoryBudget,
)
    requires
        call_ensures(MemoryBudget::reserve, (&budget, bytes), reservation),
        call_ensures(MemoryBudget::clone, (&budget,), copy),
    ensures
        *reservation.semaphore == budget.semaphore(),
        copy.semaphore() == budget.semaphore(),
        bytes <= budget.limit() ==> reservation.permits == bytes,
        bytes >= budget.limit() ==> reservation.permits == budget.limit(),
{
}

/// A budget is as large as it is made, and one that is made apart from another has nothing in
/// common with it.
pub proof fn law_budgets_are_as_large_as_they_are_made(
    max: usize,
    budget: MemoryBudget,
    other_max: usize,
    apart: MemoryBudget,
)
    requires
        call_ensures(MemoryBudget::new, (max,), budget),
        call_ensures(MemoryBudget::new_apart, (&budget, other_max), apart),
    ensures
        budget.limit() == max,
        apart.limit() == other_max,
        apart.semaphore() != budget.semaphore(),
{
}

} // verus!
