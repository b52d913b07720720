//! The shared dispatch queue: an ordered, unbounded FIFO of pending
//! operations.  Producers append at the tail; connection state machines claim
//! from the head without blocking, and a claimed operation is never re-queued.
//!
//! The queue value itself is sequential: the pool crosses the thread boundary
//! by holding it under one lock (the shell wraps the handle in a mutex), so
//! every push and claim is one serialized step, and the contracts here
//! describe each such step exactly.

use vstd::prelude::*;

verus! {

/// The payload of one client-issued request, as handed to the wire engine.
pub type Message = Vec<u8>;

/// The result value a completed request hands back to its submitter.
pub type Data = Vec<u8>;

#[verifier::external_type_specification]
#[verifier::external_body]
#[verifier::reject_recursive_types(T)]
pub struct ExSender<T>(futures::channel::oneshot::Sender<T>);

#[verifier::external_type_specification]
#[verifier::external_body]
#[verifier::reject_recursive_types(T)]
pub struct ExReceiver<T>(futures::channel::oneshot::Receiver<T>);

#[verifier::external_type_specification]
#[verifier::external_body]
pub struct ExCanceled(futures::channel::oneshot::Canceled);

/// The write side of one submission's one-shot result channel, carried by the
/// queued operation to whichever connection claims it.  `pair_id` is the
/// ghost identity of the channel this sink was created in: it ties the sink
/// to the pending result handed back to the submitter.
pub struct CompletionSink {
    pub sender: futures::channel::oneshot::Sender<Data>,
    pub pair_id: Ghost<int>,
}

/// The read side handed back to the submitter: a future that resolves to the
/// value sent through the sink of the same pair — the one with equal
/// `pair_id` — or to a cancellation if that sink is dropped unfulfilled.
pub struct PendingResult {
    pub receiver: futures::channel::oneshot::Receiver<Data>,
    pub pair_id: Ghost<int>,
}

/// One client-submitted unit of work awaiting dispatch to a connection.
///
/// `sink` is the write side of the submitter's one-shot result channel, or
/// `None` for a fire-and-forget submission.  The sender is consumed by
/// fulfilment, so an operation's result can be delivered at most once.
pub struct Operation {
    pub msg: Message,
    pub sink: Option<CompletionSink>,
}

/// A FIFO of pending operations.  Pop order equals push order across all
/// producers, and each operation is returned to at most one claimant.  Shared
/// across threads only under the pool's lock, which serializes the steps the
/// contracts below describe.
pub struct Queue {
    items: Vec<Operation>,
}

impl View for Queue {
    type V = Seq<Operation>;

    closed spec fn view(&self) -> Seq<Operation> {
        self.items@
    }
}

/// What one claim attempt yields on queue contents `q`: the head operation and
/// the remaining queue, or nothing when the queue is empty.
pub open spec fn pop_model(q: Seq<Operation>) -> (Option<Operation>, Seq<Operation>) {
    if q.len() == 0 {
        (None::<Operation>, q)
    } else {
        (Some(q[0]), q.drop_first())
    }
}

/// The operations returned by `k` successive claim attempts on queue
/// contents `q`.
pub open spec fn claims_of(q: Seq<Operation>, k: int) -> Seq<Operation>
    decreases k,
{
    if k <= 0 || q.len() == 0 {
        Seq::<Operation>::empty()
    } else {
        seq![q[0]] + claims_of(q.drop_first(), k - 1)
    }
}

/// The queue contents left after `k` successive claim attempts on `q`.
pub open spec fn remaining_after(q: Seq<Operation>, k: int) -> Seq<Operation>
    decreases k,
{
    if k <= 0 || q.len() == 0 {
        q
    } else {
        remaining_after(q.drop_first(), k - 1)
    }
}

impl Queue {
    /// Creates an empty queue.
    pub fn new() -> (q: Queue)
        ensures
            q@ == Seq::<Operation>::empty(),
    {
        Queue { items: Vec::new() }
    }

    /// Appends `op` at the tail, making it visible to claimants after every
    /// operation pushed before it.  Unbounded: never fails.
    pub fn push(&mut self, op: Operation)
        ensures
            final(self)@ == old(self)@.push(op),
    {
        self.items.push(op);
    }

    /// Removes and hands back the head if one is present, else yields `None`
    /// and leaves the queue unchanged.  Never blocks; the head is handed to
    /// exactly this caller and is gone from the queue.
    pub fn try_pop(&mut self) -> (r: Option<Operation>)
        ensures
            (r, final(self)@) == pop_model(old(self)@),
            old(self)@.len() == 0 ==> r is None && final(self)@ == old(self)@,
            old(self)@.len() > 0 ==> r == Some(old(self)@[0]) && final(self)@ == old(self)@.drop_first(),
    {
        if self.items.len() == 0 {
            None
        } else {
            let op = self.items.remove(0);
            proof {
                assert(final(self)@ =~= old(self)@.drop_first());
            }
            Some(op)
        }
    }

    /// The number of operations waiting to be claimed.
    pub fn len(&self) -> (n: usize)
        ensures
            n == self@.len(),
    {
        self.items.len()
    }
}

/// FIFO claim order: once pushes are fully applied, so that the queue holds
/// the operations in submission order, successive claims return exactly those
/// operations in exactly that order.
pub proof fn lemma_fifo_claim_order(q: Seq<Operation>, k: int)
    requires
        0 <= k <= q.len(),
    ensures
        claims_of(q, k) == q.take(k),
        remaining_after(q, k) == q.skip(k),
    decreases k,
{
    if k <= 0 || q.len() == 0 {
        assert(claims_of(q, k) =~= q.take(k));
        assert(remaining_after(q, k) =~= q.skip(k));
    } else {
        lemma_fifo_claim_order(q.drop_first(), k - 1);
        assert(claims_of(q, k) =~= q.take(k));
        assert(remaining_after(q, k) =~= q.skip(k));
    }
}

/// At-most-one claim: the first `k` claims on queue contents `q` take the
/// operations at `k` distinct queue positions (claim number `i` is the
/// operation at position `i`), and together with what is still queued they
/// make up the original queue exactly — no operation is handed to two
/// claimants and none is lost.
pub proof fn lemma_at_most_one_claim(q: Seq<Operation>, k: int)
    requires
        0 <= k <= q.len(),
    ensures
        claims_of(q, k) + remaining_after(q, k) == q,
        claims_of(q, k).len() == k,
        forall|i: int| 0 <= i < k ==> claims_of(q, k)[i] == q[i],
{
    lemma_fifo_claim_order(q, k);
    assert(q.take(k) + q.skip(k) =~= q);
    assert(forall|i: int| 0 <= i < k ==> q.take(k)[i] == q[i]);
}

} // verus!
