//! The producer-facing handle: submits operations to the shared queue and
//! fans a wakeup signal out to every registered connection after each push.
//! Over-notification is intentional — waking every connection when only one
//! can win the claim keeps dispatch latency low, and a wakeup is cheap and
//! idempotent.

use vstd::prelude::*;
use crate::queue::{CompletionSink, Message, Operation, PendingResult, Queue};

verus! {

#[verifier::external_type_specification]
#[verifier::external_body]
#[verifier::reject_recursive_types(T)]
pub struct ExMpscSender<T>(std::sync::mpsc::Sender<T>);

#[verifier::external_type_specification]
#[verifier::external_body]
#[verifier::reject_recursive_types(T)]
pub struct ExMpscReceiver<T>(std::sync::mpsc::Receiver<T>);

/// The read side of one connection's wakeup channel: the reactor driver waits
/// on it while the connection sleeps.
pub type WakeupReceiver = std::sync::mpsc::Receiver<()>;

/// A signal target registered per connection: invoking it prompts that
/// connection's driver to re-check the queue.  Invocation never blocks and is
/// idempotent — an extra wakeup at worst causes one redundant queue check.
pub struct Notifier {
    tx: std::sync::mpsc::Sender<()>,
}

impl Notifier {
    /// Creates a notifier together with the receive side its connection's
    /// driver waits on.
    ///
    /// Relies on std::sync::mpsc::channel: the two halves of a fresh
    /// asynchronous channel.
    #[verifier::external_body]
    pub fn new() -> (r: (Notifier, WakeupReceiver)) {
        let (tx, rx) = std::sync::mpsc::channel();
        (Notifier { tx }, rx)
    }

    /// Signals the connection.  Fails only when the connection's driver is
    /// gone; delivery is best-effort and a missed signal is made up for by
    /// the sleep-timer re-check.
    ///
    /// Relies on std::sync::mpsc::Sender::send: never blocks, and errs
    /// exactly when the receiver has been dropped.
    #[verifier::external_body]
    pub fn wakeup(&self) -> (r: Result<(), ()>) {
        match self.tx.send(()) {
            Ok(()) => Ok(()),
            Err(_) => Err(()),
        }
    }
}

/// Creates the two halves of a fresh one-shot result channel: the sink an
/// operation carries to its connection, and the future handed back to the
/// submitter.  The two halves carry the same pair identity and no other
/// channel's halves carry it.
///
/// Relies on futures::channel::oneshot::channel: a fresh sender/receiver
/// pair; the value later passed to `Sender::send` is what the receiver
/// resolves to, and `send` consumes the sender, so the pair delivers at most
/// one value.
#[verifier::external_body]
fn completion_pair() -> (r: (CompletionSink, PendingResult))
    ensures
        r.0.pair_id == r.1.pair_id,
{
    let (tx, rx) = futures::channel::oneshot::channel();
    (CompletionSink { sender: tx, pair_id: Ghost(0int) }, PendingResult { receiver: rx, pair_id: Ghost(0int) })
}

/// A client-side handle to send request messages to a running pool.
///
/// It owns the shared dispatch queue for the pool's lifetime and the list of
/// registered wakeup targets; connection drivers reach the queue through
/// [`Handle::queue_mut`].
pub struct Handle {
    queue: Queue,
    notifiers: Vec<Notifier>,
}

impl View for Handle {
    type V = Seq<Operation>;

    /// A handle is observed through the contents of its queue.
    closed spec fn view(&self) -> Seq<Operation> {
        self.queue@
    }
}

impl Handle {
    /// The registered wakeup targets, in registration order.
    pub closed spec fn notifier_seq(&self) -> Seq<Notifier> {
        self.notifiers@
    }

    /// The number of registered wakeup targets.
    pub open spec fn listeners(&self) -> int {
        self.notifier_seq().len() as int
    }

    /// Creates a new handle around the pool's queue, with no listeners.
    pub fn new(queue: Queue) -> (h: Handle)
        ensures
            h@ == queue@,
            h.notifier_seq() == Seq::<Notifier>::empty(),
    {
        Handle { queue, notifiers: Vec::new() }
    }

    /// Adds a machine as a listener on this handle's queue: its notifier will
    /// be invoked after every subsequent push.  Registration order is
    /// irrelevant, and registering a target twice merely duplicates wakeups.
    pub fn add_listener(&mut self, notifier: Notifier) -> (q: &Queue)
        ensures
            final(self)@ == old(self)@,
            final(self).notifier_seq() == old(self).notifier_seq().push(notifier),
            q@ == old(self)@,
    {
        self.notifiers.push(notifier);
        &self.queue
    }

    /// The connection drivers' access to the shared queue, for claiming.
    pub fn queue_mut(&mut self) -> (q: &mut Queue)
        ensures
            q@ == old(self)@,
            final(self)@ == final(q)@,
            final(self).notifier_seq() == old(self).notifier_seq(),
    {
        &mut self.queue
    }

    /// Pushes a message to the queue and hands back the future that will
    /// resolve to the response, once a connection has claimed the operation
    /// and the wire engine has fulfilled its sink: the queued operation
    /// carries the sink of the very pair whose read side is returned.
    /// Returns immediately; the caller suspends only by waiting on the
    /// future.
    pub fn req(&mut self, msg: Message) -> (p: PendingResult)
        ensures
            final(self)@ == old(self)@.push(final(self)@.last()),
            final(self)@.last().msg == msg,
            final(self)@.last().sink matches Some(s) && s.pair_id == p.pair_id,
            final(self).notifier_seq() == old(self).notifier_seq(),
    {
        let (c, p) = completion_pair();
        self.post(msg, Some(c));
        p
    }

    /// Pushes a message to the queue without asking for a response: the
    /// queued operation carries no completion sink, so its processing leaves
    /// no completion channel behind and the caller is never notified.
    pub fn send(&mut self, msg: Message)
        ensures
            final(self)@ == old(self)@.push(Operation { msg, sink: None }),
            final(self).notifier_seq() == old(self).notifier_seq(),
    {
        self.post(msg, None);
    }

    /// Appends the operation, then wakes every registered listener.  Waking
    /// is best-effort: a target whose driver is gone is skipped, since the
    /// sleep-timer fallback already covers a missed signal.
    fn post(&mut self, msg: Message, sink: Option<CompletionSink>)
        ensures
            final(self)@ == old(self)@.push(Operation { msg, sink }),
            final(self).notifier_seq() == old(self).notifier_seq(),
    {
        self.queue.push(Operation { msg, sink });
        let mut i: usize = 0;
        while i < self.notifiers.len()
            invariant
                self@ == old(self)@.push(Operation { msg, sink }),
                self.notifier_seq() == old(self).notifier_seq(),
            decreases self.notifiers.len() - i,
        {
            let _ = self.notifiers[i].wakeup();
            i = i + 1;
        }
    }
}

} // verus!

