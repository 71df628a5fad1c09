//! The control-to-audio bridge: a bounded, non-blocking single-producer
//! single-consumer queue of hand-off messages, built on `rtrb`.
//!
//! Ownership of the active processor moves strictly from the control thread
//! to the audio thread through this queue and never through shared memory.
//! The producer never blocks: a full queue is reported to the caller, which
//! retries on a later control tick. The consumer drains every pending message
//! per callback and keeps only the last one; `coalesce` is the mathematical
//! model of that rule, and the lemmas below pin down that the last message
//! alone decides the audio thread's current processor.

use vstd::prelude::*;
use crate::adapter::AudioAdapter;

verus! {

/// The identity of one real-time processor allocated by an activation.
///
/// The handle deliberately has no `Clone`: it moves from the lifecycle
/// controller into the bridge and on to the audio side, so at any instant a
/// single owner holds it. The embedding application pairs the identity with
/// the plugin's actual audio processor object, which lives outside this
/// crate.
#[derive(Debug)]
pub struct Processor {
    pub id: u64,
}

/// One hand-off message. `Swap` carries a processor to the audio thread;
/// `Clear` tells it to drop whatever it holds.
#[derive(Debug)]
pub enum BridgeMessage {
    Swap(Processor),
    Clear,
}

/// Declares `rtrb`'s producer endpoint so it can stand in fields and
/// signatures here.
#[verifier::external_type_specification]
#[verifier::external_body]
#[verifier::reject_recursive_types(T)]
pub struct ExProducer<T>(rtrb::Producer<T>);

/// Declares `rtrb`'s consumer endpoint so it can stand in fields and
/// signatures here.
#[verifier::external_type_specification]
#[verifier::external_body]
#[verifier::reject_recursive_types(T)]
pub struct ExConsumer<T>(rtrb::Consumer<T>);

/// Relies on `rtrb::RingBuffer::new`: allocates a bounded single-producer
/// single-consumer queue and returns its two endpoints. The constructor
/// allocates a buffer of `capacity` slots; the bound keeps that allocation
/// small — a bridge only ever needs a handful of slots.
#[verifier::external_body]
pub(crate) fn new_ring(capacity: usize) -> (rtrb::Producer<BridgeMessage>, rtrb::Consumer<BridgeMessage>)
    requires
        1 <= capacity <= 4096,
{
    rtrb::RingBuffer::new(capacity)
}

/// Relies on `rtrb::Producer::push`: attempts to enqueue one message without
/// blocking. When the queue is full the message comes back unchanged inside
/// the error, so a processor it carries is never lost. Whether a slot is
/// free depends on the consumer thread, so success is not promised.
#[verifier::external_body]
pub(crate) fn push_raw(tx: &mut rtrb::Producer<BridgeMessage>, msg: BridgeMessage) -> (r: Result<
    (),
    BridgeMessage,
>)
    ensures
        r matches Err(m) ==> m == msg,
{
    match tx.push(msg) {
        Ok(()) => Ok(()),
        Err(rtrb::PushError::Full(m)) => Err(m),
    }
}

/// Relies on `rtrb::Consumer::pop`: takes one pending message off the queue,
/// or reports that none is ready. What arrives, and when, is decided by the
/// producer thread, so nothing is claimed of the value.
#[verifier::external_body]
pub(crate) fn pop_raw(rx: &mut rtrb::Consumer<BridgeMessage>) -> (r: Option<BridgeMessage>) {
    rx.pop().ok()
}

/// The control-thread end of the bridge. Only the lifecycle controller
/// sends on it, and only lifecycle transitions produce messages.
pub struct BridgeSender {
    tx: rtrb::Producer<BridgeMessage>,
}

impl BridgeSender {
    /// Wraps a fresh producer endpoint.
    pub(crate) fn from_raw(tx: rtrb::Producer<BridgeMessage>) -> BridgeSender {
        BridgeSender { tx }
    }

    /// Sends one hand-off message toward the audio thread without blocking.
    /// When the queue is full the message — and the processor it may carry —
    /// is handed back to the caller, to be retried on a later control tick.
    pub fn send(&mut self, msg: BridgeMessage) -> (r: Result<(), BridgeMessage>)
        ensures
            r matches Err(m) ==> m == msg,
    {
        push_raw(&mut self.tx, msg)
    }
}

/// How many hand-off slots a bridge holds by default: comfortably more than
/// the worst-case burst of lifecycle transitions between two consecutive
/// audio callbacks.
pub const BRIDGE_CAPACITY: usize = 32;

/// Creates a bridge of the given capacity: the sending end for the control
/// thread and the draining adapter for the audio callback. The adapter
/// starts with no processor and no recorded fault.
pub fn bridge(capacity: usize) -> (r: (BridgeSender, AudioAdapter))
    requires
        1 <= capacity <= 4096,
    ensures
        r.1.current is None,
        r.1.fault_count == 0,
        r.1.capacity == capacity,
{
    let (tx, rx) = new_ring(capacity);
    (BridgeSender::from_raw(tx), AudioAdapter::from_raw(rx, capacity))
}

/// The effect of one message on the audio thread's current processor.
pub open spec fn coalesce_one(cur: Option<Processor>, m: BridgeMessage) -> Option<Processor> {
    match m {
        BridgeMessage::Swap(p) => Some(p),
        BridgeMessage::Clear => None,
    }
}

/// The effect of draining a whole burst of messages in send order: each
/// message replaces the outcome of the ones before it.
pub open spec fn coalesce(cur: Option<Processor>, ms: Seq<BridgeMessage>) -> Option<Processor>
    decreases ms.len(),
{
    if ms.len() == 0 {
        cur
    } else {
        coalesce(coalesce_one(cur, ms[0]), ms.drop_first())
    }
}

/// Draining a burst and then one more message is the same as draining the
/// burst and applying that message to the outcome.
pub proof fn lemma_coalesce_snoc(cur: Option<Processor>, ms: Seq<BridgeMessage>, m: BridgeMessage)
    ensures
        coalesce(cur, ms.push(m)) == coalesce_one(coalesce(cur, ms), m),
    decreases ms.len(),
{
    if ms.len() == 0 {
        assert(ms.push(m)[0] == m);
        assert(ms.push(m).drop_first() =~= Seq::<BridgeMessage>::empty());
        assert(coalesce(coalesce_one(cur, m), Seq::<BridgeMessage>::empty()) == coalesce_one(
            cur,
            m,
        ));
    } else {
        assert(ms.push(m)[0] == ms[0]);
        assert(ms.push(m).drop_first() =~= ms.drop_first().push(m));
        lemma_coalesce_snoc(coalesce_one(cur, ms[0]), ms.drop_first(), m);
        assert(coalesce(cur, ms.push(m)) == coalesce(
            coalesce_one(cur, ms[0]),
            ms.drop_first().push(m),
        ));
        assert(coalesce(cur, ms) == coalesce(coalesce_one(cur, ms[0]), ms.drop_first()));
    }
}

/// Last message wins: whatever burst of `Swap` and `Clear` messages piles up
/// between two drains, the drain's outcome is decided by the final message
/// alone. In particular a trailing `Clear` always leaves no processor
/// active, and a trailing `Swap(p)` always makes `p` — and never any earlier
/// processor — the current one.
pub proof fn lemma_last_message_wins(cur: Option<Processor>, ms: Seq<BridgeMessage>)
    requires
        ms.len() > 0,
    ensures
        coalesce(cur, ms) == coalesce_one(coalesce(cur, ms.drop_last()), ms.last()),
        ms.last() is Clear ==> coalesce(cur, ms) is None,
        forall|p: Processor| ms.last() == BridgeMessage::Swap(p) ==> coalesce(cur, ms) == Some(p),
{
    assert(ms =~= ms.drop_last().push(ms.last()));
    lemma_coalesce_snoc(cur, ms.drop_last(), ms.last());
}

/// A burst of two swaps followed by a clear has exactly the effect of the
/// clear: no processor is active afterwards, and neither swapped-in
/// processor is ever observed.
pub proof fn lemma_clear_wins_over_swaps(cur: Option<Processor>, a: Processor, b: Processor)
    ensures
        coalesce(
            cur,
            seq![BridgeMessage::Swap(a), BridgeMessage::Swap(b), BridgeMessage::Clear],
        ) is None,
{
    let burst = seq![BridgeMessage::Swap(a), BridgeMessage::Swap(b), BridgeMessage::Clear];
    assert(burst.drop_last() =~= seq![BridgeMessage::Swap(a), BridgeMessage::Swap(b)]);
    lemma_last_message_wins(cur, burst);
}

} // verus!
