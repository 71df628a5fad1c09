//! The audio-side adapter: the only code that runs inside the real-time
//! callback. It drains the bridge with last-message-wins coalescing, tells
//! the callback whether a processor is current, and swallows per-period
//! processing faults so the callback can never panic or block on them.

use vstd::prelude::*;
use crate::bridge::{coalesce, lemma_coalesce_snoc, pop_raw, BridgeMessage, Processor};
use crate::errors::ProcessingFault;

verus! {

/// The audio thread's end of the bridge together with the processor it
/// currently owns. The adapter is moved into the audio callback and nothing
/// else ever touches it; the control thread influences it only through
/// bridge messages.
pub struct AudioAdapter {
    /// The consuming end of the bridge; only `drain` reads it.
    pub rx: rtrb::Consumer<BridgeMessage>,
    /// The processor this thread currently owns, if any. `None` means the
    /// callback leaves the period's buffer exactly as the device delivered
    /// it.
    pub current: Option<Processor>,
    /// How many periods ended in a swallowed processing fault. Saturates
    /// rather than wraps: the count is diagnostic only.
    pub fault_count: u64,
    /// The capacity of the bridge this adapter drains. One drain takes at
    /// most this many messages — everything that can be pending when the
    /// callback starts — so the callback's work per period stays bounded.
    pub capacity: usize,
}

impl AudioAdapter {
    /// Wraps a fresh consumer endpoint; no processor is owned yet.
    pub(crate) fn from_raw(rx: rtrb::Consumer<BridgeMessage>, capacity: usize) -> (a: AudioAdapter)
        ensures
            a.current is None,
            a.fault_count == 0,
            a.capacity == capacity,
    {
        AudioAdapter { rx, current: None, fault_count: 0, capacity }
    }

    /// Drains the messages pending on the bridge, in send order, and keeps
    /// only the effect of the last one. At most `capacity` messages are
    /// taken — everything that can be queued when the callback starts — so
    /// the callback's work stays bounded. The current processor afterwards
    /// is the coalescing of whatever burst was drained; which burst that is
    /// depends on the other thread, so it is existentially quantified here,
    /// while `coalesce` itself pins down that intermediate messages can
    /// never take effect.
    pub fn drain(&mut self)
        ensures
            final(self).fault_count == old(self).fault_count,
            exists|ms: Seq<BridgeMessage>|
                final(self).current == #[trigger] coalesce(old(self).current, ms),
    {
        let ghost pre = *self;
        let ghost mut ms: Seq<BridgeMessage> = Seq::empty();
        let mut taken: usize = 0;
        while taken < self.capacity
            invariant
                self.fault_count == pre.fault_count,
                self.capacity == pre.capacity,
                self.current == coalesce(pre.current, ms),
                taken <= self.capacity,
            decreases self.capacity - taken,
        {
            match pop_raw(&mut self.rx) {
                Some(m) => {
                    proof {
                        lemma_coalesce_snoc(pre.current, ms, m);
                        ms = ms.push(m);
                    }
                    match m {
                        BridgeMessage::Swap(p) => {
                            self.current = Some(p);
                        },
                        BridgeMessage::Clear => {
                            self.current = None;
                        },
                    }
                },
                None => {
                    break ;
                },
            }
            taken = taken + 1;
        }
        proof {
            assert(self.current == coalesce(old(self).current, ms));
        }
    }

    /// Whether a processor is current, i.e. whether the callback should run
    /// plugin processing this period at all. With no processor the callback
    /// does not touch the buffer.
    pub fn has_processor(&self) -> (r: bool)
        ensures
            r == (self.current is Some),
    {
        self.current.is_some()
    }

    /// The identity of the current processor, if any, so the callback can
    /// pick the matching plugin-side processor object.
    pub fn current_processor_id(&self) -> (r: Option<u64>)
        ensures
            r is Some <==> self.current is Some,
            r matches Some(id) ==> self.current matches Some(p) && p.id == id,
    {
        match &self.current {
            Some(p) => Some(p.id),
            None => None,
        }
    }

    /// Accounts for the outcome of one period's processing call. A fault is
    /// swallowed into a fixed no-op outcome — the processor stays current
    /// and the callback goes on — and is only counted for diagnostics.
    pub fn finish_period(&mut self, outcome: Result<(), ProcessingFault>)
        ensures
            final(self).current == old(self).current,
            outcome is Ok ==> final(self).fault_count == old(self).fault_count,
            outcome is Err ==> final(self).fault_count == (if old(self).fault_count
                < u64::MAX {
                old(self).fault_count + 1
            } else {
                old(self).fault_count as int
            }),
    {
        match outcome {
            Ok(()) => {},
            Err(_) => {
                if self.fault_count < u64::MAX {
                    self.fault_count = self.fault_count + 1;
                }
            },
        }
    }
}

} // verus!
