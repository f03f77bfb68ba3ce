use vstd::prelude::*;
use crate::gc_ref::GcRef;

verus! {

/// One post-write notification: the address of the slot that was written, the
/// value the slot held before the write, and the value it holds after. The
/// barrier service uses the pair to update its remembered-set bookkeeping
/// symmetrically (remove the old edge, add the new one).
#[derive(Clone, Copy, PartialEq, Eq, Structural, Debug)]
pub struct BarrierEvent {
    pub slot: u64,
    pub old_value: GcRef,
    pub new_value: GcRef,
}

/// The barrier service's observation log: every post-write notification it
/// has received, in call order. The handle treats the service as an opaque,
/// always-available collaborator; this type is its observable face, so that
/// the barrier protocol can be stated and checked over the log's contents.
pub struct BarrierLog {
    events: Vec<BarrierEvent>,
}

impl View for BarrierLog {
    type V = Seq<BarrierEvent>;

    closed spec fn view(&self) -> Seq<BarrierEvent> {
        self.events@
    }
}

impl BarrierLog {
    /// A service that has observed no writes yet.
    pub fn new() -> (r: BarrierLog)
        ensures
            r@ == Seq::<BarrierEvent>::empty(),
    {
        BarrierLog { events: Vec::new() }
    }

    /// The post-write hook: record that the slot at address `slot` was
    /// overwritten from `old_value` to `new_value`. Infallible and
    /// synchronous; exactly one event is appended per call.
    pub fn notify(&mut self, slot: u64, old_value: GcRef, new_value: GcRef)
        ensures
            final(self)@ == old(self)@.push((BarrierEvent { slot, old_value, new_value })),
    {
        self.events.push(BarrierEvent { slot, old_value, new_value });
    }

    /// How many notifications have been observed.
    pub fn len(&self) -> (r: usize)
        ensures
            r == self@.len(),
    {
        self.events.len()
    }

    /// The `i`-th notification, in call order.
    pub fn event_at(&self, i: usize) -> (r: BarrierEvent)
        requires
            i < self@.len(),
        ensures
            r == self@[i as int],
    {
        self.events[i]
    }
}

} // verus!
