use vstd::prelude::*;
use crate::barrier::BarrierEvent;
use crate::barrier::BarrierLog;
use crate::gc_ref::GcRef;
use crate::gc_ref::RefKind;
use crate::gc_ref::sentinel_of;
use crate::tracer::Trace;
use crate::tracer::Tracer;

verus! {

/// A heap-stored reference to a collector-managed value.
///
/// The handle owns exactly one reference of a fixed kind and guarantees that
/// every transition of that reference — construction, assignment, release —
/// passes through the barrier service exactly once, carrying the previous and
/// the new value in that order. The stored reference is never replaced except
/// through the barriered operations below: the field is module-private, so
/// there is no bypass path.
///
/// The handle registers its slot address with the service, so it must stay at
/// a stable address for its whole lifetime; a copy is a fresh registration
/// through [`Heap::clone_to`], never a plain struct copy.
pub struct Heap {
    slot: u64,
    value: GcRef,
}

impl Heap {
    /// The address the barrier service records for this handle's storage.
    pub closed spec fn slot_spec(self) -> u64 {
        self.slot
    }

    /// The reference the handle currently holds.
    pub closed spec fn value_spec(self) -> GcRef {
        self.value
    }

    /// The kind the handle is fixed to.
    pub open spec fn kind_spec(self) -> RefKind {
        self.value_spec().kind
    }

    /// A handle is registered with the barrier service exactly when it holds
    /// a non-sentinel reference; there is no third lifecycle state.
    pub open spec fn registered(self) -> bool {
        !self.value_spec().is_sentinel_spec()
    }

    /// The notification a barriered transition of this handle to `new_value`
    /// hands the barrier service: the slot address, the previous value, and
    /// the new value.
    pub open spec fn transition_event(self, new_value: GcRef) -> BarrierEvent {
        BarrierEvent { slot: self.slot_spec(), old_value: self.value_spec(), new_value }
    }

    /// An unregistered handle at `slot` holding the sentinel of `kind`.
    ///
    /// No notification is produced: the slot has never held an object, so
    /// there is no overwritten edge to report.
    pub fn empty(kind: RefKind, slot: u64) -> (r: Heap)
        ensures
            r.value_spec() == sentinel_of(kind),
            r.slot_spec() == slot,
            !r.registered(),
    {
        Heap { slot, value: GcRef::sentinel(kind) }
    }

    /// Construct a handle at `slot` holding `value`: initialize to the
    /// sentinel of `value`'s kind, then perform exactly one barriered write
    /// of `value`. The barrier service is notified even when `value` is the
    /// sentinel itself; the notification then carries equal old and new
    /// values.
    pub fn new(slot: u64, value: GcRef, barrier: &mut BarrierLog) -> (r: Heap)
        ensures
            r.value_spec() == value,
            r.slot_spec() == slot,
            final(barrier)@ == old(barrier)@.push(
                (BarrierEvent { slot, old_value: sentinel_of(value.kind), new_value: value }),
            ),
    {
        let mut r = Heap::empty(value.kind, slot);
        r.set(value, barrier);
        r
    }

    /// Overwrite the held reference with `new_value`, then notify the
    /// barrier service with the previous and the new value. Every mutation
    /// passes through here; the store into the slot happens before the
    /// notification, so the service may read the slot's new state through
    /// its recorded address.
    ///
    /// The new reference must be of the handle's kind: a kind mismatch is a
    /// caller error, excluded here rather than reported at run time.
    pub fn set(&mut self, new_value: GcRef, barrier: &mut BarrierLog)
        requires
            new_value.kind == old(self).kind_spec(),
        ensures
            final(self).value_spec() == new_value,
            final(self).slot_spec() == old(self).slot_spec(),
            final(barrier)@ == old(barrier)@.push(old(self).transition_event(new_value)),
    {
        let prev = self.value;
        self.value = new_value;
        barrier.notify(self.slot, prev, new_value);
    }

    /// Read the current reference. Reads are transparent: this operation
    /// takes neither a barrier service nor a tracer, so it can produce no
    /// notification and no visit, however often it is repeated.
    pub fn get(&self) -> (r: GcRef)
        ensures
            r == self.value_spec(),
    {
        self.value
    }

    /// The slot address the barrier service holds for this handle: the
    /// escape hatch for lower-level rooting interfaces. Writes must not go
    /// around [`Heap::set`]; this accessor only names the storage location.
    pub fn raw_slot(&self) -> (r: u64)
        ensures
            r == self.slot_spec(),
    {
        self.slot
    }

    /// A lightweight, non-owning view of the current reference, for
    /// interfaces that expect a transient handle rather than heap storage.
    /// It is a snapshot: valid until the handle is next mutated or released.
    pub fn handle(&self) -> (r: HandleRef)
        ensures
            r.value_spec() == self.value_spec(),
            r.slot_spec() == self.slot_spec(),
    {
        HandleRef { slot: self.slot, value: self.value }
    }

    /// Release the handle: one final barriered transition from the held
    /// value to the sentinel, so the barrier service drops its registration
    /// before the slot's memory is reclaimed and never revisits a dead
    /// address. The service is notified even when the handle already holds
    /// the sentinel; the notification then carries equal old and new values.
    pub fn destroy(self, barrier: &mut BarrierLog)
        ensures
            final(barrier)@ == old(barrier)@.push(
                self.transition_event(sentinel_of(self.kind_spec())),
            ),
    {
        let prev = self.value;
        barrier.notify(self.slot, prev, GcRef::sentinel(prev.kind));
    }

    /// Duplicate the handle into a fresh slot. A copy is a new registration
    /// via reconstruction — one barriered write of the held value at the new
    /// address — never a plain struct copy, which would skip the barrier.
    pub fn clone_to(&self, slot: u64, barrier: &mut BarrierLog) -> (r: Heap)
        ensures
            r.value_spec() == self.value_spec(),
            r.slot_spec() == slot,
            final(barrier)@ == old(barrier)@.push(
                (BarrierEvent {
                    slot,
                    old_value: sentinel_of(self.kind_spec()),
                    new_value: self.value_spec(),
                }),
            ),
    {
        Heap::new(slot, self.get(), barrier)
    }

    /// The handle's own heap-accounting contribution: always zero. The
    /// pointed-to object's size is accounted by the collector's own
    /// instrumentation, never claimed by the handle.
    pub fn heap_size_of_children(&self) -> (r: usize)
        ensures
            r == 0,
    {
        0
    }
}

impl Trace for Heap {
    /// A handle holds exactly one reference, so one trace call is exactly
    /// one visit: the handle's slot address and its kind's diagnostic label,
    /// delivered to the entry point matching the kind of the held reference
    /// — never another kind's entry point.
    open spec fn trace_visits(&self) -> Seq<(RefKind, u64, Seq<char>)> {
        seq![(self.kind_spec(), self.slot_spec(), self.kind_spec().label_spec())]
    }

    /// Collection-pass dispatch by the kind of the held reference. Tracing
    /// walks the graph without changing it: the handle is taken immutably
    /// and no barrier service is involved, so no notification can arise.
    fn trace(&self, tracer: &mut Tracer) {
        let label = self.value.kind.label();
        match self.value.kind {
            RefKind::Object => tracer.visit_object(self.slot, label),
            RefKind::Function => tracer.visit_function(self.slot, label),
            RefKind::Script => tracer.visit_script(self.slot, label),
            RefKind::Str => tracer.visit_str(self.slot, label),
            RefKind::TaggedValue => tracer.visit_tagged_value(self.slot, label),
            RefKind::Identifier => tracer.visit_identifier(self.slot, label),
        }
        proof {
            assert(tracer@ =~= old(tracer)@ + self.trace_visits());
        }
    }
}

/// Handles compare by held reference, not by slot address: two distinct
/// handles holding equal references are equal.
impl PartialEq for Heap {
    fn eq(&self, other: &Heap) -> (r: bool) {
        self.value == other.value
    }
}

impl vstd::std_specs::cmp::PartialEqSpecImpl for Heap {
    open spec fn obeys_eq_spec() -> bool {
        true
    }

    open spec fn eq_spec(&self, other: &Heap) -> bool {
        self.value_spec() == other.value_spec()
    }
}

/// A lightweight, non-owning view of a handle's current reference: a
/// snapshot of the reference and the slot address it was read from. Writes
/// cannot go through it, so the barrier invariant is out of its reach.
#[derive(Clone, Copy, PartialEq, Eq, Structural, Debug)]
pub struct HandleRef {
    slot: u64,
    value: GcRef,
}

impl HandleRef {
    /// The slot address the view was taken from.
    pub closed spec fn slot_spec(self) -> u64 {
        self.slot
    }

    /// The reference the view carries.
    pub closed spec fn value_spec(self) -> GcRef {
        self.value
    }

    /// Read the referenced value.
    pub fn get(&self) -> (r: GcRef)
        ensures
            r == self.value_spec(),
    {
        self.value
    }

    /// The slot address the view was taken from.
    pub fn slot(&self) -> (r: u64)
        ensures
            r == self.slot_spec(),
    {
        self.slot
    }
}

} // verus!
