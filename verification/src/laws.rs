use vstd::prelude::*;
use vstd::std_specs::cmp::PartialEqSpec;
use crate::barrier::BarrierEvent;
use crate::barrier::BarrierLog;
use crate::gc_ref::GcRef;
use crate::gc_ref::sentinel_of;
use crate::handle::Heap;

verus! {

/// The reference a handle holds after the writes `vs` have been applied in
/// order to a handle that held `v0`.
pub open spec fn value_after(v0: GcRef, vs: Seq<GcRef>) -> GcRef {
    if vs.len() == 0 {
        v0
    } else {
        vs.last()
    }
}

/// The notifications a run of `set` calls produces on a handle at `slot`
/// that held `v0` when the run began: one event per write, in call order,
/// each carrying the value the slot held before that write and the value
/// written by it.
pub open spec fn set_events(slot: u64, v0: GcRef, vs: Seq<GcRef>) -> Seq<BarrierEvent>
    decreases vs.len(),
{
    if vs.len() == 0 {
        Seq::<BarrierEvent>::empty()
    } else {
        set_events(slot, v0, vs.drop_last()).push(
            BarrierEvent {
                slot,
                old_value: value_after(v0, vs.drop_last()),
                new_value: vs.last(),
            },
        )
    }
}

/// Law: a run of writes leaves exactly one notification per write in the
/// barrier log, in call order; the `i`-th notification carries as its old
/// value the reference written by the previous write (the initial reference,
/// for the first write) and as its new value the `i`-th written reference.
pub proof fn lemma_one_notification_per_write(slot: u64, v0: GcRef, vs: Seq<GcRef>)
    ensures
        set_events(slot, v0, vs).len() == vs.len(),
        forall|i: int|
            0 <= i < vs.len() ==> set_events(slot, v0, vs)[i] == (BarrierEvent {
                slot,
                old_value: if i == 0 { v0 } else { vs[i - 1] },
                new_value: vs[i],
            }),
    decreases vs.len(),
{
    if vs.len() > 0 {
        lemma_one_notification_per_write(slot, v0, vs.drop_last());
    }
}

/// Law: handle equality is value-based. Two handles are equal exactly when
/// they hold equal references, whatever their slot addresses; in particular,
/// once one of two equal handles is set to a reference the other does not
/// hold, they compare unequal.
pub proof fn lemma_equality_value_based(a: Heap, b: Heap)
    ensures
        a.eq_spec(&b) <==> a.value_spec() == b.value_spec(),
        a.eq_spec(&b) <==> b.eq_spec(&a),
        a.value_spec() != b.value_spec() ==> !a.eq_spec(&b),
{
}

/// Law: writing the sentinel to a handle that already holds the sentinel is
/// still one well-defined notification whose old and new values are equal,
/// and the handle that results from the write (`after`, pinned by `set`'s
/// contract to hold the written sentinel) is unregistered.
pub proof fn lemma_sentinel_write_idempotent(h: Heap, after: Heap)
    requires
        !h.registered(),
        after.value_spec() == sentinel_of(h.kind_spec()),
    ensures
        h.transition_event(sentinel_of(h.kind_spec())).old_value == h.transition_event(
            sentinel_of(h.kind_spec()),
        ).new_value,
        !after.registered(),
{
}

impl Heap {
    /// The barrier-per-write law in executable form: apply the writes
    /// `values` in order through `set`. The log grows by exactly
    /// `set_events(..)` — one notification per write, in call order, each
    /// with the correct previous/new pair — and the handle ends holding the
    /// last written reference.
    pub fn set_all(&mut self, values: &Vec<GcRef>, barrier: &mut BarrierLog)
        requires
            forall|i: int| 0 <= i < values@.len() ==> values@[i].kind == old(self).kind_spec(),
        ensures
            final(self).value_spec() == value_after(old(self).value_spec(), values@),
            final(self).slot_spec() == old(self).slot_spec(),
            final(self).kind_spec() == old(self).kind_spec(),
            final(barrier)@ == old(barrier)@ + set_events(
                old(self).slot_spec(),
                old(self).value_spec(),
                values@,
            ),
    {
        let mut i: usize = 0;
        while i < values.len()
            invariant
                i <= values@.len(),
                forall|j: int| 0 <= j < values@.len() ==> values@[j].kind == old(self).kind_spec(),
                self.kind_spec() == old(self).kind_spec(),
                self.slot_spec() == old(self).slot_spec(),
                self.value_spec() == value_after(old(self).value_spec(), values@.take(i as int)),
                barrier@ == old(barrier)@ + set_events(
                    old(self).slot_spec(),
                    old(self).value_spec(),
                    values@.take(i as int),
                ),
            decreases values@.len() - i,
        {
            let v = values[i];
            self.set(v, barrier);
            i = i + 1;
            proof {
                let prefix = values@.take(i as int - 1);
                let run = values@.take(i as int);
                assert(run.drop_last() =~= prefix);
                assert(run.last() == values@[i as int - 1]);
                assert(barrier@ =~= old(barrier)@ + set_events(
                    old(self).slot_spec(),
                    old(self).value_spec(),
                    run,
                ));
            }
        }
        proof {
            assert(values@.take(values@.len() as int) =~= values@);
        }
    }
}

} // verus!
