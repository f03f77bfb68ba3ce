use vstd::prelude::*;
use crate::gc_ref::RefKind;

verus! {

/// One visit a tracer has received: which kind-specific entry point was
/// called, the slot address it was handed, and the diagnostic label naming
/// the slot's role.
pub struct TraceVisit {
    pub kind: RefKind,
    pub slot: u64,
    pub label: String,
}

impl View for TraceVisit {
    type V = (RefKind, u64, Seq<char>);

    open spec fn view(&self) -> (RefKind, u64, Seq<char>) {
        (self.kind, self.slot, self.label@)
    }
}

/// The abstract contents of a visit record.
pub open spec fn visit_model(v: TraceVisit) -> (RefKind, u64, Seq<char>) {
    v@
}

/// The abstract contents of a sequence of visit records, in call order.
pub open spec fn visits_model(s: Seq<TraceVisit>) -> Seq<(RefKind, u64, Seq<char>)> {
    s.map_values(|v: TraceVisit| visit_model(v))
}

proof fn lemma_visits_model_push(s: Seq<TraceVisit>, v: TraceVisit)
    ensures
        visits_model(s.push(v)) =~= visits_model(s).push(visit_model(v)),
{
}

/// A visitor walking the object graph during a collection pass. The handle
/// only ever forwards itself to the entry point matching the kind of the
/// reference it holds; this type records every visit so that the dispatch
/// contract can be stated and checked over the visit log.
pub struct Tracer {
    visits: Vec<TraceVisit>,
}

impl View for Tracer {
    type V = Seq<(RefKind, u64, Seq<char>)>;

    closed spec fn view(&self) -> Seq<(RefKind, u64, Seq<char>)> {
        visits_model(self.visits@)
    }
}

impl Tracer {
    /// A tracer that has visited nothing yet.
    pub fn new() -> (r: Tracer)
        ensures
            r@ == Seq::<(RefKind, u64, Seq<char>)>::empty(),
    {
        Tracer { visits: Vec::new() }
    }

    /// Entry point for object references.
    pub fn visit_object(&mut self, slot: u64, label: String)
        ensures
            final(self)@ == old(self)@.push((RefKind::Object, slot, label@)),
    {
        let visit = TraceVisit { kind: RefKind::Object, slot, label };
        proof {
            lemma_visits_model_push(self.visits@, visit);
        }
        self.visits.push(visit);
    }

    /// Entry point for function references.
    pub fn visit_function(&mut self, slot: u64, label: String)
        ensures
            final(self)@ == old(self)@.push((RefKind::Function, slot, label@)),
    {
        let visit = TraceVisit { kind: RefKind::Function, slot, label };
        proof {
            lemma_visits_model_push(self.visits@, visit);
        }
        self.visits.push(visit);
    }

    /// Entry point for script references.
    pub fn visit_script(&mut self, slot: u64, label: String)
        ensures
            final(self)@ == old(self)@.push((RefKind::Script, slot, label@)),
    {
        let visit = TraceVisit { kind: RefKind::Script, slot, label };
        proof {
            lemma_visits_model_push(self.visits@, visit);
        }
        self.visits.push(visit);
    }

    /// Entry point for string references.
    pub fn visit_str(&mut self, slot: u64, label: String)
        ensures
            final(self)@ == old(self)@.push((RefKind::Str, slot, label@)),
    {
        let visit = TraceVisit { kind: RefKind::Str, slot, label };
        proof {
            lemma_visits_model_push(self.visits@, visit);
        }
        self.visits.push(visit);
    }

    /// Entry point for tagged-value references.
    pub fn visit_tagged_value(&mut self, slot: u64, label: String)
        ensures
            final(self)@ == old(self)@.push((RefKind::TaggedValue, slot, label@)),
    {
        let visit = TraceVisit { kind: RefKind::TaggedValue, slot, label };
        proof {
            lemma_visits_model_push(self.visits@, visit);
        }
        self.visits.push(visit);
    }

    /// Entry point for identifier references.
    pub fn visit_identifier(&mut self, slot: u64, label: String)
        ensures
            final(self)@ == old(self)@.push((RefKind::Identifier, slot, label@)),
    {
        let visit = TraceVisit { kind: RefKind::Identifier, slot, label };
        proof {
            lemma_visits_model_push(self.visits@, visit);
        }
        self.visits.push(visit);
    }

    /// How many visits have been received.
    pub fn len(&self) -> (r: usize)
        ensures
            r == self@.len(),
    {
        self.visits.len()
    }

    /// The `i`-th visit, in call order.
    pub fn visit_at(&self, i: usize) -> (r: &TraceVisit)
        requires
            i < self@.len(),
        ensures
            r@ == self@[i as int],
    {
        &self.visits[i]
    }
}

/// Types that can be traced: anything holding collector references exposes
/// them to the tracer during a collection pass.
///
/// An implementation must visit exactly the references it holds — if it
/// misses one, the collector may reclaim an object that is still reachable —
/// and tracing must not mutate the value or notify any barrier: a trace pass
/// walks the graph, it does not change it.
pub trait Trace {
    /// The visits one `trace` call appends to the tracer's log, in order.
    spec fn trace_visits(&self) -> Seq<(RefKind, u64, Seq<char>)>;

    /// Expose every held reference to `tracer`.
    fn trace(&self, tracer: &mut Tracer)
        ensures
            final(tracer)@ == old(tracer)@ + self.trace_visits(),
    ;
}

} // verus!
