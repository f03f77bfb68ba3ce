use heap_handle::BarrierLog;
use heap_handle::GcRef;
use heap_handle::Heap;
use heap_handle::RefKind;
use heap_handle::Trace;
use heap_handle::Tracer;

const ALL_KINDS: [RefKind; 6] = [
    RefKind::Object,
    RefKind::Function,
    RefKind::Script,
    RefKind::Str,
    RefKind::TaggedValue,
    RefKind::Identifier,
];

#[test]
fn trace_on_object_handle_visits_object_entry_once() {
    let mut log = BarrierLog::new();
    let mut tracer = Tracer::new();
    let h = Heap::new(31, GcRef { kind: RefKind::Object, addr: 0x99 }, &mut log);

    h.trace(&mut tracer);

    assert_eq!(tracer.len(), 1);
    let visit = tracer.visit_at(0);
    assert_eq!(visit.kind, RefKind::Object);
    assert_eq!(visit.slot, 31);
    assert_eq!(visit.label, "object");
    // No other kind's entry point ran: the single recorded visit is the
    // object-kind one, and tracing produced no barrier notification.
    assert_eq!(log.len(), 1);
}

#[test]
fn trace_dispatches_by_kind_for_every_kind() {
    for (i, kind) in ALL_KINDS.iter().enumerate() {
        let mut log = BarrierLog::new();
        let mut tracer = Tracer::new();
        let slot = 100 + i as u64;
        let h = Heap::new(slot, GcRef { kind: *kind, addr: 7 }, &mut log);

        h.trace(&mut tracer);

        assert_eq!(tracer.len(), 1);
        let visit = tracer.visit_at(0);
        assert_eq!(visit.kind, *kind);
        assert_eq!(visit.slot, slot);
    }
}

#[test]
fn trace_labels_name_the_kind() {
    let expected = ["object", "function", "script", "string", "value", "id"];
    for (kind, want) in ALL_KINDS.iter().zip(expected.iter()) {
        assert_eq!(kind.label(), *want);

        let mut log = BarrierLog::new();
        let mut tracer = Tracer::new();
        let h = Heap::new(1, GcRef { kind: *kind, addr: 3 }, &mut log);
        h.trace(&mut tracer);
        assert_eq!(tracer.visit_at(0).label, *want);
    }
}

#[test]
fn trace_does_not_mutate_the_handle_or_the_log() {
    let mut log = BarrierLog::new();
    let mut tracer = Tracer::new();
    let v = GcRef { kind: RefKind::Str, addr: 0x44 };
    let h = Heap::new(9, v, &mut log);
    let log_len_before = log.len();

    h.trace(&mut tracer);
    h.trace(&mut tracer);
    h.trace(&mut tracer);

    assert_eq!(h.get(), v);
    assert_eq!(log.len(), log_len_before);
    assert_eq!(tracer.len(), 3);
    for i in 0..3 {
        assert_eq!(tracer.visit_at(i).kind, RefKind::Str);
        assert_eq!(tracer.visit_at(i).slot, 9);
    }
}

#[test]
fn sentinel_handles_still_trace_their_kind() {
    let mut tracer = Tracer::new();
    let h = Heap::empty(RefKind::Function, 4);
    h.trace(&mut tracer);
    assert_eq!(tracer.len(), 1);
    assert_eq!(tracer.visit_at(0).kind, RefKind::Function);
    assert_eq!(tracer.visit_at(0).label, "function");
}
