//! A barrier-enforcing heap handle: a smart-pointer abstraction for a
//! reference to a garbage-collected value that notifies the collector's
//! write-barrier service on every mutation and exposes itself to the tracer
//! during graph walks.

pub mod barrier;
pub mod gc_ref;
pub mod handle;
pub mod laws;
pub mod tracer;

pub use barrier::BarrierEvent;
pub use barrier::BarrierLog;
pub use gc_ref::GcRef;
pub use gc_ref::RefKind;
pub use handle::HandleRef;
pub use handle::Heap;
pub use tracer::Trace;
pub use tracer::TraceVisit;
pub use tracer::Tracer;
