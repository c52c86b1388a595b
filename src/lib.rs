//! Decision logic of a watch-compile-run tool: the per-pass pipeline, the
//! notices it raises, the debounced watch session and the start-up plan.
//! The process calls, the file watcher and the desktop notifications are
//! performed by the caller, which feeds their results back in.
pub mod notice;
pub mod pipeline;
pub mod plan;
pub mod session;
