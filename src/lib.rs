//! A task-orchestration engine over a shared, evolving set of numeric
//! metrics. Every metric is a fixed-point integer (see `metrics`), so the
//! whole engine is deterministic integer arithmetic.
//!
//! Every mutation takes `&mut self`: a caller that shares the engine
//! between threads holds it behind one lock, which gives single-writer
//! semantics for task executions and rule applications. The rule registry
//! is a separate value and may sit behind its own lock.

pub mod metrics;
pub mod params;
pub mod types;
pub mod emergence;
pub mod rules;
pub mod tasks;
pub mod campaign;
