//! A partitioned streaming record transformer: records are fanned out to
//! per-partition workers, each owning one embedded script engine; every
//! worker drains its bounded request queue in FIFO order and produces
//! responses in that same order, so outputs per partition keep the order in
//! which their inputs arrived.

pub mod engine;
pub mod processors;
pub mod topic_processor;
pub mod transformer;
