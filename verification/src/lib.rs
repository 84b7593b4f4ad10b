//! Synthetic invoice seeding library.
//!
//! Generates randomized but internally consistent invoice records,
//! accumulates them into fixed-capacity batches, and marshals each batch
//! into column-aligned arrays for a single set-based bulk insert.

pub mod amount;
pub mod batch;
pub mod columns;
pub mod gen;
pub mod invoice;
pub mod orchestrator;
pub mod plan;
