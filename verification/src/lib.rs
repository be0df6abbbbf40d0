//! Addressing and data-exchange contract for a pluggable scientific data
//! aggregation platform: validated hierarchical identifiers, a canonical
//! encoding of sampling intervals, an immutable catalog/resource model with
//! uniqueness invariants, and the buffer sizing rules of the read protocol.

pub mod data_model;
pub mod error;
pub mod extensibility;
