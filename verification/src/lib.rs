//! Batch geocoding orchestration and reporting.
//!
//! The resolver that maps an address to ranked candidate records is an
//! external collaborator; this crate owns the logic around it: merging
//! per-request options over defaults, assembling the outcomes of a batch of
//! independent lookups into an order-preserving partition of successes and
//! failures, and rendering either a plain list of records or a partitioned
//! batch result as structured (JSON) or tabular (CSV) text.

pub mod batch;
pub mod encode;
pub mod numeral;
pub mod options;
pub mod record;
