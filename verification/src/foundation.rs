//! Objects of the foreign runtime's application layer.
pub mod ns_error;

pub use ns_error::{NSError, NSErrorRecoveryAttempting};
