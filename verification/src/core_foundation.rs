//! Objects of the foreign runtime's base layer.
pub mod cf_type;

pub use cf_type::{CFHashCode, CFIndex, CFType, CFTypeID, CFTypeRef};
