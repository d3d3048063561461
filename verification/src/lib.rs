//! A bridge between memory-safe code and a foreign runtime of manually
//! reference-counted objects.
//!
//! The crate holds the bridge's decisions and none of its effects. Where an
//! operation needs the foreign runtime, it returns the call to make as a
//! [`runtime::ForeignCall`], inside a [`runtime::Request`] where the runtime
//! answers; the program around the crate performs the call and, where the
//! next decision depends on the answer, hands the answer back.
//!
//! - [`ownership`] wraps a foreign object in a value that owns one increment
//!   of its retain count and gives it back exactly once.
//! - [`core_foundation`] holds the object itself and the queries on its
//!   identity, all of which are the runtime's to answer.
//! - [`objc`] sends messages, each behind a probe for the receiver's support.
//! - [`foundation`] holds the recovery attempter of errors, an informal
//!   protocol whose two methods are invoked through that guard.
//! - [`runtime`] names the runtime's primitives and states what the bridge
//!   relies on of them.
pub mod core_foundation;
pub mod foundation;
pub mod objc;
pub mod ownership;
pub mod runtime;
