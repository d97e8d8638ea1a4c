//! Primitives that each produce one heap-misuse condition on purpose: a
//! dangling address, a leaked allocation, storage that was never written.
//!
//! Addresses are handed out as plain integers. Nothing here records which of
//! them are live; pairing them up correctly (or incorrectly) is the caller's
//! business.

pub mod layout;
pub mod memory;
