//! Control-plane logic for provisioning and tearing down a validator fleet,
//! and for the lifecycle of key-service-backed signing keys.
//!
//! Every remote call, prompt and file access is made by the caller; this
//! library decides what to do next from plain values and says so in its
//! contracts.
pub mod gate;
pub mod key;
pub mod deletion;
pub mod teardown;
pub mod apply;
pub mod spec_store;
