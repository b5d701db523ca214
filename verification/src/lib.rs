//! ARM CCA Realm Management Extension (RME) support for a microVM monitor.
//!
//! The library describes, as plain values, every `KVM_ENABLE_CAP` and vCPU
//! finalisation request that the realm lifecycle needs, and decides, from
//! what the kernel answers, when an operation goes on and how it ends.
//! Issuing the requests to KVM is left to the caller.

pub mod abi;

pub mod error;
pub mod request;
pub mod manager;
pub mod call;
