//! Real-time priority promotion for audio threads.
//!
//! The calling thread of an audio renderer cannot raise its own scheduling
//! class without privilege; it must negotiate with a system broker, bounded
//! by a kernel resource limit that is read, narrowed, used, and rolled back
//! on failure. This crate verifies that negotiation protocol: budget
//! computation, policy clamping, the strictly ordered promotion steps, and
//! the rollback and restore guarantees. The actual system calls and bus
//! traffic are driven by a thin unverified shell around this library.

pub mod budget;
pub mod bus;
pub mod errors;
pub mod laws;
pub mod limits;
pub mod negotiation;
pub mod snapshot;
