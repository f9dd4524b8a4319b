//! A request-forwarding adapter for the proxy endpoint of a named resource.
//!
//! The adapter itself performs no I/O. A call is a short chain of decisions:
//! the adapter says what the resource handle must rewrite, then what the
//! client must send, then what the caller gets back. The code that owns the
//! handle and the client carries out each step and reports its outcome.

pub mod error;
pub mod message;
pub mod laws;
pub mod proxier;
