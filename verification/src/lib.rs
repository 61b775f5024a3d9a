//! Orchestration core for a host that delegates work to a line-oriented
//! worker process: decoding the worker's event protocol, routing events to
//! subscribers, accumulating the terminal outcome, guarding against
//! concurrent long-running invocations, and building worker argument
//! vectors.

pub mod codec;
pub mod dispatch;
pub mod guard;
pub mod json;
pub mod launch;
pub mod router;
pub mod text;
