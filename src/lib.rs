//! Decisions of a small manager/worker command scheduler: the message
//! vocabulary, length-prefixed framing of the byte stream, the synchronized
//! transaction that pairs each message with its acknowledgement, the task
//! executor's lifecycle, the worker agent, and the manager's registry and
//! dispatcher. Sockets, threads and processes are driven from outside.

pub mod frame;
pub mod manager;
pub mod message;
pub mod queue;
pub mod sync;
pub mod task;
pub mod worker;
