use vstd::prelude::*;

use crate::task::TaskState;

verus! {

/// The role that a peer declares once, right after it connects.
#[derive(Debug, Clone, Copy, PartialEq, Eq, Structural)]
pub enum Identity {
    Worker,
}

/// An application message exchanged between the manager and a worker.
#[derive(Debug, Clone, PartialEq, Eq)]
pub enum Message {
    IsReady,
    ReadyForTask,
    Invalid,
    Kill,
    Task(TaskKind),
}

/// The task-related part of the message vocabulary.
#[derive(Debug, Clone, PartialEq, Eq)]
pub enum TaskKind {
    Kill,
    State(TaskState),
    InProgress,
    Run(String),
}

/// Control tokens of the synchronized transaction; never seen by the application.
#[derive(Debug, Clone, Copy, PartialEq, Eq, Structural)]
pub enum HandShake {
    Unreachable,
    Acknowledge,
    Send,
    Begin,
    Abort,
}

/// The command line of a pending task.
pub struct TaskName(pub String);

} // verus!
