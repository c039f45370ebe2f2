use vstd::prelude::*;

use crate::message::{Message, TaskKind};
use crate::task::{words_of, Task, TaskState, WaitOutcome};

verus! {

/// What the worker's loop does after a message from the manager.
#[derive(Debug, Clone, PartialEq, Eq)]
pub enum WorkerAction {
    /// Send this message to the manager.
    Reply(Message),
    /// Launch this program with these arguments, then report the outcome
    /// through `launched`.
    Launch(String, Vec<String>),
    /// End the session.
    Stop,
    /// Nothing to do.
    Ignore,
}

/// The worker agent's decisions: whether it is idle, and the executor of the
/// one task that it runs. The loop around it moves the bytes and the process.
pub struct Worker {
    is_ready: bool,
    current_task: Option<Task>,
}

/// The task state that the worker reports for a state of its executor.
pub open spec fn state_report(s: TaskState) -> Message {
    Message::Task(TaskKind::State(s))
}

/// A worker's answer to `IsReady`, given the task it holds.
pub open spec fn ready_answer(active: Option<(Seq<char>, TaskState)>) -> Message {
    if active is None {
        Message::ReadyForTask
    } else {
        Message::Task(TaskKind::InProgress)
    }
}

/// The task a worker holds after it is told to run `cmd`: a busy worker
/// keeps its task; an idle one takes `cmd` as a new task, unless it has no
/// word to launch.
pub open spec fn task_after_run(active: Option<(Seq<char>, TaskState)>, cmd: Seq<char>) -> Option<
    (Seq<char>, TaskState),
> {
    if active is Some {
        active
    } else if words_of(cmd).len() == 0 {
        None
    } else {
        Some((cmd, TaskState::New))
    }
}

/// Whether `a` asks to launch the first word of `cmd` with the words after it.
pub open spec fn launches(a: WorkerAction, cmd: Seq<char>) -> bool {
    let w = words_of(cmd);
    a matches WorkerAction::Launch(p, args) && p@ == w[0] && args@.len() + 1 == w.len() && forall|
        i: int,
    | 0 <= i < args@.len() ==> #[trigger] args@[i]@ == w[i + 1]
}

/// A worker never holds two tasks: it answers `ReadyForTask` only while it
/// holds none, and a command that reaches it while it is busy leaves the
/// task it holds in place.
pub proof fn lemma_one_task_per_worker(active: Option<(Seq<char>, TaskState)>, cmd: Seq<char>)
    ensures
        ready_answer(active) == Message::ReadyForTask ==> active is None,
        active is Some ==> task_after_run(active, cmd) == active,
{
}

impl Worker {
    /// The command and state of the task in hand, if any.
    pub closed spec fn active(&self) -> Option<(Seq<char>, TaskState)> {
        match self.current_task {
            Some(t) => Some((t.spec_command(), t.spec_state())),
            None => None,
        }
    }

    /// The worker is idle exactly when it holds no task, and the task it holds
    /// is never in a terminal state.
    pub closed spec fn wf(&self) -> bool {
        &&& self.is_ready <==> self.current_task is None
        &&& self.current_task matches Some(t) ==> !t.spec_state().is_terminal()
    }

    pub open spec fn spec_idle(&self) -> bool {
        self.active() is None
    }

    pub fn new() -> (w: Worker)
        ensures
            w.wf(),
            w.active() is None,
    {
        Worker { is_ready: true, current_task: None }
    }

    pub fn is_idle(&self) -> (r: bool)
        requires
            self.wf(),
        ensures
            r == self.spec_idle(),
    {
        self.is_ready
    }

    /// The state of the task in hand, if any.
    pub fn task_state(&self) -> (r: Option<TaskState>)
        ensures
            r == (match self.active() {
                Some((_, s)) => Some(s),
                None => None,
            }),
    {
        match &self.current_task {
            Some(t) => Some(t.state()),
            None => None,
        }
    }

    /// The answer to `IsReady`: `ReadyForTask` when idle, else `TaskInProgress`.
    pub fn communicate_is_ready(&self) -> (r: Message)
        requires
            self.wf(),
        ensures
            r == ready_answer(self.active()),
    {
        if self.is_ready {
            Message::ReadyForTask
        } else {
            Message::Task(TaskKind::InProgress)
        }
    }

    /// Takes a command to run. An idle worker takes it as a new task and asks
    /// for its program to be launched; a command with no word cannot be
    /// launched and is reported `Failed` at once. A busy worker keeps the task
    /// it has and ignores the command.
    pub fn run_task(&mut self, cmd: String) -> (r: WorkerAction)
        requires
            old(self).wf(),
        ensures
            final(self).wf(),
            final(self).active() == task_after_run(old(self).active(), cmd@),
            !old(self).spec_idle() ==> r == WorkerAction::Ignore && final(self).active() == old(self).active(),
            old(self).spec_idle() && words_of(cmd@).len() == 0 ==> r == WorkerAction::Reply(
                state_report(TaskState::Failed),
            ) && final(self).active() is None,
            old(self).spec_idle() && words_of(cmd@).len() > 0 ==> {
                &&& final(self).active() == Some((cmd@, TaskState::New))
                &&& launches(r, cmd@)
            },
    {
        if !self.is_ready {
            return WorkerAction::Ignore;
        }
        let mut task = Task::new(cmd);
        match task.command_line() {
            None => {
                let _ = task.start(false);
                WorkerAction::Reply(Message::Task(TaskKind::State(TaskState::Failed)))
            },
            Some((program, args)) => {
                self.current_task = Some(task);
                self.is_ready = false;
                WorkerAction::Launch(program, args)
            },
        }
    }

    /// Decides what a message read from the manager asks for: `IsReady` is
    /// answered, `Task.Run` takes a task, `Kill` ends the session, and any
    /// other message is ignored.
    pub fn process_read_message(&mut self, message: Message) -> (r: WorkerAction)
        requires
            old(self).wf(),
        ensures
            final(self).wf(),
            match message {
                Message::IsReady => r == WorkerAction::Reply(ready_answer(old(self).active()))
                    && final(self).active() == old(self).active(),
                Message::Kill => r == WorkerAction::Stop && final(self).active() == old(self).active(),
                Message::Task(TaskKind::Run(cmd)) => {
                    let idle = old(self).spec_idle();
                    let w = words_of(cmd@);
                    &&& final(self).active() == task_after_run(old(self).active(), cmd@)
                    &&& !idle ==> r == WorkerAction::Ignore && final(self).active() == old(self).active()
                    &&& idle && w.len() == 0 ==> r == WorkerAction::Reply(state_report(TaskState::Failed))
                        && final(self).active() is None
                    &&& idle && w.len() > 0 ==> launches(r, cmd@) && final(self).active() == Some((cmd@, TaskState::New))
                },
                _ => r == WorkerAction::Ignore && final(self).active() == old(self).active(),
            },
    {
        match message {
            Message::IsReady => WorkerAction::Reply(self.communicate_is_ready()),
            Message::Kill => WorkerAction::Stop,
            Message::Task(TaskKind::Run(cmd)) => self.run_task(cmd),
            _ => WorkerAction::Ignore,
        }
    }

    /// Takes in whether the program of the new task was launched. A task
    /// that could not be launched is reported `Failed`, without ever having
    /// been `Running`, and the worker is idle again.
    pub fn launched(&mut self, ok: bool) -> (r: Option<Message>)
        requires
            old(self).wf(),
        ensures
            final(self).wf(),
            match old(self).active() {
                Some((c, TaskState::New)) => if ok {
                    r is None && final(self).active() == Some((c, TaskState::Running))
                } else {
                    r == Some(state_report(TaskState::Failed)) && final(self).active() is None
                },
                _ => r is None && final(self).active() == old(self).active(),
            },
    {
        let mut done = false;
        let mut report: Option<Message> = None;
        match &mut self.current_task {
            Some(t) => {
                if t.state() == TaskState::New {
                    match t.start(ok) {
                        Ok(()) => {},
                        Err(_) => {
                            done = true;
                            report = Some(Message::Task(TaskKind::State(TaskState::Failed)));
                        },
                    }
                }
            },
            None => {},
        }
        if done {
            self.current_task = None;
            self.is_ready = true;
        }
        report
    }

    /// One tick's look at the task in hand, given what the exit query
    /// reported. A running task is reported `Running`; a finished one is
    /// reported in its terminal state, dropped, and the worker is idle again.
    /// A failed query is reported as `Failed` too. With no running task there
    /// is nothing to report.
    pub fn poll_task(&mut self, outcome: WaitOutcome) -> (r: Option<Message>)
        requires
            old(self).wf(),
        ensures
            final(self).wf(),
            match old(self).active() {
                Some((c, TaskState::Running)) => match outcome {
                    WaitOutcome::StillRunning => r == Some(state_report(TaskState::Running))
                        && final(self).active() == old(self).active(),
                    WaitOutcome::Exited { success } => r == Some(
                        state_report(
                            if success {
                                TaskState::Succeeded
                            } else {
                                TaskState::Failed
                            },
                        ),
                    ) && final(self).active() is None,
                    WaitOutcome::WaitFailed => r == Some(state_report(TaskState::Failed))
                        && final(self).active() is None,
                },
                _ => r is None && final(self).active() == old(self).active(),
            },
    {
        let mut done = false;
        let mut report: Option<Message> = None;
        match &mut self.current_task {
            Some(t) => {
                if t.state() == TaskState::Running {
                    match t.poll_command_state(outcome) {
                        Ok(TaskState::Running) => {
                            report = Some(Message::Task(TaskKind::State(TaskState::Running)));
                        },
                        Ok(s) => {
                            done = true;
                            report = Some(Message::Task(TaskKind::State(s)));
                        },
                        Err(_) => {
                            done = true;
                            report = Some(Message::Task(TaskKind::State(TaskState::Failed)));
                        },
                    }
                }
            },
            None => {},
        }
        if done {
            self.current_task = None;
            self.is_ready = true;
        }
        report
    }
}

} // verus!
