use vstd::prelude::*;

verus! {

/// Lifecycle of one command: `New`, then `Running`, then one terminal state.
#[derive(Debug, Clone, Copy, PartialEq, Eq, Structural)]
pub enum TaskState {
    New,
    Running,
    Failed,
    Succeeded,
}

impl TaskState {
    pub open spec fn is_terminal(self) -> bool {
        self is Failed || self is Succeeded
    }

    pub open spec fn rank(self) -> nat {
        match self {
            TaskState::New => 0,
            TaskState::Running => 1,
            _ => 2,
        }
    }
}

/// A move of an executor's state that the lifecycle allows: it stays where it
/// is, or goes strictly forward; a terminal state has nowhere forward to go.
pub open spec fn state_step(a: TaskState, b: TaskState) -> bool {
    a == b || a.rank() < b.rank()
}

/// Errors of the task executor.
#[derive(Debug, Clone, Copy, PartialEq, Eq, Structural)]
pub enum TaskError {
    /// The executor was polled while not running.
    NotRunning,
    /// Asking whether the process has exited failed.
    FailedWait,
    /// The process could not be launched.
    SpawnFailed,
    /// `start` was called on an executor that had already been started.
    AlreadyStarted,
}

impl TaskError {
    /// The name of the error, as shown to an operator.
    pub fn name(&self) -> (r: &'static str)
        ensures
            *self == TaskError::NotRunning ==> r@ == "NotRunning"@,
            *self == TaskError::FailedWait ==> r@ == "FailedWait"@,
            *self == TaskError::SpawnFailed ==> r@ == "SpawnFailed"@,
            *self == TaskError::AlreadyStarted ==> r@ == "AlreadyStarted"@,
    {
        match self {
            TaskError::NotRunning => "NotRunning",
            TaskError::FailedWait => "FailedWait",
            TaskError::SpawnFailed => "SpawnFailed",
            TaskError::AlreadyStarted => "AlreadyStarted",
        }
    }
}

/// What a non-blocking "has the process exited?" query reported.
#[derive(Debug, Clone, Copy, PartialEq, Eq, Structural)]
pub enum WaitOutcome {
    StillRunning,
    Exited { success: bool },
    WaitFailed,
}

/// The words of a command line, as `str::split_whitespace` yields them.
pub uninterp spec fn words_of(s: Seq<char>) -> Seq<Seq<char>>;

/// Relies on `str::split_whitespace`: the words of `s`, in order.
#[verifier::external_body]
fn split_words(s: &str) -> (r: Vec<String>)
    ensures
        r@.len() == words_of(s@).len(),
        forall|i: int| 0 <= i < r@.len() ==> #[trigger] r@[i]@ == words_of(s@)[i],
{
    s.split_whitespace().map(|w| w.to_string()).collect()
}

/// One shell command and the state machine that follows its process.
pub struct Task {
    command: String,
    state: TaskState,
}

impl Task {
    pub closed spec fn spec_command(&self) -> Seq<char> {
        self.command@
    }

    pub closed spec fn spec_state(&self) -> TaskState {
        self.state
    }

    pub fn new(command: String) -> (t: Task)
        ensures
            t.spec_command() == command@,
            t.spec_state() == TaskState::New,
    {
        Task { command, state: TaskState::New }
    }

    pub fn state(&self) -> (r: TaskState)
        ensures
            r == self.spec_state(),
    {
        self.state
    }

    pub fn command(&self) -> (r: &str)
        ensures
            r@ == self.spec_command(),
    {
        self.command.as_str()
    }

    /// The program to launch and its arguments: the command's first word and
    /// the words after it. `None` when the command has no word.
    pub fn command_line(&self) -> (r: Option<(String, Vec<String>)>)
        ensures
            r is None <==> words_of(self.spec_command()).len() == 0,
            r matches Some((p, args)) ==> {
                let w = words_of(self.spec_command());
                &&& p@ == w[0]
                &&& args@.len() + 1 == w.len()
                &&& forall|i: int| 0 <= i < args@.len() ==> #[trigger] args@[i]@ == w[i + 1]
            },
    {
        let mut words = split_words(self.command.as_str());
        if words.len() == 0 {
            return None;
        }
        let ghost w = words@;
        let program = words.remove(0);
        assert forall|i: int| 0 <= i < words@.len() implies #[trigger] words@[i]@ == words_of(
            self.spec_command(),
        )[i + 1] by {
            assert(words@[i] == w[i + 1]);
        }
        Some((program, words))
    }

    /// Records the outcome of launching the process: `Running` when it was
    /// launched, `Failed` (with `SpawnFailed`) when it could not be.
    pub fn start(&mut self, launched: bool) -> (r: Result<(), TaskError>)
        ensures
            final(self).spec_command() == old(self).spec_command(),
            old(self).spec_state() != TaskState::New ==> r == Err::<(), TaskError>(
                TaskError::AlreadyStarted,
            ) && final(self).spec_state() == old(self).spec_state(),
            old(self).spec_state() == TaskState::New && launched ==> r == Ok::<(), TaskError>(())
                && final(self).spec_state() == TaskState::Running,
            old(self).spec_state() == TaskState::New && !launched ==> r == Err::<(), TaskError>(
                TaskError::SpawnFailed,
            ) && final(self).spec_state() == TaskState::Failed,
            state_step(old(self).spec_state(), final(self).spec_state()),
    {
        if self.state != TaskState::New {
            return Err(TaskError::AlreadyStarted);
        }
        if launched {
            self.state = TaskState::Running;
            Ok(())
        } else {
            self.state = TaskState::Failed;
            Err(TaskError::SpawnFailed)
        }
    }

    /// Takes in what the exit query reported. Only a running executor is
    /// polled; an exit moves it to `Succeeded` or `Failed`, and a failed query
    /// leaves it `Running` so that the caller may retry.
    pub fn poll_command_state(&mut self, outcome: WaitOutcome) -> (r: Result<TaskState, TaskError>)
        ensures
            final(self).spec_command() == old(self).spec_command(),
            state_step(old(self).spec_state(), final(self).spec_state()),
            old(self).spec_state() != TaskState::Running ==> r == Err::<TaskState, TaskError>(
                TaskError::NotRunning,
            ) && final(self).spec_state() == old(self).spec_state(),
            old(self).spec_state() == TaskState::Running ==> match outcome {
                WaitOutcome::StillRunning => r == Ok::<TaskState, TaskError>(TaskState::Running)
                    && final(self).spec_state() == TaskState::Running,
                WaitOutcome::Exited { success } => {
                    let s = if success {
                        TaskState::Succeeded
                    } else {
                        TaskState::Failed
                    };
                    r == Ok::<TaskState, TaskError>(s) && final(self).spec_state() == s
                },
                WaitOutcome::WaitFailed => r == Err::<TaskState, TaskError>(TaskError::FailedWait)
                    && final(self).spec_state() == TaskState::Running,
            },
    {
        if self.state != TaskState::Running {
            return Err(TaskError::NotRunning);
        }
        match outcome {
            WaitOutcome::StillRunning => {},
            WaitOutcome::Exited { success } => {
                if success {
                    self.state = TaskState::Succeeded;
                } else {
                    self.state = TaskState::Failed;
                }
            },
            WaitOutcome::WaitFailed => {
                return Err(TaskError::FailedWait);
            },
        }
        Ok(self.state)
    }
}

proof fn lemma_step_chain(states: Seq<TaskState>, i: int, j: int)
    requires
        0 <= i <= j < states.len(),
        forall|k: int| 0 <= k < states.len() - 1 ==> state_step(#[trigger] states[k], states[k + 1]),
    ensures
        state_step(states[i], states[j]),
    decreases j - i,
{
    if i < j {
        lemma_step_chain(states, i, j - 1);
        assert(state_step(states[j - 1], states[j]));
    }
}

/// A run of states that an executor went through, each move allowed by the
/// lifecycle, only ever goes forward: any later state is the same as or
/// beyond an earlier one, and once a terminal state is reached every later
/// state is that same terminal state.
pub proof fn lemma_states_monotone(states: Seq<TaskState>)
    requires
        forall|i: int| 0 <= i < states.len() - 1 ==> state_step(#[trigger] states[i], states[i + 1]),
    ensures
        forall|i: int, j: int|
            0 <= i <= j < states.len() ==> state_step(#[trigger] states[i], #[trigger] states[j]),
        forall|i: int, j: int|
            0 <= i <= j < states.len() && (#[trigger] states[i]).is_terminal() ==> #[trigger] states[j]
                == states[i],
{
    assert forall|i: int, j: int| 0 <= i <= j < states.len() implies state_step(
        #[trigger] states[i],
        #[trigger] states[j],
    ) by {
        lemma_step_chain(states, i, j);
    }
}

} // verus!
