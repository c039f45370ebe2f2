use vstd::prelude::*;

use crate::message::{Identity, Message, TaskKind};
use crate::queue::deque_of;
use crate::task::TaskState;
use std::collections::VecDeque;

verus! {

/// The manager's record of one registered worker connection.
#[derive(Debug, Clone, Copy, PartialEq, Eq, Structural)]
pub struct WorkerHandle {
    pub id: usize,
    /// The worker's last answer to `IsReady` was `ReadyForTask`.
    pub ready: bool,
    /// The latest task state recorded for the worker.
    pub last_state: Option<TaskState>,
}

/// The state that a reply to a state request records: the state that a
/// `Task.State` carries, and `Failed` for anything else.
pub open spec fn reported_state(report: Option<Message>) -> TaskState {
    match report {
        Some(Message::Task(TaskKind::State(s))) => s,
        _ => TaskState::Failed,
    }
}

impl WorkerHandle {
    /// Registers a connection as worker `id` when it declared itself a worker.
    pub fn new(id: usize, identity: Option<Identity>) -> (r: Option<WorkerHandle>)
        ensures
            identity is Some ==> r == Some(
                WorkerHandle { id, ready: false, last_state: None },
            ),
            identity is None ==> r is None,
    {
        match identity {
            Some(Identity::Worker) => Some(WorkerHandle { id, ready: false, last_state: None }),
            None => None,
        }
    }

    /// Records the worker's answer to `IsReady`; true when it is `ReadyForTask`.
    pub fn is_ready(&mut self, answer: &Option<Message>) -> (r: bool)
        ensures
            r == (*answer == Some(Message::ReadyForTask)),
            *final(self) == (WorkerHandle { ready: r, ..*old(self) }),
    {
        let r = match answer {
            Some(Message::ReadyForTask) => true,
            _ => false,
        };
        self.ready = r;
        r
    }

    /// The message that hands `task` to the worker; the worker is then busy
    /// with a new task.
    pub fn run_task(&mut self, task: String) -> (r: Message)
        ensures
            r == Message::Task(TaskKind::Run(task)),
            *final(self) == (WorkerHandle {
                id: old(self).id,
                ready: false,
                last_state: Some(TaskState::New),
            }),
    {
        self.ready = false;
        self.last_state = Some(TaskState::New);
        Message::Task(TaskKind::Run(task))
    }

    /// Records and returns the state that the worker reported.
    pub fn get_current_task_status(&mut self, report: &Option<Message>) -> (r: TaskState)
        ensures
            r == reported_state(*report),
            *final(self) == (WorkerHandle { last_state: Some(r), ..*old(self) }),
    {
        let r = match report {
            Some(Message::Task(TaskKind::State(s))) => *s,
            _ => TaskState::Failed,
        };
        self.last_state = Some(r);
        r
    }
}

/// What the dispatcher does with a worker after its answer to `IsReady`.
#[derive(Debug, Clone, PartialEq, Eq)]
pub enum TickAction {
    /// Send this `Task.Run` to the worker.
    Dispatch(Message),
    /// Read the worker's latest `Task.State`, then pass it to `on_state_report`.
    AskState,
    /// The worker was removed from the registry.
    Evicted,
    /// Nothing more for this worker in this tick.
    Nothing,
}

/// The manager: the registry of workers in order of registration, and the
/// queue of pending commands, taken from the front.
pub struct Manager {
    workers: Vec<WorkerHandle>,
    tasks: VecDeque<String>,
    next_id: usize,
    /// Each command handed out, with the id of the worker that got it.
    dispatched: Ghost<Seq<(usize, String)>>,
    /// Every command ever queued, in order.
    submitted: Ghost<Seq<String>>,
}

pub open spec fn commands_of(d: Seq<(usize, String)>) -> Seq<String> {
    Seq::new(d.len(), |i: int| d[i].1)
}

impl Manager {
    pub closed spec fn registry(&self) -> Seq<WorkerHandle> {
        self.workers@
    }

    pub closed spec fn queue(&self) -> Seq<String> {
        self.tasks@
    }

    pub closed spec fn spec_next_id(&self) -> nat {
        self.next_id as nat
    }

    pub closed spec fn dispatched(&self) -> Seq<(usize, String)> {
        self.dispatched@
    }

    pub closed spec fn submitted(&self) -> Seq<String> {
        self.submitted@
    }

    /// Worker ids are given out in increasing order and never reused, and
    /// what was queued is exactly what was handed out followed by what waits.
    pub closed spec fn wf(&self) -> bool {
        &&& forall|i: int, j: int|
            0 <= i < j < self.workers@.len() ==> (#[trigger] self.workers@[i]).id
                < (#[trigger] self.workers@[j]).id
        &&& forall|i: int| 0 <= i < self.workers@.len() ==> (#[trigger] self.workers@[i]).id < self.next_id
        &&& self.submitted@ == commands_of(self.dispatched@) + self.tasks@
    }

    /// A manager with no worker and `tasks` queued in order.
    pub fn new(tasks: Vec<String>) -> (m: Manager)
        ensures
            m.wf(),
            m.registry() == Seq::<WorkerHandle>::empty(),
            m.queue() == tasks@,
            m.submitted() == tasks@,
            m.dispatched() == Seq::<(usize, String)>::empty(),
            m.spec_next_id() == 0,
    {
        let ghost all = tasks@;
        let q = deque_of(tasks);
        let m = Manager {
            workers: Vec::new(),
            tasks: q,
            next_id: 0,
            dispatched: Ghost(Seq::empty()),
            submitted: Ghost(all),
        };
        assert(commands_of(m.dispatched@) + m.tasks@ =~= all);
        m
    }

    /// Puts `cmd` at the back of the queue.
    pub fn add_task(&mut self, cmd: String)
        requires
            old(self).wf(),
        ensures
            final(self).wf(),
            final(self).queue() == old(self).queue().push(cmd),
            final(self).submitted() == old(self).submitted().push(cmd),
            final(self).registry() == old(self).registry(),
            final(self).dispatched() == old(self).dispatched(),
            final(self).spec_next_id() == old(self).spec_next_id(),
    {
        self.tasks.push_back(cmd);
        self.submitted = Ghost(self.submitted@.push(cmd));
        assert(self.submitted@ =~= commands_of(self.dispatched@) + self.tasks@);
    }

    pub fn worker_count(&self) -> (r: usize)
        ensures
            r == self.registry().len(),
    {
        self.workers.len()
    }

    pub fn pending_count(&self) -> (r: usize)
        ensures
            r == self.queue().len(),
    {
        self.tasks.len()
    }

    pub fn worker(&self, i: usize) -> (r: WorkerHandle)
        requires
            i < self.registry().len(),
        ensures
            r == self.registry()[i as int],
    {
        self.workers[i]
    }

    /// Registers a new connection from the identity it presented. A worker
    /// gets the next unused id and joins the end of the registry; anything
    /// else is turned away, as is every connection once the ids run out.
    pub fn register(&mut self, identity: Option<Identity>) -> (r: Option<usize>)
        requires
            old(self).wf(),
        ensures
            final(self).wf(),
            final(self).queue() == old(self).queue(),
            final(self).submitted() == old(self).submitted(),
            final(self).dispatched() == old(self).dispatched(),
            (identity is Some && old(self).spec_next_id() < usize::MAX) ==> {
                &&& r == Some(old(self).spec_next_id() as usize)
                &&& final(self).registry() == old(self).registry().push(
                    WorkerHandle { id: old(self).spec_next_id() as usize, ready: false, last_state: None },
                )
                &&& final(self).spec_next_id() == old(self).spec_next_id() + 1
            },
            !(identity is Some && old(self).spec_next_id() < usize::MAX) ==> {
                &&& r is None
                &&& final(self).registry() == old(self).registry()
                &&& final(self).spec_next_id() == old(self).spec_next_id()
            },
    {
        if self.next_id == usize::MAX {
            return None;
        }
        match WorkerHandle::new(self.next_id, identity) {
            Some(h) => {
                let id = self.next_id;
                let ghost before = self.workers@;
                self.workers.push(h);
                self.next_id = self.next_id + 1;
                assert forall|i: int, j: int| 0 <= i < j < self.workers@.len() implies (
                #[trigger] self.workers@[i]).id < (#[trigger] self.workers@[j]).id by {
                    assert(self.workers@[i] == before[i]);
                }
                assert forall|i: int| 0 <= i < self.workers@.len() implies (
                #[trigger] self.workers@[i]).id < self.next_id by {
                    if i < before.len() {
                        assert(self.workers@[i] == before[i]);
                    }
                }
                Some(id)
            },
            None => None,
        }
    }

    /// Removes the worker at `idx`; the others keep their order. A task the
    /// worker had is lost, not queued again.
    pub fn evict(&mut self, idx: usize)
        requires
            old(self).wf(),
            idx < old(self).registry().len(),
        ensures
            final(self).wf(),
            final(self).registry() == old(self).registry().remove(idx as int),
            final(self).queue() == old(self).queue(),
            final(self).submitted() == old(self).submitted(),
            final(self).dispatched() == old(self).dispatched(),
            final(self).spec_next_id() == old(self).spec_next_id(),
    {
        let ghost before = self.workers@;
        self.workers.remove(idx);
        assert forall|i: int, j: int| 0 <= i < j < self.workers@.len() implies (
        #[trigger] self.workers@[i]).id < (#[trigger] self.workers@[j]).id by {
            let oi = if i < idx { i } else { i + 1 };
            let oj = if j < idx { j } else { j + 1 };
            assert(self.workers@[i] == before[oi] && self.workers@[j] == before[oj]);
        }
        assert forall|i: int| 0 <= i < self.workers@.len() implies (
        #[trigger] self.workers@[i]).id < self.next_id by {
            let oi = if i < idx { i } else { i + 1 };
            assert(self.workers@[i] == before[oi]);
        }
    }

    /// Takes in worker `idx`'s answer to `IsReady`. A lost connection or a
    /// `Kill` removes the worker. A worker ready for a task is handed the
    /// command at the front of the queue, if any. A worker with a task in
    /// progress is asked for its state. Any other answer changes nothing.
    pub fn on_ready_answer(&mut self, idx: usize, answer: Option<Message>) -> (r: TickAction)
        requires
            old(self).wf(),
            idx < old(self).registry().len(),
        ensures
            final(self).wf(),
            final(self).submitted() == old(self).submitted(),
            final(self).spec_next_id() == old(self).spec_next_id(),
            ({
                let h = old(self).registry()[idx as int];
                let q = old(self).queue();
                match answer {
                    None => r == TickAction::Evicted && final(self).registry() == old(self).registry().remove(idx as int) && final(self).queue() == q && final(self).dispatched() == old(self).dispatched(),
                    Some(Message::Kill) => r == TickAction::Evicted && final(self).registry()
                        == old(self).registry().remove(idx as int) && final(self).queue() == q
                        && final(self).dispatched() == old(self).dispatched(),
                    Some(Message::ReadyForTask) => if q.len() > 0 {
                        &&& r == TickAction::Dispatch(Message::Task(TaskKind::Run(q[0])))
                        &&& final(self).queue() == q.drop_first()
                        &&& final(self).dispatched() == old(self).dispatched().push((h.id, q[0]))
                        &&& final(self).registry() == old(self).registry().update(
                            idx as int,
                            WorkerHandle { id: h.id, ready: false, last_state: Some(TaskState::New) },
                        )
                    } else {
                        &&& r == TickAction::Nothing
                        &&& final(self).queue() == q
                        &&& final(self).dispatched() == old(self).dispatched()
                        &&& final(self).registry() == old(self).registry().update(
                            idx as int,
                            WorkerHandle { ready: true, ..h },
                        )
                    },
                    Some(Message::Task(TaskKind::InProgress)) => {
                        &&& r == TickAction::AskState
                        &&& final(self).queue() == q
                        &&& final(self).dispatched() == old(self).dispatched()
                        &&& final(self).registry() == old(self).registry().update(
                            idx as int,
                            WorkerHandle { ready: false, ..h },
                        )
                    },
                    _ => {
                        &&& r == TickAction::Nothing
                        &&& final(self).queue() == q
                        &&& final(self).dispatched() == old(self).dispatched()
                        &&& final(self).registry() == old(self).registry()
                    },
                }
            }),
    {
        match &answer {
            None => {
                self.evict(idx);
                return TickAction::Evicted;
            },
            Some(Message::Kill) => {
                self.evict(idx);
                return TickAction::Evicted;
            },
            Some(Message::ReadyForTask) => {},
            Some(Message::Task(TaskKind::InProgress)) => {},
            _ => {
                return TickAction::Nothing;
            },
        }
        let mut h = self.workers[idx];
        let ready = h.is_ready(&answer);
        if ready {
            match self.tasks.pop_front() {
                Some(cmd) => {
                    let ghost c = cmd;
                    let msg = h.run_task(cmd);
                    self.workers.set(idx, h);
                    self.dispatched = Ghost(self.dispatched@.push((h.id, c)));
                    proof {
                        let old_q = old(self).tasks@;
                        assert(commands_of(self.dispatched@) =~= commands_of(old(self).dispatched@).push(c));
                        assert(old_q =~= seq![c] + self.tasks@);
                        assert(self.submitted@ =~= commands_of(self.dispatched@) + self.tasks@);
                    }
                    proof { lemma_ids_kept(old(self).workers@, self.workers@, idx as int, self.next_id as nat); }
                    TickAction::Dispatch(msg)
                },
                None => {
                    self.workers.set(idx, h);
                    proof { lemma_ids_kept(old(self).workers@, self.workers@, idx as int, self.next_id as nat); }
                    TickAction::Nothing
                },
            }
        } else {
            self.workers.set(idx, h);
            proof { lemma_ids_kept(old(self).workers@, self.workers@, idx as int, self.next_id as nat); }
            TickAction::AskState
        }
    }

    /// Takes in worker `idx`'s reply to a state request: a lost connection
    /// removes the worker; a reply is recorded as its latest state.
    pub fn on_state_report(&mut self, idx: usize, report: Option<Message>) -> (r: Option<TaskState>)
        requires
            old(self).wf(),
            idx < old(self).registry().len(),
        ensures
            final(self).wf(),
            final(self).queue() == old(self).queue(),
            final(self).submitted() == old(self).submitted(),
            final(self).dispatched() == old(self).dispatched(),
            final(self).spec_next_id() == old(self).spec_next_id(),
            report is None ==> r is None && final(self).registry() == old(self).registry().remove(
                idx as int,
            ),
            report is Some ==> r == Some(reported_state(report)) && final(self).registry() == old(self).registry().update(
                idx as int,
                WorkerHandle {
                    last_state: Some(reported_state(report)),
                    ..old(self).registry()[idx as int]
                },
            ),
    {
        if report.is_none() {
            self.evict(idx);
            return None;
        }
        let mut h = self.workers[idx];
        let s = h.get_current_task_status(&report);
        self.workers.set(idx, h);
        proof { lemma_ids_kept(old(self).workers@, self.workers@, idx as int, self.next_id as nat); }
        Some(s)
    }

}

/// A handle replaced in place with its id unchanged keeps the ids in order.
proof fn lemma_ids_kept(before: Seq<WorkerHandle>, after: Seq<WorkerHandle>, idx: int, next: nat)
    requires
        0 <= idx < before.len(),
        after == before.update(idx, after[idx]),
        after[idx].id == before[idx].id,
        forall|i: int, j: int|
            0 <= i < j < before.len() ==> (#[trigger] before[i]).id < (#[trigger] before[j]).id,
        forall|i: int| 0 <= i < before.len() ==> (#[trigger] before[i]).id < next,
    ensures
        forall|i: int, j: int|
            0 <= i < j < after.len() ==> (#[trigger] after[i]).id < (#[trigger] after[j]).id,
        forall|i: int| 0 <= i < after.len() ==> (#[trigger] after[i]).id < next,
{
    assert forall|i: int, j: int| 0 <= i < j < after.len() implies (#[trigger] after[i]).id < (
    #[trigger] after[j]).id by {
        assert(after[i].id == before[i].id && after[j].id == before[j].id);
    }
    assert forall|i: int| 0 <= i < after.len() implies (#[trigger] after[i]).id < next by {
        assert(after[i].id == before[i].id);
    }
}

/// Every command handed out is its own entry of the queued commands, taken
/// in the order they were queued, and a command still waiting has not been
/// handed out: no queued command goes to two workers.
pub proof fn lemma_dispatch_exclusive(m: &Manager)
    requires
        m.wf(),
    ensures
        m.dispatched().len() + m.queue().len() == m.submitted().len(),
        forall|i: int| 0 <= i < m.dispatched().len() ==> (#[trigger] m.dispatched()[i]).1 == m.submitted()[i],
        forall|i: int| 0 <= i < m.queue().len() ==> #[trigger] m.queue()[i] == m.submitted()[m.dispatched().len() + i],
{
    let d = commands_of(m.dispatched());
    assert forall|i: int| 0 <= i < m.dispatched().len() implies (#[trigger] m.dispatched()[i]).1
        == m.submitted()[i] by {
        assert(d[i] == m.dispatched()[i].1);
    }
}

/// Worker ids in the registry are distinct, so a recorded dispatch names
/// exactly one worker.
pub proof fn lemma_ids_unique(m: &Manager)
    requires
        m.wf(),
    ensures
        forall|i: int, j: int|
            0 <= i < m.registry().len() && 0 <= j < m.registry().len() && i != j ==> (
            #[trigger] m.registry()[i]).id != (#[trigger] m.registry()[j]).id,
{
}

} // verus!
