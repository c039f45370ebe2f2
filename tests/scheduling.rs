use taskrunner::manager::{Manager, TickAction, WorkerHandle};
use taskrunner::message::{Identity, Message, TaskKind, TaskName};
use taskrunner::task::{Task, TaskError, TaskState, WaitOutcome};
use taskrunner::worker::{Worker, WorkerAction};

fn run(cmd: &str) -> Message {
    Message::Task(TaskKind::Run(cmd.to_string()))
}

fn report(s: TaskState) -> Message {
    Message::Task(TaskKind::State(s))
}

#[test]
fn task_lifecycle_success() {
    let mut t = Task::new("sleep 3".to_string());
    assert_eq!(t.state(), TaskState::New);
    assert_eq!(t.command(), "sleep 3");
    assert_eq!(t.start(true), Ok(()));
    assert_eq!(t.state(), TaskState::Running);
    assert_eq!(t.poll_command_state(WaitOutcome::StillRunning), Ok(TaskState::Running));
    assert_eq!(t.poll_command_state(WaitOutcome::Exited { success: true }), Ok(TaskState::Succeeded));
    assert_eq!(t.poll_command_state(WaitOutcome::Exited { success: false }), Err(TaskError::NotRunning));
    assert_eq!(t.state(), TaskState::Succeeded);
}

#[test]
fn task_exit_failure_and_poll_error() {
    let mut t = Task::new("false".to_string());
    assert_eq!(t.poll_command_state(WaitOutcome::StillRunning), Err(TaskError::NotRunning));
    assert_eq!(t.start(true), Ok(()));
    assert_eq!(t.poll_command_state(WaitOutcome::WaitFailed), Err(TaskError::FailedWait));
    assert_eq!(t.state(), TaskState::Running);
    assert_eq!(t.poll_command_state(WaitOutcome::Exited { success: false }), Ok(TaskState::Failed));
    assert_eq!(t.start(true), Err(TaskError::AlreadyStarted));
    assert_eq!(t.state(), TaskState::Failed);
}

#[test]
fn task_spawn_failure() {
    let mut t = Task::new("/nonexistent-binary".to_string());
    assert_eq!(t.start(false), Err(TaskError::SpawnFailed));
    assert_eq!(t.state(), TaskState::Failed);
}

#[test]
fn task_command_line_splits_on_whitespace() {
    let t = Task::new("  ls   -l\t/tmp ".to_string());
    assert_eq!(t.command_line(), Some(("ls".to_string(), vec!["-l".to_string(), "/tmp".to_string()])));
    let t = Task::new("echo".to_string());
    assert_eq!(t.command_line(), Some(("echo".to_string(), vec![])));
    assert_eq!(Task::new(" \t ".to_string()).command_line(), None);
}

#[test]
fn task_error_names() {
    assert_eq!(TaskError::NotRunning.name(), "NotRunning");
    assert_eq!(TaskError::FailedWait.name(), "FailedWait");
    assert_eq!(TaskError::SpawnFailed.name(), "SpawnFailed");
    assert_eq!(TaskError::AlreadyStarted.name(), "AlreadyStarted");
}

#[test]
fn worker_answers_readiness() {
    let mut w = Worker::new();
    assert!(w.is_idle());
    assert_eq!(w.process_read_message(Message::IsReady), WorkerAction::Reply(Message::ReadyForTask));
    let a = w.process_read_message(run("echo hi"));
    assert_eq!(a, WorkerAction::Launch("echo".to_string(), vec!["hi".to_string()]));
    assert!(!w.is_idle());
    assert_eq!(w.process_read_message(Message::IsReady), WorkerAction::Reply(Message::Task(TaskKind::InProgress)));
    assert_eq!(w.communicate_is_ready(), Message::Task(TaskKind::InProgress));
}

#[test]
fn worker_reports_running_then_succeeded() {
    let mut w = Worker::new();
    w.process_read_message(run("echo hi"));
    assert_eq!(w.task_state(), Some(TaskState::New));
    assert_eq!(w.launched(true), None);
    assert_eq!(w.task_state(), Some(TaskState::Running));
    assert_eq!(w.poll_task(WaitOutcome::StillRunning), Some(report(TaskState::Running)));
    assert_eq!(w.poll_task(WaitOutcome::Exited { success: true }), Some(report(TaskState::Succeeded)));
    assert!(w.is_idle());
    assert_eq!(w.task_state(), None);
    assert_eq!(w.poll_task(WaitOutcome::StillRunning), None);
}

#[test]
fn worker_reports_exit_failure_and_poll_error() {
    let mut w = Worker::new();
    w.process_read_message(run("false"));
    w.launched(true);
    assert_eq!(w.poll_task(WaitOutcome::Exited { success: false }), Some(report(TaskState::Failed)));
    assert!(w.is_idle());
    w.process_read_message(run("sleep 9"));
    w.launched(true);
    assert_eq!(w.poll_task(WaitOutcome::WaitFailed), Some(report(TaskState::Failed)));
    assert!(w.is_idle());
}

#[test]
fn worker_spawn_failure_reports_failed_without_running() {
    let mut w = Worker::new();
    let a = w.process_read_message(run("/nonexistent-binary"));
    assert_eq!(a, WorkerAction::Launch("/nonexistent-binary".to_string(), vec![]));
    assert_eq!(w.poll_task(WaitOutcome::StillRunning), None);
    assert_eq!(w.launched(false), Some(report(TaskState::Failed)));
    assert!(w.is_idle());
    assert_eq!(w.poll_task(WaitOutcome::StillRunning), None);
}

#[test]
fn worker_empty_command_fails_at_once() {
    let mut w = Worker::new();
    assert_eq!(w.process_read_message(run("   ")), WorkerAction::Reply(report(TaskState::Failed)));
    assert!(w.is_idle());
}

#[test]
fn busy_worker_keeps_its_task() {
    let mut w = Worker::new();
    w.process_read_message(run("sleep 3"));
    w.launched(true);
    assert_eq!(w.process_read_message(run("echo other")), WorkerAction::Ignore);
    assert_eq!(w.task_state(), Some(TaskState::Running));
    assert_eq!(w.launched(true), None);
    assert_eq!(w.task_state(), Some(TaskState::Running));
}

#[test]
fn worker_stops_on_kill_and_ignores_others() {
    let mut w = Worker::new();
    assert_eq!(w.process_read_message(Message::Kill), WorkerAction::Stop);
    assert_eq!(w.process_read_message(Message::Invalid), WorkerAction::Ignore);
    assert_eq!(w.process_read_message(Message::ReadyForTask), WorkerAction::Ignore);
}

#[test]
fn handle_new_requires_worker_identity() {
    assert_eq!(WorkerHandle::new(4, Some(Identity::Worker)), Some(WorkerHandle { id: 4, ready: false, last_state: None }));
    assert_eq!(WorkerHandle::new(4, None), None);
}

#[test]
fn handle_records_answers() {
    let mut h = WorkerHandle::new(0, Some(Identity::Worker)).unwrap();
    assert!(h.is_ready(&Some(Message::ReadyForTask)));
    assert!(h.ready);
    assert_eq!(h.run_task("ls".to_string()), run("ls"));
    assert!(!h.ready);
    assert_eq!(h.last_state, Some(TaskState::New));
    assert!(!h.is_ready(&Some(Message::Task(TaskKind::InProgress))));
    assert_eq!(h.get_current_task_status(&Some(report(TaskState::Running))), TaskState::Running);
    assert_eq!(h.get_current_task_status(&Some(report(TaskState::Succeeded))), TaskState::Succeeded);
    assert_eq!(h.last_state, Some(TaskState::Succeeded));
    assert_eq!(h.get_current_task_status(&Some(Message::Invalid)), TaskState::Failed);
    assert_eq!(h.last_state, Some(TaskState::Failed));
}

#[test]
fn register_assigns_fresh_ids() {
    let mut m = Manager::new(vec![]);
    assert_eq!(m.register(Some(Identity::Worker)), Some(0));
    assert_eq!(m.register(None), None);
    assert_eq!(m.register(Some(Identity::Worker)), Some(1));
    assert_eq!(m.worker_count(), 2);
    m.evict(0);
    assert_eq!(m.register(Some(Identity::Worker)), Some(2));
    assert_eq!(m.worker(0).id, 1);
    assert_eq!(m.worker(1).id, 2);
}

#[test]
fn scenario_empty_queue_sends_no_task() {
    let mut m = Manager::new(vec![]);
    m.register(Some(Identity::Worker));
    assert_eq!(m.on_ready_answer(0, Some(Message::ReadyForTask)), TickAction::Nothing);
    assert!(m.worker(0).ready);
    assert_eq!(m.pending_count(), 0);
}

#[test]
fn scenario_single_task_runs_to_success() {
    let mut m = Manager::new(vec!["echo hi".to_string()]);
    m.register(Some(Identity::Worker));
    let mut w = Worker::new();
    let answer = match w.process_read_message(Message::IsReady) {
        WorkerAction::Reply(msg) => msg,
        other => panic!("unexpected {:?}", other),
    };
    let action = m.on_ready_answer(0, Some(answer));
    assert_eq!(action, TickAction::Dispatch(run("echo hi")));
    assert_eq!(m.pending_count(), 0);
    let msg = match action {
        TickAction::Dispatch(msg) => msg,
        _ => unreachable!(),
    };
    assert_eq!(w.process_read_message(msg), WorkerAction::Launch("echo".to_string(), vec!["hi".to_string()]));
    assert_eq!(w.launched(true), None);
    let running = w.poll_task(WaitOutcome::StillRunning);
    assert_eq!(m.on_ready_answer(0, Some(w.communicate_is_ready())), TickAction::AskState);
    assert_eq!(m.on_state_report(0, running), Some(TaskState::Running));
    let done = w.poll_task(WaitOutcome::Exited { success: true });
    assert_eq!(m.on_state_report(0, done), Some(TaskState::Succeeded));
    assert_eq!(m.worker(0).last_state, Some(TaskState::Succeeded));
    assert!(w.is_idle());
}

#[test]
fn scenario_in_progress_does_not_pop() {
    let mut m = Manager::new(vec!["a".to_string()]);
    m.register(Some(Identity::Worker));
    assert_eq!(m.on_ready_answer(0, Some(Message::Task(TaskKind::InProgress))), TickAction::AskState);
    assert_eq!(m.pending_count(), 1);
    assert_eq!(m.on_state_report(0, Some(report(TaskState::Running))), Some(TaskState::Running));
    assert_eq!(m.worker(0).last_state, Some(TaskState::Running));
    assert_eq!(m.pending_count(), 1);
}

#[test]
fn scenario_dropped_connection_evicts_worker() {
    let mut m = Manager::new(vec!["a".to_string()]);
    m.register(Some(Identity::Worker));
    m.register(Some(Identity::Worker));
    assert_eq!(m.on_ready_answer(0, None), TickAction::Evicted);
    assert_eq!(m.worker_count(), 1);
    assert_eq!(m.worker(0).id, 1);
    assert_eq!(m.on_ready_answer(0, Some(Message::ReadyForTask)), TickAction::Dispatch(run("a")));
    assert_eq!(m.on_state_report(0, None), None);
    assert_eq!(m.worker_count(), 0);
    assert_eq!(m.pending_count(), 0);
}

#[test]
fn kill_answer_evicts_worker() {
    let mut m = Manager::new(vec![]);
    m.register(Some(Identity::Worker));
    assert_eq!(m.on_ready_answer(0, Some(Message::Kill)), TickAction::Evicted);
    assert_eq!(m.worker_count(), 0);
}

#[test]
fn queue_is_served_first_in_first_out() {
    let mut m = Manager::new(vec!["first".to_string(), "second".to_string()]);
    m.add_task("third".to_string());
    m.register(Some(Identity::Worker));
    m.register(Some(Identity::Worker));
    assert_eq!(m.on_ready_answer(0, Some(Message::ReadyForTask)), TickAction::Dispatch(run("first")));
    assert_eq!(m.on_ready_answer(1, Some(Message::ReadyForTask)), TickAction::Dispatch(run("second")));
    assert_eq!(m.on_ready_answer(0, Some(Message::ReadyForTask)), TickAction::Dispatch(run("third")));
    assert_eq!(m.on_ready_answer(1, Some(Message::ReadyForTask)), TickAction::Nothing);
    assert_eq!(m.pending_count(), 0);
}

#[test]
fn unexpected_answer_changes_nothing() {
    let mut m = Manager::new(vec!["a".to_string()]);
    m.register(Some(Identity::Worker));
    assert_eq!(m.on_ready_answer(0, Some(Message::Invalid)), TickAction::Nothing);
    assert_eq!(m.pending_count(), 1);
    assert_eq!(m.worker_count(), 1);
}

#[test]
fn task_name_holds_command() {
    let n = TaskName("sleep 3".to_string());
    assert_eq!(n.0, "sleep 3");
}
