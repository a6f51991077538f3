//! Update application: the task invariant, idempotence of backend status
//! updates, strict ordering, and the unknown-target policies.

use crankshaft_tui::app_state::AppState;
use crankshaft_tui::backend::{BackendKind, BackendStatus, HealthStatus};
use crankshaft_tui::task::{TaskState, TaskStatus};
use crankshaft_tui::update::{BackendUpdate, ResourceUsage, TaskUpdate};

fn task(id: u64, name: &str, backend: &str) -> TaskState {
    TaskState::new(id, name.to_string(), backend.to_string(), None, 1_000)
}

fn fresh_state() -> AppState {
    AppState::new(0)
}

#[test]
fn created_task_starts_in_created_state() {
    let t = task(1, "genome-analysis", "docker-local");
    assert_eq!(t.status, TaskStatus::Created);
    assert_eq!(t.progress, None);
    assert_eq!(t.end_time, None);
    assert!(t.is_active());
    assert!(!t.can_cancel());
}

#[test]
fn end_time_iff_terminal_through_status_changes() {
    let mut st = fresh_state();
    st.update_tasks(vec![TaskUpdate::Created(task(1, "a", "b"))], 10);
    st.update_tasks(
        vec![
            TaskUpdate::StatusChanged(1, TaskStatus::Queued),
            TaskUpdate::StatusChanged(1, TaskStatus::Running),
        ],
        20,
    );
    for t in &st.tasks {
        assert_eq!(t.end_time.is_some(), t.status.is_terminal());
    }
    st.update_tasks(vec![TaskUpdate::StatusChanged(1, TaskStatus::Cancelled)], 30);
    assert_eq!(st.tasks[0].status, TaskStatus::Cancelled);
    assert_eq!(st.tasks[0].end_time, Some(30));
    for t in &st.tasks {
        assert_eq!(t.end_time.is_some(), t.status.is_terminal());
    }
}

#[test]
fn completion_sets_end_time_and_outcome_status() {
    let mut st = fresh_state();
    st.update_tasks(vec![TaskUpdate::Created(task(1, "ok", "b"))], 10);
    st.update_tasks(vec![TaskUpdate::Created(task(2, "bad", "b"))], 10);
    st.update_tasks(
        vec![
            TaskUpdate::Completed(1, Ok(())),
            TaskUpdate::Completed(2, Err("boom".to_string())),
        ],
        40,
    );
    assert_eq!(st.tasks[0].status, TaskStatus::Completed);
    assert_eq!(st.tasks[0].end_time, Some(40));
    assert_eq!(st.tasks[1].status, TaskStatus::Failed);
    assert_eq!(st.tasks[1].end_time, Some(40));
    for t in &st.tasks {
        assert_eq!(t.end_time.is_some(), t.status.is_terminal());
    }
}

#[test]
fn end_time_is_set_exactly_once() {
    let mut st = fresh_state();
    st.update_tasks(vec![TaskUpdate::Created(task(1, "a", "b"))], 10);
    st.update_tasks(vec![TaskUpdate::Completed(1, Ok(()))], 40);
    st.update_tasks(vec![TaskUpdate::Completed(1, Ok(()))], 99);
    assert_eq!(st.tasks[0].end_time, Some(40));
}

#[test]
fn progress_saturates_at_done() {
    let mut st = fresh_state();
    st.update_tasks(vec![TaskUpdate::Created(task(1, "a", "b"))], 10);
    st.update_tasks(vec![TaskUpdate::Progress(1, 2_500)], 20);
    assert_eq!(st.tasks[0].progress, Some(2_500));
    st.update_tasks(vec![TaskUpdate::Progress(1, 60_000)], 30);
    assert_eq!(st.tasks[0].progress, Some(10_000));
}

#[test]
fn unknown_task_updates_are_dropped() {
    let mut st = fresh_state();
    st.update_tasks(vec![TaskUpdate::Created(task(1, "a", "b"))], 10);
    st.update_tasks(
        vec![
            TaskUpdate::StatusChanged(999, TaskStatus::Running),
            TaskUpdate::Progress(999, 10),
            TaskUpdate::ResourceUsage(999, ResourceUsage { cpu: 1, memory: 1 }),
            TaskUpdate::Completed(999, Ok(())),
        ],
        20,
    );
    assert_eq!(st.tasks.len(), 1);
    assert_eq!(st.tasks[0].status, TaskStatus::Created);
    assert_eq!(st.tasks[0].progress, None);
}

#[test]
fn created_with_same_id_replaces_the_record() {
    let mut st = fresh_state();
    st.update_tasks(vec![TaskUpdate::Created(task(7, "first", "b"))], 10);
    st.update_tasks(vec![TaskUpdate::Created(task(7, "second", "b"))], 20);
    assert_eq!(st.tasks.len(), 1);
    assert_eq!(st.tasks[0].name, "second");
}

#[test]
fn unknown_backend_status_synthesizes_default_record() {
    let mut st = fresh_state();
    assert!(st.backends.is_empty());
    st.update_backends(
        vec![BackendUpdate::Status(
            "ghost-backend".to_string(),
            BackendStatus { running_tasks: 2, total_tasks: 5, health: HealthStatus::Degraded },
        )],
        50,
    );
    assert_eq!(st.backends.len(), 1);
    let b = &st.backends[0];
    assert_eq!(b.name, "ghost-backend");
    assert_eq!(b.kind, BackendKind::Unknown);
    assert_eq!(b.health, HealthStatus::Degraded);
    assert_eq!(b.running_tasks, 2);
    assert_eq!(b.total_tasks, 5);
    assert_eq!(b.cpu_usage, 0);
    assert_eq!(b.memory_usage, 0);
    assert!(b.resource_history.is_empty());
}

#[test]
fn backend_status_update_is_idempotent() {
    let status = BackendStatus { running_tasks: 2, total_tasks: 5, health: HealthStatus::Degraded };
    let mut once = fresh_state();
    once.update_backends(
        vec![BackendUpdate::Status("ghost-backend".to_string(), status)],
        50,
    );
    let mut twice = fresh_state();
    twice.update_backends(
        vec![BackendUpdate::Status("ghost-backend".to_string(), status)],
        50,
    );
    twice.update_backends(
        vec![BackendUpdate::Status("ghost-backend".to_string(), status)],
        9_999,
    );
    assert_eq!(once.backends, twice.backends);
    // backend updates never touch the name cache
    assert_eq!(
        crankshaft_tui::ext::interner_len(&once.strings),
        crankshaft_tui::ext::interner_len(&twice.strings)
    );
    assert_eq!(crankshaft_tui::ext::interner_len(&once.strings), 0);
}

#[test]
fn unknown_backend_usage_update_creates_a_default_record() {
    let mut st = fresh_state();
    st.update_backends(
        vec![BackendUpdate::ResourceUsage(
            "nobody".to_string(),
            ResourceUsage { cpu: 1_234, memory: 55_000 },
        )],
        50,
    );
    assert_eq!(st.backends.len(), 1);
    let b = &st.backends[0];
    assert_eq!(b.name, "nobody");
    assert_eq!(b.kind, BackendKind::Unknown);
    assert_eq!(b.health, HealthStatus::Unknown);
    assert_eq!(b.running_tasks, 0);
    assert_eq!(b.total_tasks, 0);
    assert_eq!(b.cpu_usage, 1_234);
    assert_eq!(b.memory_usage, 10_000, "usage is clamped on the fresh record too");
    assert_eq!(b.last_update, 50);
}

#[test]
fn unknown_backend_kind_update_creates_a_default_record() {
    let mut st = fresh_state();
    st.update_backends(
        vec![BackendUpdate::Kind("nobody".to_string(), BackendKind::Docker)],
        50,
    );
    assert_eq!(st.backends.len(), 1);
    let b = &st.backends[0];
    assert_eq!(b.name, "nobody");
    assert_eq!(b.kind, BackendKind::Docker);
    assert_eq!(b.health, HealthStatus::Unknown);
    assert_eq!(b.running_tasks, 0);
    assert_eq!(b.total_tasks, 0);
    assert_eq!(b.last_update, 50);
}

#[test]
fn backend_usage_is_clamped() {
    let mut st = fresh_state();
    st.update_backends(
        vec![BackendUpdate::Status(
            "b".to_string(),
            BackendStatus { running_tasks: 0, total_tasks: 0, health: HealthStatus::Healthy },
        )],
        50,
    );
    st.update_backends(
        vec![BackendUpdate::ResourceUsage(
            "b".to_string(),
            ResourceUsage { cpu: 55_000, memory: 123 },
        )],
        60,
    );
    assert_eq!(st.backends[0].cpu_usage, 10_000);
    assert_eq!(st.backends[0].memory_usage, 123);
}

#[test]
fn batched_updates_equal_sequential_updates() {
    let u1 = || {
        BackendUpdate::Status(
            "b".to_string(),
            BackendStatus { running_tasks: 1, total_tasks: 4, health: HealthStatus::Healthy },
        )
    };
    let u2 = || BackendUpdate::Kind("b".to_string(), BackendKind::Docker);

    let mut batched = fresh_state();
    batched.update_backends(vec![u1(), u2()], 50);

    let mut sequential = fresh_state();
    sequential.update_backends(vec![u1()], 50);
    sequential.update_backends(vec![u2()], 50);

    assert_eq!(batched.backends, sequential.backends);
}

#[test]
fn task_batch_equals_sequential_and_order_matters() {
    let mut batched = fresh_state();
    batched.update_tasks(
        vec![
            TaskUpdate::Created(task(1, "a", "b")),
            TaskUpdate::StatusChanged(1, TaskStatus::Running),
        ],
        20,
    );
    let mut sequential = fresh_state();
    sequential.update_tasks(vec![TaskUpdate::Created(task(1, "a", "b"))], 20);
    sequential.update_tasks(vec![TaskUpdate::StatusChanged(1, TaskStatus::Running)], 20);
    assert_eq!(batched.tasks[0].status, sequential.tasks[0].status);
    assert_eq!(batched.tasks[0].name, sequential.tasks[0].name);

    // the opposite order drops the status change: the task does not exist yet
    let mut reordered = fresh_state();
    reordered.update_tasks(
        vec![
            TaskUpdate::StatusChanged(1, TaskStatus::Running),
            TaskUpdate::Created(task(1, "a", "b")),
        ],
        20,
    );
    assert_eq!(reordered.tasks[0].status, TaskStatus::Created);
}

#[test]
fn logs_and_usage_reach_only_the_selected_task_details() {
    let mut st = fresh_state();
    st.update_tasks(vec![TaskUpdate::Created(task(1, "a", "b"))], 10);
    st.update_tasks(vec![TaskUpdate::Created(task(2, "c", "b"))], 10);
    st.select_task(1);
    st.update_tasks(
        vec![
            TaskUpdate::Logs(1, "hello".to_string()),
            TaskUpdate::Logs(2, "other".to_string()),
            TaskUpdate::ResourceUsage(1, ResourceUsage { cpu: 777, memory: 888 }),
            TaskUpdate::ResourceUsage(2, ResourceUsage { cpu: 1, memory: 1 }),
        ],
        77,
    );
    let details = st.current_task_details.as_ref().unwrap();
    assert_eq!(details.task_id, 1);
    assert_eq!(details.logs, vec!["hello".to_string()]);
    assert_eq!(details.resource_history.len(), 1);
    assert_eq!(details.resource_history[0].timestamp, 77);
    assert_eq!(details.resource_history[0].cpu, 777);
    assert_eq!(details.resource_history[0].memory, 888);
    // the task records carry the instantaneous readings either way
    assert_eq!(st.tasks[0].cpu_usage, 777);
    assert_eq!(st.tasks[1].cpu_usage, 1);
}

#[test]
fn last_update_is_stamped_by_task_batches() {
    let mut st = fresh_state();
    assert_eq!(st.last_update, 0);
    st.update_tasks(vec![], 1234);
    assert_eq!(st.last_update, 1234);
}
