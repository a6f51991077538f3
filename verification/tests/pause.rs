//! Pause semantics: while paused, polled updates are discarded wholesale;
//! once live again, the buffered updates apply in their original order.

use crankshaft_tui::app::{App, AppConfig};
use crankshaft_tui::backend::{BackendStatus, HealthStatus};
use crankshaft_tui::event::{Event, Key, KeyInput};
use crankshaft_tui::task::{TaskState, TaskStatus};
use crankshaft_tui::ui::ViewState;
use crankshaft_tui::update::{BackendUpdate, TaskUpdate};

fn task(id: u64) -> TaskState {
    TaskState::new(id, format!("task-{id}"), "b".to_string(), None, 0)
}

fn task_batch(n: u64) -> Vec<TaskUpdate> {
    let mut updates = Vec::new();
    for id in 1..=n {
        updates.push(TaskUpdate::Created(task(id)));
        updates.push(TaskUpdate::StatusChanged(id, TaskStatus::Running));
    }
    updates
}

fn backend_batch() -> Vec<BackendUpdate> {
    vec![BackendUpdate::Status(
        "b".to_string(),
        BackendStatus { running_tasks: 1, total_tasks: 2, health: HealthStatus::Healthy },
    )]
}

#[test]
fn paused_updates_leave_every_record_unchanged() {
    let mut app = App::new(AppConfig::new(), 0);
    app.update(Some(task_batch(2)), Some(backend_batch()), 10);
    let tasks_before: Vec<(u64, TaskStatus)> =
        app.state.tasks.iter().map(|t| (t.id, t.status)).collect();
    let backends_before = app.state.backends.clone();
    let last_update_before = app.state.last_update;

    // pause, then feed several rounds of updates and render-model passes
    app.handle_event(Event::Key(KeyInput::plain(Key::Char('p'))));
    for round in 0..3 {
        app.update(Some(task_batch(5)), Some(backend_batch()), 100 + round);
        let _ = crankshaft_tui::render_model::DashboardView::status_counts(&app.state.tasks);
        let _ = crankshaft_tui::render_model::DashboardView::system_status(&app.state.backends);
    }
    let tasks_after: Vec<(u64, TaskStatus)> =
        app.state.tasks.iter().map(|t| (t.id, t.status)).collect();
    assert_eq!(tasks_after, tasks_before);
    assert_eq!(app.state.backends, backends_before);
    assert_eq!(app.state.last_update, last_update_before);
}

#[test]
fn draining_after_unpause_applies_buffered_updates_in_order() {
    // what arrives while paused is queued outside the state; on unpause the
    // buffered batches apply exactly as if they had arrived live, in order
    let buffered = || -> Vec<Vec<TaskUpdate>> {
        vec![
            vec![TaskUpdate::Created(task(1))],
            vec![TaskUpdate::StatusChanged(1, TaskStatus::Running)],
            vec![TaskUpdate::Completed(1, Ok(()))],
        ]
    };

    let mut paused_then_drained = App::new(AppConfig::new(), 0);
    paused_then_drained.handle_event(Event::Key(KeyInput::plain(Key::Char('p'))));
    for batch in buffered() {
        paused_then_drained.update(Some(batch), None, 50);
    }
    assert!(paused_then_drained.state.tasks.is_empty(), "nothing applies while paused");
    paused_then_drained.handle_event(Event::Key(KeyInput::plain(Key::Char('p'))));
    for batch in buffered() {
        paused_then_drained.update(Some(batch), None, 50);
    }

    let mut always_live = App::new(AppConfig::new(), 0);
    always_live.update(Some(vec![TaskUpdate::Created(task(1))]), None, 50);
    always_live.update(Some(vec![TaskUpdate::StatusChanged(1, TaskStatus::Running)]), None, 50);
    always_live.update(Some(vec![TaskUpdate::Completed(1, Ok(()))]), None, 50);

    assert_eq!(paused_then_drained.state.tasks.len(), always_live.state.tasks.len());
    let a = &paused_then_drained.state.tasks[0];
    let b = &always_live.state.tasks[0];
    assert_eq!(a.id, b.id);
    assert_eq!(a.status, b.status);
    assert_eq!(a.end_time, b.end_time);
    assert_eq!(a.status, TaskStatus::Completed);
}

#[test]
fn quit_keys_raise_the_quit_flag() {
    let mut app = App::new(AppConfig::new(), 0);
    assert!(!app.should_quit);
    app.handle_event(Event::Key(KeyInput::plain(Key::Char('q'))));
    assert!(app.should_quit);

    let mut app = App::new(AppConfig::new(), 0);
    app.handle_event(Event::Key(KeyInput::plain(Key::Esc)));
    assert!(app.should_quit, "Escape outside a detail view quits");
}

#[test]
fn escape_in_a_detail_view_goes_back_instead_of_quitting() {
    let mut app = App::new(AppConfig::new(), 0);
    app.update(Some(vec![TaskUpdate::Created(task(3))]), None, 0);
    app.handle_event(Event::Key(KeyInput::plain(Key::Char('t'))));
    app.state.selected_task_id = Some(3);
    app.handle_event(Event::Key(KeyInput::plain(Key::Enter)));
    assert!(matches!(app.ui.state, ViewState::TaskInstance(_)));
    assert!(app.state.current_task_details.is_some(), "Enter materializes the detail record");

    app.handle_event(Event::Key(KeyInput::plain(Key::Esc)));
    assert!(!app.should_quit, "Escape in a detail view is back, not quit");
    assert_eq!(app.ui.state, ViewState::TasksList);
    assert!(app.state.current_task_details.is_none());
    assert_eq!(app.state.selected_task_id, None);

    app.handle_event(Event::Key(KeyInput::plain(Key::Esc)));
    assert!(app.should_quit, "a second Escape, now on the list, quits");
}

#[test]
fn config_defaults() {
    let c = AppConfig::new();
    assert_eq!(c.tick_rate_ms, 250);
    assert_eq!(c.refresh_rate_ms, 1000);
    assert!(!c.debug_mode);
}
