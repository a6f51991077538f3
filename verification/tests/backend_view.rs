//! The backend detail view: task cursor wrapping, the resource time window,
//! and the backends-list cursor.

use crankshaft_tui::app_state::AppState;
use crankshaft_tui::backend::{BackendStatus, HealthStatus};
use crankshaft_tui::event::{Key, KeyInput};
use crankshaft_tui::task::TaskState;
use crankshaft_tui::ui::{tasks_for_backend, BackendTab, BackendView};
use crankshaft_tui::update::{BackendUpdate, TaskUpdate};

fn key(k: Key) -> KeyInput {
    KeyInput::plain(k)
}

fn populated_state() -> AppState {
    let mut st = AppState::new(0);
    st.update_backends(
        vec![
            BackendUpdate::Status(
                "docker".to_string(),
                BackendStatus { running_tasks: 1, total_tasks: 2, health: HealthStatus::Healthy },
            ),
            BackendUpdate::Status(
                "tes".to_string(),
                BackendStatus { running_tasks: 0, total_tasks: 1, health: HealthStatus::Healthy },
            ),
        ],
        0,
    );
    st.update_tasks(
        vec![
            TaskUpdate::Created(TaskState::new(1, "a".to_string(), "docker".to_string(), None, 0)),
            TaskUpdate::Created(TaskState::new(2, "b".to_string(), "tes".to_string(), None, 0)),
            TaskUpdate::Created(TaskState::new(3, "c".to_string(), "docker".to_string(), None, 0)),
        ],
        0,
    );
    st
}

#[test]
fn task_cursor_wraps_over_the_backend_tasks() {
    let st = populated_state();
    let mut v = BackendView::new("docker".to_string());
    v.handle_key_event(key(Key::Tab), &st);
    assert_eq!(v.current_tab, BackendTab::Tasks);
    let down = key(Key::Char('j'));
    v.handle_key_event(down, &st);
    assert_eq!(v.task_cursor, Some(0));
    v.handle_key_event(down, &st);
    assert_eq!(v.task_cursor, Some(1));
    v.handle_key_event(down, &st);
    assert_eq!(v.task_cursor, Some(0), "two docker tasks, so the cursor wraps");
    v.handle_key_event(key(Key::Char('k')), &st);
    assert_eq!(v.task_cursor, Some(1), "moving up from the first row wraps to the last");
}

#[test]
fn cursor_stays_put_for_an_unknown_backend() {
    let st = populated_state();
    let mut v = BackendView::new("ghost".to_string());
    v.handle_key_event(key(Key::Tab), &st);
    v.handle_key_event(key(Key::Char('j')), &st);
    assert_eq!(v.task_cursor, None);
}

#[test]
fn resource_window_grows_and_never_drops_below_one() {
    let st = populated_state();
    let mut v = BackendView::new("docker".to_string());
    v.handle_key_event(key(Key::BackTab), &st);
    assert_eq!(v.current_tab, BackendTab::Resources);
    assert_eq!(v.resource_time_window, 10);
    v.handle_key_event(key(Key::Char('+')), &st);
    assert_eq!(v.resource_time_window, 15);
    v.handle_key_event(key(Key::Char('-')), &st);
    v.handle_key_event(key(Key::Char('-')), &st);
    v.handle_key_event(key(Key::Char('-')), &st);
    assert_eq!(v.resource_time_window, 1, "the window never drops below one minute");
}

#[test]
fn tasks_for_backend_lists_indices_in_order() {
    let st = populated_state();
    assert_eq!(tasks_for_backend(&st.tasks, &"docker".to_string()), vec![0, 2]);
    assert_eq!(tasks_for_backend(&st.tasks, &"tes".to_string()), vec![1]);
    assert!(tasks_for_backend(&st.tasks, &"ghost".to_string()).is_empty());
}

#[test]
fn backends_list_cursor_wraps_in_table_order() {
    let mut st = populated_state();
    assert_eq!(st.selected_backend, None);
    assert_eq!(st.selected_backend_name(), Some("docker".to_string()));
    st.select_next_backend();
    assert_eq!(st.selected_backend, Some("docker".to_string()));
    st.select_next_backend();
    assert_eq!(st.selected_backend, Some("tes".to_string()));
    st.select_next_backend();
    assert_eq!(st.selected_backend, Some("docker".to_string()), "wraps to the first");
    st.select_prev_backend();
    assert_eq!(st.selected_backend, Some("tes".to_string()), "wraps to the last");
    st.deselect_backend();
    assert_eq!(st.selected_backend, None);
}

#[test]
fn explicit_backend_selection_wins() {
    let mut st = populated_state();
    st.select_backend("tes");
    assert_eq!(st.selected_backend_name(), Some("tes".to_string()));
}
