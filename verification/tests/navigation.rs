//! The view-state machine: global keys, drilling into and out of the detail
//! screens, sub-tab cycling, and the pause toggle.

use crankshaft_tui::app_state::{AppState, Temporality};
use crankshaft_tui::event::{Event, EventDispatcher, EventHandler, EventResult, Key, KeyInput, PolledEvent};
use crankshaft_tui::task::TaskState;
use crankshaft_tui::ui::{BackendTab, DetailTab, TaskDetailView, Ui, UpdateKind, ViewState};
use crankshaft_tui::update::TaskUpdate;

fn key(k: Key) -> KeyInput {
    KeyInput::plain(k)
}

fn state_with_tasks(ids: &[u64]) -> AppState {
    let mut st = AppState::new(0);
    let updates = ids
        .iter()
        .map(|&id| {
            TaskUpdate::Created(TaskState::new(id, format!("task-{id}"), "b".to_string(), None, 0))
        })
        .collect();
    st.update_tasks(updates, 0);
    st
}

#[test]
fn navigation_scenario_dashboard_tasks_detail_and_back() {
    let mut st = state_with_tasks(&[1, 2, 3]);
    let mut handler = EventHandler::new(Ui::new());
    assert_eq!(*handler.ui.current_view(), ViewState::Dashboard);

    // press 't': the tasks list shows
    let r = handler.handle(Event::Key(key(Key::Char('t'))), &mut st);
    assert_eq!(r, EventResult::Continue);
    assert_eq!(*handler.ui.current_view(), ViewState::TasksList);

    // move the cursor onto task id 3
    st.selected_task_id = Some(3);

    // Enter drills into the detail view of task 3
    let r = handler.handle(Event::Key(key(Key::Enter)), &mut st);
    assert_eq!(r, EventResult::Continue);
    match handler.ui.current_view() {
        ViewState::TaskInstance(v) => {
            assert_eq!(v.task_id, 3);
            assert_eq!(v.current_tab, DetailTab::Info);
        }
        other => panic!("expected the task detail view, got {other:?}"),
    }
    assert!(st.current_task_details.is_some());
    assert_eq!(st.current_task_details.as_ref().unwrap().task_id, 3);

    // Esc goes back to the list and clears the selection, not merely hides it
    let r = handler.handle(Event::Key(key(Key::Esc)), &mut st);
    assert_eq!(r, EventResult::Continue);
    assert_eq!(*handler.ui.current_view(), ViewState::TasksList);
    assert!(st.current_task_details.is_none());
    assert_eq!(st.selected_task_id, None);
}

#[test]
fn global_keys_act_from_any_view() {
    let mut st = AppState::new(0);
    let mut ui = Ui::new();
    ui.navigate_to(ViewState::TaskInstance(TaskDetailView::new(9)));
    assert!(matches!(ui.handle_key_event(key(Key::Char('d')), &mut st), UpdateKind::Other));
    assert_eq!(*ui.current_view(), ViewState::Dashboard);
    assert!(matches!(ui.handle_key_event(key(Key::Char('b')), &mut st), UpdateKind::Other));
    assert_eq!(*ui.current_view(), ViewState::BackendsList);
    assert!(matches!(ui.handle_key_event(key(Key::Char('q')), &mut st), UpdateKind::Quit));
    assert!(matches!(ui.handle_key_event(key(Key::Char('?')), &mut st), UpdateKind::ToggleHelp));
    assert!(matches!(ui.handle_key_event(key(Key::Char('p')), &mut st), UpdateKind::TogglePause));
}

#[test]
fn list_navigation_moves_the_cursor_in_id_order() {
    let mut st = state_with_tasks(&[5, 2, 9]);
    let mut ui = Ui::new();
    ui.navigate_to(ViewState::TasksList);
    let down = key(Key::Char('j'));
    let up = key(Key::Char('k'));
    ui.handle_key_event(down, &mut st);
    assert_eq!(st.selected_task_id, Some(2));
    ui.handle_key_event(down, &mut st);
    assert_eq!(st.selected_task_id, Some(5));
    ui.handle_key_event(down, &mut st);
    assert_eq!(st.selected_task_id, Some(9));
    ui.handle_key_event(down, &mut st);
    assert_eq!(st.selected_task_id, Some(2), "moving past the last id wraps to the smallest");
    ui.handle_key_event(up, &mut st);
    assert_eq!(st.selected_task_id, Some(9), "moving before the first id wraps to the largest");
}

#[test]
fn selection_on_empty_task_table_stays_empty() {
    let mut st = AppState::new(0);
    st.select_next_task();
    assert_eq!(st.selected_task_id, None);
    st.select_prev_task();
    assert_eq!(st.selected_task_id, None);
}

#[test]
fn detail_tabs_cycle_both_ways() {
    let mut v = TaskDetailView::new(1);
    v.handle_key_event(key(Key::Tab));
    assert_eq!(v.current_tab, DetailTab::Logs);
    v.handle_key_event(key(Key::Tab));
    assert_eq!(v.current_tab, DetailTab::Resources);
    v.handle_key_event(key(Key::Tab));
    assert_eq!(v.current_tab, DetailTab::Info);
    v.handle_key_event(key(Key::BackTab));
    assert_eq!(v.current_tab, DetailTab::Resources);
}

#[test]
fn log_scrolling_within_the_logs_tab() {
    let mut v = TaskDetailView::new(1);
    v.handle_key_event(key(Key::Tab));
    assert_eq!(v.current_tab, DetailTab::Logs);
    v.handle_key_event(key(Key::Char('j')));
    v.handle_key_event(key(Key::Char('j')));
    assert_eq!(v.log_scroll, 2);
    v.handle_key_event(key(Key::Char('k')));
    assert_eq!(v.log_scroll, 1);
    v.handle_key_event(key(Key::Char('g')));
    assert_eq!(v.log_scroll, 0);
    v.handle_key_event(key(Key::Char('k')));
    assert_eq!(v.log_scroll, 0, "scrolling up stops at the top");
}

#[test]
fn backend_tab_cycle_matches_its_contract() {
    assert_eq!(BackendTab::Info.next(), BackendTab::Tasks);
    assert_eq!(BackendTab::Tasks.next(), BackendTab::Resources);
    assert_eq!(BackendTab::Resources.next(), BackendTab::Info);
    // prev inverts next, so Shift-Tab cycles backwards through every tab
    for tab in [BackendTab::Info, BackendTab::Tasks, BackendTab::Resources] {
        assert_eq!(tab.next().prev(), tab);
        assert_eq!(tab.prev().next(), tab);
    }
}

#[test]
fn control_shortcuts_exit_immediately() {
    let mut st = AppState::new(0);
    let mut handler = EventHandler::new(Ui::new());
    let ctrl_c = KeyInput { key: Key::Char('c'), ctrl: true };
    assert_eq!(handler.handle(Event::Key(ctrl_c), &mut st), EventResult::Exit);
    let ctrl_d = KeyInput { key: Key::Char('d'), ctrl: true };
    assert_eq!(handler.handle(Event::Key(ctrl_d), &mut st), EventResult::Exit);
    // a plain 'd' merely navigates
    assert_eq!(handler.handle(Event::Key(key(Key::Char('d'))), &mut st), EventResult::Continue);
}

#[test]
fn pause_toggle_through_the_handler() {
    let mut st = AppState::new(0);
    let mut handler = EventHandler::new(Ui::new());
    assert_eq!(st.temporality, Temporality::Live);
    handler.handle(Event::Key(key(Key::Char('p'))), &mut st);
    assert_eq!(st.temporality, Temporality::Paused);
    handler.handle(Event::Key(key(Key::Char('p'))), &mut st);
    assert_eq!(st.temporality, Temporality::Live);
    st.temporality = Temporality::Pausing;
    handler.handle(Event::Key(key(Key::Char('p'))), &mut st);
    assert_eq!(st.temporality, Temporality::Live);
    st.temporality = Temporality::Unpausing;
    handler.handle(Event::Key(key(Key::Char('p'))), &mut st);
    assert_eq!(st.temporality, Temporality::Paused);
}

#[test]
fn ticks_advance_animations_only() {
    let mut st = state_with_tasks(&[1]);
    let tasks_before = st.tasks.len();
    let temporality_before = st.temporality;
    let mut handler = EventHandler::new(Ui::new());
    let frame0 = handler.ui.animation_frame;
    handler.handle(Event::Tick, &mut st);
    assert_eq!(handler.ui.animation_frame, (frame0 + 1) % 4);
    assert_eq!(st.tasks.len(), tasks_before);
    assert_eq!(st.temporality, temporality_before);
}

#[test]
fn dispatcher_turns_polls_into_events() {
    let d = EventDispatcher::new();
    assert_eq!(d.tick_rate_ms, 100);
    let d = d.with_tick_rate(50);
    assert_eq!(d.tick_rate_ms, 50);
    let k = key(Key::Enter);
    assert_eq!(d.next(Some(PolledEvent::Key(k))), Event::Key(k));
    assert_eq!(d.next(Some(PolledEvent::Resize(80, 24))), Event::Resize(80, 24));
    assert_eq!(d.next(Some(PolledEvent::Other)), Event::Tick);
    assert_eq!(d.next(None), Event::Tick);
}

#[test]
fn resize_is_remembered_by_the_view() {
    let mut st = AppState::new(0);
    let mut handler = EventHandler::new(Ui::new());
    handler.handle(Event::Resize(132, 43), &mut st);
    assert_eq!(handler.ui.terminal_width, 132);
    assert_eq!(handler.ui.terminal_height, 43);
}
