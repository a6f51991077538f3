//! View models: the missing-entity placeholders, dashboard counts, sorting,
//! and the row formulas.

use crankshaft_tui::app_state::{AppState, Temporality};
use crankshaft_tui::event::{Key, KeyInput};
use crankshaft_tui::backend::{BackendKind, BackendStatus, HealthStatus};
use crankshaft_tui::render_model::{
    BackendDetailContent, DashboardView, HelpView, LogView, ProgressStage, RectModel,
    SeverityLevel, SystemStatus, TaskDetailContent, Trend, backend_detail_content,
    progress_stage, severity_level, task_detail_content, temporality_label, trend_between,
};
use crankshaft_tui::task::{TaskState, TaskStatus};
use crankshaft_tui::task_list::{
    DurationText, SortField, TaskListView, format_duration, progress_cells, sort_tasks, str_le,
};
use crankshaft_tui::ui::count_backend_tasks;
use crankshaft_tui::update::{BackendUpdate, TaskUpdate};

fn task(id: u64, name: &str, backend: &str, started: i64) -> TaskState {
    let mut t = TaskState::new(id, name.to_string(), backend.to_string(), None, started);
    t.cpu_usage = (id as u32) * 100;
    t.memory_usage = 10_000 - (id as u32) * 100;
    t
}

#[test]
fn missing_task_detail_renders_the_not_found_placeholder() {
    let mut st = AppState::new(0);
    st.update_tasks(vec![TaskUpdate::Created(task(1, "a", "b", 0))], 0);
    match task_detail_content(&st, 999, 1_000) {
        TaskDetailContent::NotFound(id) => assert_eq!(id, 999),
        TaskDetailContent::Found(_) => panic!("task 999 does not exist"),
    }
}

#[test]
fn present_task_detail_carries_the_record() {
    let mut st = AppState::new(0);
    st.update_tasks(vec![TaskUpdate::Created(task(3, "genome", "docker", 100))], 0);
    st.update_tasks(vec![TaskUpdate::Progress(3, 5_000)], 0);
    match task_detail_content(&st, 3, 1_100) {
        TaskDetailContent::Found(s) => {
            assert_eq!(s.id, 3);
            assert_eq!(s.name, "genome");
            assert_eq!(s.backend, "docker");
            assert_eq!(s.status, TaskStatus::Created);
            assert_eq!(s.progress, Some(5_000));
            assert_eq!(s.start_time, 100);
            assert_eq!(s.end_time, None);
            assert_eq!(s.elapsed_ms, 1_000);
        }
        TaskDetailContent::NotFound(_) => panic!("task 3 exists"),
    }
}

#[test]
fn missing_backend_detail_renders_the_not_found_placeholder() {
    let st = AppState::new(0);
    match backend_detail_content(&st, &"ghost".to_string()) {
        BackendDetailContent::NotFound(name) => assert_eq!(name, "ghost"),
        BackendDetailContent::Found(_) => panic!("no backend exists"),
    }
}

#[test]
fn present_backend_detail_carries_the_record() {
    let mut st = AppState::new(0);
    st.update_backends(
        vec![BackendUpdate::Status(
            "docker".to_string(),
            BackendStatus { running_tasks: 1, total_tasks: 4, health: HealthStatus::Healthy },
        )],
        20,
    );
    match backend_detail_content(&st, &"docker".to_string()) {
        BackendDetailContent::Found(s) => {
            assert_eq!(s.name, "docker");
            assert_eq!(s.kind, BackendKind::Unknown);
            assert_eq!(s.health, HealthStatus::Healthy);
            assert_eq!(s.running_tasks, 1);
            assert_eq!(s.total_tasks, 4);
            assert_eq!(s.utilization_bp, 2_500);
            assert_eq!(s.last_update, 20);
        }
        BackendDetailContent::NotFound(_) => panic!("backend exists"),
    }
}

#[test]
fn status_counts_by_status() {
    let mut st = AppState::new(0);
    st.update_tasks(
        vec![
            TaskUpdate::Created(task(1, "a", "b", 0)),
            TaskUpdate::Created(task(2, "c", "b", 0)),
            TaskUpdate::Created(task(3, "d", "b", 0)),
            TaskUpdate::StatusChanged(2, TaskStatus::Running),
            TaskUpdate::Completed(3, Err("x".to_string())),
        ],
        0,
    );
    let counts = DashboardView::status_counts(&st.tasks);
    assert_eq!(counts.created, 1);
    assert_eq!(counts.running, 1);
    assert_eq!(counts.failed, 1);
    assert_eq!(counts.queued, 0);
    assert_eq!(counts.completed, 0);
    assert_eq!(counts.cancelled, 0);
    assert_eq!(st.active_task_count(), 2);
}

#[test]
fn system_status_rules() {
    let mut st = AppState::new(0);
    assert_eq!(DashboardView::system_status(&st.backends), SystemStatus::Healthy);
    let status = |health| BackendStatus { running_tasks: 0, total_tasks: 0, health };
    st.update_backends(
        vec![BackendUpdate::Status("a".to_string(), status(HealthStatus::Healthy))],
        0,
    );
    assert_eq!(DashboardView::system_status(&st.backends), SystemStatus::Healthy);
    st.update_backends(
        vec![BackendUpdate::Status("b".to_string(), status(HealthStatus::Unknown))],
        0,
    );
    assert_eq!(DashboardView::system_status(&st.backends), SystemStatus::Unknown);
    st.update_backends(
        vec![BackendUpdate::Status("c".to_string(), status(HealthStatus::Degraded))],
        0,
    );
    assert_eq!(DashboardView::system_status(&st.backends), SystemStatus::Degraded);
    st.update_backends(
        vec![BackendUpdate::Status("d".to_string(), status(HealthStatus::Unhealthy))],
        0,
    );
    assert_eq!(DashboardView::system_status(&st.backends), SystemStatus::Alert);
}

#[test]
fn recency_orders_most_recent_first() {
    let tasks = vec![task(1, "a", "b", 50), task(2, "c", "b", 300), task(3, "d", "b", 100)];
    let order = DashboardView::tasks_by_recency(&tasks);
    assert_eq!(order, vec![1, 2, 0]);
}

#[test]
fn sorting_by_each_field() {
    let mut tasks = vec![
        task(2, "beta", "y", 100),
        task(1, "alpha", "z", 300),
        task(3, "gamma", "x", 200),
    ];
    sort_tasks(&mut tasks, SortField::Id, true, 1_000);
    let ids: Vec<u64> = tasks.iter().map(|t| t.id).collect();
    assert_eq!(ids, vec![1, 2, 3]);

    sort_tasks(&mut tasks, SortField::Name, false, 1_000);
    let names: Vec<&str> = tasks.iter().map(|t| t.name.as_str()).collect();
    assert_eq!(names, vec!["gamma", "beta", "alpha"]);

    sort_tasks(&mut tasks, SortField::Backend, true, 1_000);
    let backends: Vec<&str> = tasks.iter().map(|t| t.backend.as_str()).collect();
    assert_eq!(backends, vec!["x", "y", "z"]);

    // duration against now: most recently started has the shortest run time
    sort_tasks(&mut tasks, SortField::Duration, true, 1_000);
    let ids: Vec<u64> = tasks.iter().map(|t| t.id).collect();
    assert_eq!(ids, vec![1, 3, 2]);

    sort_tasks(&mut tasks, SortField::CpuUsage, true, 1_000);
    let ids: Vec<u64> = tasks.iter().map(|t| t.id).collect();
    assert_eq!(ids, vec![1, 2, 3]);

    sort_tasks(&mut tasks, SortField::MemoryUsage, true, 1_000);
    let ids: Vec<u64> = tasks.iter().map(|t| t.id).collect();
    assert_eq!(ids, vec![3, 2, 1]);
}

#[test]
fn sorting_is_stable_on_ties() {
    // every task is Created, so a status sort ties them all: input order stays
    let mut tasks = vec![
        task(4, "d", "w", 0),
        task(2, "b", "x", 0),
        task(9, "c", "y", 0),
        task(1, "a", "z", 0),
    ];
    sort_tasks(&mut tasks, SortField::Status, true, 1_000);
    let ids: Vec<u64> = tasks.iter().map(|t| t.id).collect();
    assert_eq!(ids, vec![4, 2, 9, 1]);

    // equal progress values keep their order too, under either direction
    sort_tasks(&mut tasks, SortField::Progress, false, 1_000);
    let ids: Vec<u64> = tasks.iter().map(|t| t.id).collect();
    assert_eq!(ids, vec![4, 2, 9, 1]);
}

#[test]
fn string_order_is_lexicographic() {
    assert!(str_le(&"abc".to_string(), &"abd".to_string()));
    assert!(str_le(&"ab".to_string(), &"abc".to_string()));
    assert!(!str_le(&"b".to_string(), &"ab".to_string()));
    assert!(str_le(&"".to_string(), &"".to_string()));
    assert!(str_le(&"same".to_string(), &"same".to_string()));
}

#[test]
fn task_list_view_sorting_keys() {
    let mut v = TaskListView::new();
    assert_eq!(v.sort_field, SortField::Id);
    assert!(v.sort_ascending);
    v.handle_key_event(KeyInput::plain(Key::Char('2')), 10);
    assert_eq!(v.sort_field, SortField::Name);
    assert!(v.sort_ascending);
    v.handle_key_event(KeyInput::plain(Key::Char('2')), 10);
    assert!(!v.sort_ascending, "the same field again flips the direction");
    v.handle_key_event(KeyInput::plain(Key::Char('i')), 10);
    assert!(v.sort_ascending);
    v.handle_key_event(KeyInput::plain(Key::Char('j')), 10);
    assert_eq!(v.cursor, Some(0));
    v.handle_key_event(KeyInput::plain(Key::Char('G')), 10);
    assert_eq!(v.cursor, Some(9));
    v.handle_key_event(KeyInput::plain(Key::Char('g')), 10);
    assert_eq!(v.cursor, Some(0));
}

#[test]
fn duration_formula() {
    assert_eq!(format_duration(0), DurationText::Seconds(0));
    assert_eq!(format_duration(-5_000), DurationText::Seconds(0));
    assert_eq!(format_duration(59_999), DurationText::Seconds(59));
    assert_eq!(format_duration(60_000), DurationText::MinutesSeconds(1, 0));
    assert_eq!(format_duration(125_000), DurationText::MinutesSeconds(2, 5));
    assert_eq!(format_duration(3_600_000), DurationText::HoursMinutes(1, 0));
    assert_eq!(format_duration(7_502_000), DurationText::HoursMinutes(2, 5));
}

#[test]
fn progress_bar_formula() {
    assert_eq!(progress_cells(0, 20), 0);
    assert_eq!(progress_cells(5_000, 20), 10);
    assert_eq!(progress_cells(10_000, 20), 20);
    assert_eq!(progress_cells(7_550, 20), 15);
    assert_eq!(progress_cells(9_999, 20), 19);
}

#[test]
fn labels_are_fixed() {
    assert_eq!(TaskStatus::Running.to_string(), "Running");
    assert_eq!(TaskStatus::Cancelled.to_string(), "Cancelled");
    assert_eq!(HealthStatus::Degraded.label(), "Degraded");
    assert_eq!(BackendKind::TES.label(), "TES");
    assert_eq!(temporality_label(Temporality::Live), "LIVE");
    assert_eq!(temporality_label(Temporality::Paused), "PAUSED");
    assert!(TaskStatus::Failed.is_terminal());
    assert!(!TaskStatus::Queued.is_terminal());
}

#[test]
fn trends() {
    assert_eq!(trend_between(Some(10), 20), Trend::Up);
    assert_eq!(trend_between(Some(30), 20), Trend::Down);
    assert_eq!(trend_between(Some(20), 20), Trend::Neutral);
    assert_eq!(trend_between(None, 20), Trend::Unknown);
}

#[test]
fn help_overlay_geometry_and_entries() {
    let screen = RectModel { x: 2, y: 1, width: 100, height: 50 };
    let popup = HelpView::centered_rect(60, 70, screen);
    assert_eq!(popup.width, 60);
    assert_eq!(popup.height, 35);
    assert_eq!(popup.x, 2 + 20);
    assert_eq!(popup.y, 1 + 7);

    let entries = HelpView::entries();
    assert_eq!(entries.len(), 6);
    assert_eq!(entries[0], ('q', "Quit application"));
    assert_eq!(entries[5], ('p', "Toggle pause"));

    let lines = LogView::placeholder_lines();
    assert_eq!(lines.len(), 2);
    assert_eq!(lines[0], "Log output will appear here.");
}

#[test]
fn counting_tasks_per_backend() {
    let tasks = vec![
        task(1, "a", "docker", 0),
        task(2, "b", "tes", 0),
        task(3, "c", "docker", 0),
    ];
    assert_eq!(count_backend_tasks(&tasks, &"docker".to_string()), 2);
    assert_eq!(count_backend_tasks(&tasks, &"tes".to_string()), 1);
    assert_eq!(count_backend_tasks(&tasks, &"ghost".to_string()), 0);
}

#[test]
fn cancellation_hook_controls_can_cancel() {
    let token = tokio_util::sync::CancellationToken::new();
    let mut t = TaskState::new(1, "a".to_string(), "b".to_string(), Some(token), 0);
    assert!(t.can_cancel());
    t.cancellation_token = None;
    assert!(!t.can_cancel());
}

#[test]
fn severity_levels_against_thresholds() {
    assert_eq!(severity_level(50, Some(70), Some(90), true), SeverityLevel::Normal);
    assert_eq!(severity_level(75, Some(70), Some(90), true), SeverityLevel::Warning);
    assert_eq!(severity_level(95, Some(70), Some(90), true), SeverityLevel::Critical);
    assert_eq!(severity_level(0, None, None, false), SeverityLevel::Critical);
    assert_eq!(severity_level(95, None, None, true), SeverityLevel::Normal);
}

#[test]
fn progress_stages() {
    assert_eq!(progress_stage(0), ProgressStage::Early);
    assert_eq!(progress_stage(3_000), ProgressStage::Early);
    assert_eq!(progress_stage(3_100), ProgressStage::Middle);
    assert_eq!(progress_stage(6_000), ProgressStage::Middle);
    assert_eq!(progress_stage(9_000), ProgressStage::Late);
    assert_eq!(progress_stage(9_100), ProgressStage::Finishing);
    assert_eq!(progress_stage(10_000), ProgressStage::Finishing);
}

#[test]
fn trend_symbols() {
    assert_eq!(Trend::Up.symbol(), "\u{2191}");
    assert_eq!(Trend::Down.symbol(), "\u{2193}");
    assert_eq!(Trend::Neutral.symbol(), "\u{2192}");
    assert_eq!(Trend::Unknown.symbol(), "");
}
