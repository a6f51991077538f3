//! Ring-buffer histories: capacity is never exceeded and the oldest sample
//! leaves first.

use crankshaft_tui::app_state::{AppState, DETAILS_HISTORY_SIZE};
use crankshaft_tui::backend::{BackendKind, BackendState, BACKEND_HISTORY_SIZE};
use crankshaft_tui::resource::{ResourceSample, ResourceState, HISTORY_SIZE};
use crankshaft_tui::task::TaskState;
use crankshaft_tui::update::{ResourceUsage, TaskUpdate};

#[test]
fn resource_state_starts_empty() {
    let rs = ResourceState::new();
    assert!(rs.cpu_history.is_empty());
    assert!(rs.memory_history.is_empty());
    assert_eq!(rs.cpu_current, 0);
    assert_eq!(rs.memory_current, 0);
}

#[test]
fn global_history_caps_and_evicts_oldest_first() {
    let mut rs = ResourceState::new();
    for i in 0..(HISTORY_SIZE as u32 + 5) {
        rs.update(i, i * 2, i as i64);
    }
    assert_eq!(rs.cpu_history.len(), HISTORY_SIZE);
    assert_eq!(rs.memory_history.len(), HISTORY_SIZE);
    // the five oldest samples were evicted, in order
    assert_eq!(rs.cpu_history[0].value, 5);
    assert_eq!(rs.cpu_history[0].timestamp, 5);
    assert_eq!(rs.cpu_history[HISTORY_SIZE - 1].value, HISTORY_SIZE as u32 + 4);
    assert_eq!(rs.cpu_current, HISTORY_SIZE as u32 + 4);
    assert_eq!(rs.memory_current, (HISTORY_SIZE as u32 + 4) * 2);
}

#[test]
fn cpu_and_memory_max_over_history() {
    let mut rs = ResourceState::new();
    assert_eq!(rs.cpu_max(), 0);
    assert_eq!(rs.memory_max(), 0);
    rs.update(10, 700, 1);
    rs.update(90, 300, 2);
    rs.update(40, 500, 3);
    assert_eq!(rs.cpu_max(), 90);
    assert_eq!(rs.memory_max(), 700);
}

#[test]
fn backend_history_caps_at_sixty() {
    let mut b = BackendState::new("b".to_string(), BackendKind::Local, 0);
    for i in 0..(BACKEND_HISTORY_SIZE as u32 + 3) {
        b.push_sample(ResourceSample { timestamp: i as i64, cpu: i, memory: i });
    }
    assert_eq!(b.resource_history.len(), BACKEND_HISTORY_SIZE);
    assert_eq!(b.resource_history[0].timestamp, 3);
    assert_eq!(
        b.resource_history[BACKEND_HISTORY_SIZE - 1].timestamp,
        BACKEND_HISTORY_SIZE as i64 + 2
    );
}

#[test]
fn detail_history_caps_at_one_hundred() {
    let mut st = AppState::new(0);
    st.update_tasks(
        vec![TaskUpdate::Created(TaskState::new(1, "a".to_string(), "b".to_string(), None, 0))],
        0,
    );
    st.select_task(1);
    for i in 0..(DETAILS_HISTORY_SIZE as u32 + 7) {
        st.update_tasks(
            vec![TaskUpdate::ResourceUsage(1, ResourceUsage { cpu: i, memory: i })],
            i as i64,
        );
    }
    let details = st.current_task_details.as_ref().unwrap();
    assert_eq!(details.resource_history.len(), DETAILS_HISTORY_SIZE);
    assert_eq!(details.resource_history[0].cpu, 7);
}

#[test]
fn utilization_in_basis_points() {
    let mut b = BackendState::new("b".to_string(), BackendKind::Docker, 0);
    assert_eq!(b.utilization(), 0);
    b.running_tasks = 3;
    b.total_tasks = 4;
    assert_eq!(b.utilization(), 7_500);
    b.running_tasks = 1;
    b.total_tasks = 3;
    assert_eq!(b.utilization(), 3_333);
}
