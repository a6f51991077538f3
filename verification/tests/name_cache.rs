//! The name cache: interning deduplicates, and update application feeds it.

use crankshaft_tui::app_state::AppState;
use crankshaft_tui::ext::{interner_intern, interner_len, interner_new};
use crankshaft_tui::task::{TaskState, TaskStatus};
use crankshaft_tui::update::{task_updates_are_wf, TaskUpdate};

#[test]
fn interning_deduplicates() {
    let mut cache = interner_new();
    assert_eq!(interner_len(&cache), 0);
    interner_intern(&mut cache, "docker-local");
    interner_intern(&mut cache, "tes-cloud");
    interner_intern(&mut cache, "docker-local");
    assert_eq!(interner_len(&cache), 2);
}

#[test]
fn update_application_caches_names() {
    let mut st = AppState::new(0);
    assert_eq!(interner_len(&st.strings), 0);
    st.update_tasks(
        vec![TaskUpdate::Created(TaskState::new(
            1,
            "genome".to_string(),
            "docker".to_string(),
            None,
            0,
        ))],
        0,
    );
    assert_eq!(interner_len(&st.strings), 2);
    // the same names again add nothing
    st.update_tasks(
        vec![TaskUpdate::Created(TaskState::new(
            2,
            "genome".to_string(),
            "docker".to_string(),
            None,
            0,
        ))],
        0,
    );
    assert_eq!(interner_len(&st.strings), 2);
}

#[test]
fn runtime_wf_check_matches_the_invariant() {
    let good = TaskState::new(1, "a".to_string(), "b".to_string(), None, 0);
    assert!(good.check_wf());
    assert!(task_updates_are_wf(&vec![TaskUpdate::Created(good)]));

    let mut bad = TaskState::new(2, "a".to_string(), "b".to_string(), None, 0);
    bad.status = TaskStatus::Completed;  // terminal but without an end time
    assert!(!bad.check_wf());
    assert!(!task_updates_are_wf(&vec![TaskUpdate::Created(bad)]));
}
