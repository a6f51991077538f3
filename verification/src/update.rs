//! Update events flowing from the monitors into the application state, and
//! the model of applying them: one update at a time, in arrival order, each
//! fully applied before the next.

use vstd::prelude::*;
use crate::task::{TaskState, TaskStatus, PROGRESS_DONE};
use crate::backend::{BackendKind, BackendStateView, BackendStatus, HealthStatus, USAGE_MAX};

verus! {

/// One CPU-and-memory reading carried by an update.
#[derive(Debug, Clone, Copy, PartialEq, Eq, Structural)]
pub struct ResourceUsage {
    pub cpu: u32,
    pub memory: u32,
}

/// One task event from the monitor.
pub enum TaskUpdate {
    /// A task was created; carries its initial record.
    Created(TaskState),
    /// The status of the task with this id changed.
    StatusChanged(u64, TaskStatus),
    /// New progress, in basis points.
    Progress(u64, u32),
    /// New instantaneous resource usage.
    ResourceUsage(u64, ResourceUsage),
    /// The task finished, successfully or with an error message.
    Completed(u64, Result<(), String>),
    /// One log line was emitted by the task.
    Logs(u64, String),
}

/// One backend event from the monitor. Backends are created on demand: an
/// update naming an unknown backend synthesizes its record first.
pub enum BackendUpdate {
    /// Health and task counts.
    Status(String, BackendStatus),
    /// New instantaneous resource usage.
    ResourceUsage(String, ResourceUsage),
    /// The kind of the backend was discovered.
    Kind(String, BackendKind),
}

// ------------------------------------------------------------------
// Task model
// ------------------------------------------------------------------

/// Some task in the sequence has this id.
pub open spec fn has_task(s: Seq<TaskState>, id: u64) -> bool {
    exists|i: int| 0 <= i < s.len() && s[i].id == id
}

/// All task ids are distinct and every record is well-formed.
pub open spec fn tasks_wf(s: Seq<TaskState>) -> bool {
    &&& forall|i: int, j: int| 0 <= i < j < s.len() ==> s[i].id != s[j].id
    &&& forall|i: int| 0 <= i < s.len() ==> s[i].wf()
}

/// An update is well-formed when any task record it carries is.
pub open spec fn task_update_wf(u: TaskUpdate) -> bool {
    match u {
        TaskUpdate::Created(t) => t.wf(),
        _ => true,
    }
}

/// Progress values saturate at `PROGRESS_DONE`.
pub open spec fn clamp_progress(p: u32) -> u32 {
    if p > PROGRESS_DONE {
        PROGRESS_DONE
    } else {
        p
    }
}

/// Usage percentages are clamped to `USAGE_MAX`.
pub open spec fn clamp_usage(x: u32) -> u32 {
    if x > USAGE_MAX {
        USAGE_MAX
    } else {
        x
    }
}

/// A status change: the end time is set the moment the status turns terminal
/// (and never overwritten), cleared on a non-terminal status, and the
/// cancellation hook is dropped on a terminal status.
pub open spec fn spec_set_status(t: TaskState, st: TaskStatus, now: i64) -> TaskState {
    TaskState {
        status: st,
        end_time: if st.spec_is_terminal() {
            if t.end_time is Some {
                t.end_time
            } else {
                Some(now)
            }
        } else {
            None
        },
        cancellation_token: if st.spec_is_terminal() {
            None
        } else {
            t.cancellation_token
        },
        ..t
    }
}

/// A progress report, saturating at `PROGRESS_DONE`.
pub open spec fn spec_set_progress(t: TaskState, p: u32) -> TaskState {
    TaskState { progress: Some(clamp_progress(p)), ..t }
}

/// A resource-usage report replaces the instantaneous readings.
pub open spec fn spec_set_usage(t: TaskState, u: ResourceUsage) -> TaskState {
    TaskState { cpu_usage: u.cpu, memory_usage: u.memory, ..t }
}

/// A completion: terminal status by outcome, end time set if not already.
pub open spec fn spec_complete(t: TaskState, ok: bool, now: i64) -> TaskState {
    TaskState {
        status: if ok {
            TaskStatus::Completed
        } else {
            TaskStatus::Failed
        },
        end_time: if t.end_time is Some {
            t.end_time
        } else {
            Some(now)
        },
        cancellation_token: None,
        ..t
    }
}

/// Applies `f` to the task with the given id, if present; a no-op otherwise.
pub open spec fn spec_update_task_at(
    s: Seq<TaskState>,
    id: u64,
    f: spec_fn(TaskState) -> TaskState,
) -> Seq<TaskState> {
    Seq::new(s.len(), |i: int| if s[i].id == id { f(s[i]) } else { s[i] })
}

/// Inserts a created task: replaces the record with the same id, or appends.
pub open spec fn spec_insert_task(s: Seq<TaskState>, t: TaskState) -> Seq<TaskState> {
    if has_task(s, t.id) {
        spec_update_task_at(s, t.id, |x: TaskState| t)
    } else {
        s.push(t)
    }
}

/// One task update applied to the task table. Updates that address an unknown
/// id are dropped; log lines touch only the selected task's details, not the
/// table.
pub open spec fn spec_apply_task_update(s: Seq<TaskState>, u: TaskUpdate, now: i64) -> Seq<
    TaskState,
> {
    match u {
        TaskUpdate::Created(t) => spec_insert_task(s, t),
        TaskUpdate::StatusChanged(id, st) => spec_update_task_at(
            s,
            id,
            |x: TaskState| spec_set_status(x, st, now),
        ),
        TaskUpdate::Progress(id, p) => spec_update_task_at(
            s,
            id,
            |x: TaskState| spec_set_progress(x, p),
        ),
        TaskUpdate::ResourceUsage(id, usage) => spec_update_task_at(
            s,
            id,
            |x: TaskState| spec_set_usage(x, usage),
        ),
        TaskUpdate::Completed(id, res) => spec_update_task_at(
            s,
            id,
            |x: TaskState| spec_complete(x, res is Ok, now),
        ),
        TaskUpdate::Logs(id, line) => s,
    }
}

/// A batch of task updates applied in arrival order.
pub open spec fn spec_apply_task_updates(
    s: Seq<TaskState>,
    us: Seq<TaskUpdate>,
    now: i64,
) -> Seq<TaskState>
    decreases us.len(),
{
    if us.len() == 0 {
        s
    } else {
        spec_apply_task_updates(spec_apply_task_update(s, us[0], now), us.drop_first(), now)
    }
}

/// One update leaves the task table well-formed: ids stay distinct, and every
/// record keeps its invariant — in particular the end time stays present
/// exactly on terminal statuses.
pub proof fn lemma_task_update_preserves_wf(s: Seq<TaskState>, u: TaskUpdate, now: i64)
    requires
        tasks_wf(s),
        task_update_wf(u),
    ensures
        tasks_wf(spec_apply_task_update(s, u, now)),
{
    let r = spec_apply_task_update(s, u, now);
    match u {
        TaskUpdate::Created(t) => {
            if has_task(s, t.id) {
                assert(forall|i: int| 0 <= i < r.len() ==> r[i].id == s[i].id);
            }
        },
        _ => {
            assert(forall|i: int| 0 <= i < r.len() ==> r[i].id == s[i].id && r[i].wf());
        },
    }
}

/// A whole batch leaves the task table well-formed.
pub proof fn lemma_task_updates_preserve_wf(s: Seq<TaskState>, us: Seq<TaskUpdate>, now: i64)
    requires
        tasks_wf(s),
        forall|k: int| 0 <= k < us.len() ==> task_update_wf(#[trigger] us[k]),
    ensures
        tasks_wf(spec_apply_task_updates(s, us, now)),
    decreases us.len(),
{
    if us.len() > 0 {
        lemma_task_update_preserves_wf(s, us[0], now);
        lemma_task_updates_preserve_wf(spec_apply_task_update(s, us[0], now), us.drop_first(), now);
    }
}

/// Applying a batch and then another equals applying their concatenation:
/// updates act strictly in order, never merged.
pub proof fn lemma_task_updates_concat(
    s: Seq<TaskState>,
    a: Seq<TaskUpdate>,
    b: Seq<TaskUpdate>,
    now: i64,
)
    ensures
        spec_apply_task_updates(s, a + b, now) == spec_apply_task_updates(
            spec_apply_task_updates(s, a, now),
            b,
            now,
        ),
    decreases a.len(),
{
    if a.len() == 0 {
        assert(a + b =~= b);
    } else {
        assert((a + b)[0] == a[0]);
        assert((a + b).drop_first() =~= a.drop_first() + b);
        lemma_task_updates_concat(spec_apply_task_update(s, a[0], now), a.drop_first(), b, now);
    }
}

/// Whether every update of a batch is well-formed; the runtime mirror of
/// `task_update_wf`, for callers that receive batches from outside.
pub fn task_updates_are_wf(updates: &Vec<TaskUpdate>) -> (r: bool)
    ensures
        r == forall|k: int| 0 <= k < updates@.len() ==> task_update_wf(#[trigger] updates@[k]),
{
    let n = updates.len();
    let mut i: usize = 0;
    while i < n
        invariant
            0 <= i <= n,
            n == updates@.len(),
            forall|k: int| 0 <= k < i ==> task_update_wf(#[trigger] updates@[k]),
        decreases n - i,
    {
        let ok = match &updates[i] {
            TaskUpdate::Created(t) => t.check_wf(),
            _ => true,
        };
        if !ok {
            assert(!task_update_wf(updates@[i as int]));
            return false;
        }
        i += 1;
    }
    true
}

// ------------------------------------------------------------------
// Backend model
// ------------------------------------------------------------------

/// Some backend in the sequence has this name.
pub open spec fn has_backend(s: Seq<BackendStateView>, name: Seq<char>) -> bool {
    exists|i: int| 0 <= i < s.len() && s[i].name == name
}

/// All backend names are distinct and every record is well-formed.
pub open spec fn backends_wf(s: Seq<BackendStateView>) -> bool {
    &&& forall|i: int, j: int| 0 <= i < j < s.len() ==> s[i].name != s[j].name
    &&& forall|i: int| 0 <= i < s.len() ==> s[i].wf()
}

/// A status update replaces health and the task counts, nothing else.
pub open spec fn spec_backend_set_status(b: BackendStateView, st: BackendStatus) -> BackendStateView {
    BackendStateView { health: st.health, running_tasks: st.running_tasks, total_tasks: st.total_tasks, ..b }
}

/// A usage update replaces the instantaneous readings, clamped.
pub open spec fn spec_backend_set_usage(b: BackendStateView, u: ResourceUsage) -> BackendStateView {
    BackendStateView { cpu_usage: clamp_usage(u.cpu), memory_usage: clamp_usage(u.memory), ..b }
}

/// A kind update replaces the kind.
pub open spec fn spec_backend_set_kind(b: BackendStateView, kind: BackendKind) -> BackendStateView {
    BackendStateView { kind: kind, ..b }
}

/// The default record synthesized when an update names an unknown backend:
/// unknown kind and health, no tasks, an empty history, first seen at `now`.
pub open spec fn spec_default_backend(name: Seq<char>, now: i64) -> BackendStateView {
    BackendStateView {
        name: name,
        kind: BackendKind::Unknown,
        running_tasks: 0,
        total_tasks: 0,
        cpu_usage: 0,
        memory_usage: 0,
        health: HealthStatus::Unknown,
        resource_history: Seq::empty(),
        last_update: now,
    }
}

/// The record a status update for an unknown backend leaves behind: the
/// default record with the carried health and counts applied.
pub open spec fn spec_synth_backend(name: Seq<char>, st: BackendStatus, now: i64) -> BackendStateView {
    spec_backend_set_status(spec_default_backend(name, now), st)
}

/// Applies `f` to the backend with the given name, if present.
pub open spec fn spec_update_backend_at(
    s: Seq<BackendStateView>,
    name: Seq<char>,
    f: spec_fn(BackendStateView) -> BackendStateView,
) -> Seq<BackendStateView> {
    Seq::new(s.len(), |i: int| if s[i].name == name { f(s[i]) } else { s[i] })
}

/// One backend update applied to the backend table. The unknown-target
/// policy for backends is uniformly create-on-demand: an update naming an
/// unknown backend synthesizes a default record first and then applies to
/// it.
pub open spec fn spec_apply_backend_update(
    s: Seq<BackendStateView>,
    u: BackendUpdate,
    now: i64,
) -> Seq<BackendStateView> {
    match u {
        BackendUpdate::Status(name, st) => {
            if has_backend(s, name@) {
                spec_update_backend_at(s, name@, |b: BackendStateView| spec_backend_set_status(b, st))
            } else {
                s.push(spec_synth_backend(name@, st, now))
            }
        },
        BackendUpdate::ResourceUsage(name, usage) => {
            if has_backend(s, name@) {
                spec_update_backend_at(s, name@, |b: BackendStateView| spec_backend_set_usage(b, usage))
            } else {
                s.push(spec_backend_set_usage(spec_default_backend(name@, now), usage))
            }
        },
        BackendUpdate::Kind(name, kind) => {
            if has_backend(s, name@) {
                spec_update_backend_at(s, name@, |b: BackendStateView| spec_backend_set_kind(b, kind))
            } else {
                s.push(spec_backend_set_kind(spec_default_backend(name@, now), kind))
            }
        },
    }
}

/// A batch of backend updates applied in arrival order.
pub open spec fn spec_apply_backend_updates(
    s: Seq<BackendStateView>,
    us: Seq<BackendUpdate>,
    now: i64,
) -> Seq<BackendStateView>
    decreases us.len(),
{
    if us.len() == 0 {
        s
    } else {
        spec_apply_backend_updates(spec_apply_backend_update(s, us[0], now), us.drop_first(), now)
    }
}

/// One update leaves the backend table well-formed.
pub proof fn lemma_backend_update_preserves_wf(s: Seq<BackendStateView>, u: BackendUpdate, now: i64)
    requires
        backends_wf(s),
    ensures
        backends_wf(spec_apply_backend_update(s, u, now)),
{
    let r = spec_apply_backend_update(s, u, now);
    match u {
        BackendUpdate::Status(name, st) => {
            if has_backend(s, name@) {
                assert(forall|i: int| 0 <= i < r.len() ==> r[i].name == s[i].name && r[i].wf());
            }
        },
        BackendUpdate::ResourceUsage(name, usage) => {
            if has_backend(s, name@) {
                assert(forall|i: int| 0 <= i < r.len() ==> r[i].name == s[i].name && r[i].wf());
            }
        },
        BackendUpdate::Kind(name, kind) => {
            if has_backend(s, name@) {
                assert(forall|i: int| 0 <= i < r.len() ==> r[i].name == s[i].name && r[i].wf());
            }
        },
    }
}

/// A whole batch leaves the backend table well-formed.
pub proof fn lemma_backend_updates_preserve_wf(
    s: Seq<BackendStateView>,
    us: Seq<BackendUpdate>,
    now: i64,
)
    requires
        backends_wf(s),
    ensures
        backends_wf(spec_apply_backend_updates(s, us, now)),
    decreases us.len(),
{
    if us.len() > 0 {
        lemma_backend_update_preserves_wf(s, us[0], now);
        lemma_backend_updates_preserve_wf(
            spec_apply_backend_update(s, us[0], now),
            us.drop_first(),
            now,
        );
    }
}

/// Applying a batch and then another equals applying their concatenation.
pub proof fn lemma_backend_updates_concat(
    s: Seq<BackendStateView>,
    a: Seq<BackendUpdate>,
    b: Seq<BackendUpdate>,
    now: i64,
)
    ensures
        spec_apply_backend_updates(s, a + b, now) == spec_apply_backend_updates(
            spec_apply_backend_updates(s, a, now),
            b,
            now,
        ),
    decreases a.len(),
{
    if a.len() == 0 {
        assert(a + b =~= b);
    } else {
        assert((a + b)[0] == a[0]);
        assert((a + b).drop_first() =~= a.drop_first() + b);
        lemma_backend_updates_concat(spec_apply_backend_update(s, a[0], now), a.drop_first(), b, now);
    }
}

/// Applying one and the same status update twice leaves the table exactly as
/// after the first application, whatever the clock said each time.
pub proof fn lemma_backend_status_idempotent(
    s: Seq<BackendStateView>,
    name: String,
    st: BackendStatus,
    now1: i64,
    now2: i64,
)
    requires
        backends_wf(s),
    ensures
        spec_apply_backend_update(
            spec_apply_backend_update(s, BackendUpdate::Status(name, st), now1),
            BackendUpdate::Status(name, st),
            now2,
        ) == spec_apply_backend_update(s, BackendUpdate::Status(name, st), now1),
{
    let u = BackendUpdate::Status(name, st);
    let once = spec_apply_backend_update(s, u, now1);
    if has_backend(s, name@) {
        let w = choose|i: int| 0 <= i < s.len() && s[i].name == name@;
        assert(once[w].name == name@);
        assert(has_backend(once, name@));
        assert(spec_apply_backend_update(once, u, now2) =~= once);
    } else {
        assert(once == s.push(spec_synth_backend(name@, st, now1)));
        assert(once[s.len() as int].name == name@);
        assert(has_backend(once, name@));
        assert(spec_apply_backend_update(once, u, now2) =~= once);
    }
}

} // verus!
