//! The aggregate application state: task and backend tables, resource
//! histories, selection cursors, and the pause flag, together with the
//! mutation entry points that are the only legal way to change it.

use vstd::prelude::*;
use crate::task::TaskState;
use crate::backend::{BackendState, BackendStateView, BackendKind, HealthStatus};
use crate::resource::{ResourceState, ResourceSample, spec_push_bounded};
use crate::update::{
    TaskUpdate, BackendUpdate, has_task, has_backend, tasks_wf, backends_wf, task_update_wf,
    spec_set_status, spec_set_progress, spec_set_usage, spec_complete, spec_insert_task,
    spec_apply_task_update, spec_apply_task_updates, spec_backend_set_status,
    spec_backend_set_usage, spec_backend_set_kind, spec_synth_backend, spec_default_backend,
    spec_apply_backend_update,
    spec_apply_backend_updates, lemma_task_update_preserves_wf, lemma_backend_update_preserves_wf,
};
use crate::ext::{NameCache, interner_new, interner_len, interner_intern, interned_strings};

verus! {

/// Whether incoming monitor updates are applied or discarded.
#[derive(Debug, Clone, Copy, PartialEq, Eq, Structural)]
pub enum Temporality {
    /// Live monitoring: updates are applied.
    Live,
    /// Paused: updates are drained but not applied.
    Paused,
    /// In the process of pausing.
    Pausing,
    /// In the process of unpausing.
    Unpausing,
}

/// Capacity of the selected task's resource-history ring.
pub const DETAILS_HISTORY_SIZE: usize = 100;

/// Lazily materialized record for the currently selected task: log lines and
/// resource history collected while it stays selected.
#[derive(Debug, Clone, PartialEq)]
pub struct TaskDetails {
    pub task_id: u64,
    pub logs: Vec<String>,
    pub resource_history: Vec<ResourceSample>,
    pub start_time: i64,
    pub elapsed: i64,
}

/// Mathematical model of the selected task's detail record.
pub ghost struct TaskDetailsView {
    pub task_id: u64,
    pub logs: Seq<Seq<char>>,
    pub resource_history: Seq<ResourceSample>,
    pub start_time: i64,
    pub elapsed: i64,
}

impl View for TaskDetails {
    type V = TaskDetailsView;

    open spec fn view(&self) -> TaskDetailsView {
        TaskDetailsView {
            task_id: self.task_id,
            logs: self.logs.deep_view(),
            resource_history: self.resource_history@,
            start_time: self.start_time,
            elapsed: self.elapsed,
        }
    }
}

/// The model of an optional detail record.
pub open spec fn details_view(det: Option<TaskDetails>) -> Option<TaskDetailsView> {
    match det {
        Some(d) => Some(d@),
        None => None,
    }
}

/// The model of the backend table.
pub open spec fn backends_view(s: Seq<BackendState>) -> Seq<BackendStateView> {
    s.map_values(|b: BackendState| b@)
}

/// What one task update does to the detail record: a log line for the
/// selected task is appended; a resource reading for the selected task — when
/// that task exists — is pushed into the bounded detail history; everything
/// else leaves the record alone.
pub open spec fn spec_apply_details_update(
    det: Option<TaskDetailsView>,
    tasks: Seq<TaskState>,
    u: TaskUpdate,
    now: i64,
) -> Option<TaskDetailsView> {
    match u {
        TaskUpdate::Logs(id, line) => match det {
            Some(d) => if d.task_id == id {
                Some(TaskDetailsView { logs: d.logs.push(line@), ..d })
            } else {
                det
            },
            None => det,
        },
        TaskUpdate::ResourceUsage(id, usage) => if has_task(tasks, id) {
            match det {
                Some(d) => if d.task_id == id {
                    Some(
                        TaskDetailsView {
                            resource_history: spec_push_bounded(
                                d.resource_history,
                                ResourceSample { timestamp: now, cpu: usage.cpu, memory: usage.memory },
                                DETAILS_HISTORY_SIZE as nat,
                            ),
                            ..d
                        },
                    )
                } else {
                    det
                },
                None => det,
            }
        } else {
            det
        },
        _ => det,
    }
}

/// A batch of task updates applied in order to both the task table and the
/// detail record, each update fully visible before the next.
pub open spec fn spec_apply_task_batch(
    tasks: Seq<TaskState>,
    det: Option<TaskDetailsView>,
    us: Seq<TaskUpdate>,
    now: i64,
) -> (Seq<TaskState>, Option<TaskDetailsView>)
    decreases us.len(),
{
    if us.len() == 0 {
        (tasks, det)
    } else {
        spec_apply_task_batch(
            spec_apply_task_update(tasks, us[0], now),
            spec_apply_details_update(det, tasks, us[0], now),
            us.drop_first(),
            now,
        )
    }
}

/// The task table after a batch does not depend on the detail record: it is
/// the plain fold of the updates.
pub proof fn lemma_task_batch_tasks(
    tasks: Seq<TaskState>,
    det: Option<TaskDetailsView>,
    us: Seq<TaskUpdate>,
    now: i64,
)
    ensures
        spec_apply_task_batch(tasks, det, us, now).0 == spec_apply_task_updates(tasks, us, now),
    decreases us.len(),
{
    if us.len() > 0 {
        lemma_task_batch_tasks(
            spec_apply_task_update(tasks, us[0], now),
            spec_apply_details_update(det, tasks, us[0], now),
            us.drop_first(),
            now,
        );
    }
}

/// The aggregate, mutable application state. Exclusively mutated through its
/// own methods; the render layer only reads it.
pub struct AppState {
    /// Task table; ids are unique.
    pub tasks: Vec<TaskState>,
    /// Backend table; names are unique, insertion order is kept.
    pub backends: Vec<BackendState>,
    /// Global resource utilization history.
    pub resources: ResourceState,
    /// Detail record for the selected task; replaced wholesale on selection
    /// change, cleared on deselection.
    pub current_task_details: Option<TaskDetails>,
    /// Whether updates are applied or discarded.
    pub temporality: Temporality,
    /// Cache deduplicating the names that created tasks carry.
    pub strings: NameCache,
    /// When the task table last had a batch applied, in milliseconds.
    pub last_update: i64,
    /// Cursor of the tasks list.
    pub selected_task_id: Option<u64>,
    /// Animation counter advanced by ticks; never business state.
    pub animation_frame: usize,
    pub terminal_width: u16,
    pub terminal_height: u16,
    /// Cursor of the backends list.
    pub selected_backend: Option<String>,
}

impl AppState {
    /// Well-formedness of the whole state tree.
    pub open spec fn wf(self) -> bool {
        &&& tasks_wf(self.tasks@)
        &&& backends_wf(backends_view(self.backends@))
        &&& self.resources.wf()
        &&& match self.current_task_details {
            Some(d) => d@.resource_history.len() <= DETAILS_HISTORY_SIZE,
            None => true,
        }
        &&& interned_strings(self.strings).finite()
    }

    /// Empty tables, live monitoring, nothing selected, created at `now_ms`.
    pub fn new(now_ms: i64) -> (r: AppState)
        ensures
            r.wf(),
            r.tasks@ == Seq::<TaskState>::empty(),
            r.backends@ == Seq::<BackendState>::empty(),
            r.resources.cpu_history@ == Seq::<crate::resource::ResourcePoint>::empty(),
            r.resources.memory_history@ == Seq::<crate::resource::ResourcePoint>::empty(),
            r.current_task_details is None,
            r.temporality == Temporality::Live,
            r.last_update == now_ms,
            r.selected_task_id is None,
            r.animation_frame == 0,
            r.terminal_width == 0,
            r.terminal_height == 0,
            r.selected_backend is None,
    {
        AppState {
            tasks: Vec::new(),
            backends: Vec::new(),
            resources: ResourceState::new(),
            current_task_details: None,
            temporality: Temporality::Live,
            strings: interner_new(),
            last_update: now_ms,
            selected_task_id: None,
            animation_frame: 0,
            terminal_width: 0,
            terminal_height: 0,
            selected_backend: None,
        }
    }

    /// Everything but the task table, the detail record and the name cache
    /// is as it was.
    pub open spec fn frame_except_tasks(self, pre: AppState) -> bool {
        &&& self.backends == pre.backends
        &&& self.resources == pre.resources
        &&& self.temporality == pre.temporality
        &&& self.last_update == pre.last_update
        &&& self.selected_task_id == pre.selected_task_id
        &&& self.animation_frame == pre.animation_frame
        &&& self.terminal_width == pre.terminal_width
        &&& self.terminal_height == pre.terminal_height
        &&& self.selected_backend == pre.selected_backend
    }

    /// Applies one task update: the table changes as the model says, the
    /// detail record follows, and nothing else moves.
    fn apply_one_task_update(&mut self, u: TaskUpdate, now_ms: i64)
        requires
            old(self).wf(),
            task_update_wf(u),
        ensures
            final(self).wf(),
            final(self).tasks@ == spec_apply_task_update(old(self).tasks@, u, now_ms),
            details_view(final(self).current_task_details) == spec_apply_details_update(
                details_view(old(self).current_task_details),
                old(self).tasks@,
                u,
                now_ms,
            ),
            interned_strings(final(self).strings) == spec_task_update_cache(
                interned_strings(old(self).strings),
                u,
            ),
            final(self).frame_except_tasks(*old(self)),
    {
        let ghost s0 = self.tasks@;
        match u {
            TaskUpdate::Created(t) => {
                cache_name(&mut self.strings, t.name.as_str());
                cache_name(&mut self.strings, t.backend.as_str());
                match find_task(&self.tasks, t.id) {
                    Some(i) => {
                        proof {
                            assert(has_task(s0, t.id));
                        }
                        let ghost id = t.id;
                        self.tasks.remove(i);
                        self.tasks.insert(i, t);
                        proof {
                            assert forall|j: int| 0 <= j < s0.len() && j != i ==> s0[j].id != id by {}
                            assert(self.tasks@ =~= spec_insert_task(s0, self.tasks@[i as int]));
                        }
                    },
                    None => {
                        self.tasks.push(t);
                    },
                }
                proof {
                    lemma_task_update_preserves_wf(s0, u, now_ms);
                }
            },
            TaskUpdate::StatusChanged(id, st) => {
                match find_task(&self.tasks, id) {
                    Some(i) => {
                        let mut elem = self.tasks.remove(i);
                        let ghost e0 = elem;
                        let is_term = st.is_terminal();
                        elem.status = st;
                        if is_term {
                            if elem.end_time.is_none() {
                                elem.end_time = Some(now_ms);
                            }
                            elem.cancellation_token = None;
                        } else {
                            elem.end_time = None;
                        }
                        proof {
                            assert(elem == spec_set_status(e0, st, now_ms));
                        }
                        self.tasks.insert(i, elem);
                        proof {
                            assert forall|j: int| 0 <= j < s0.len() && j != i ==> s0[j].id != id by {}
                            assert(self.tasks@ =~= spec_apply_task_update(s0, u, now_ms));
                        }
                    },
                    None => {
                        proof {
                            assert(self.tasks@ =~= spec_apply_task_update(s0, u, now_ms));
                        }
                    },
                }
                proof {
                    lemma_task_update_preserves_wf(s0, u, now_ms);
                }
            },
            TaskUpdate::Progress(id, p) => {
                match find_task(&self.tasks, id) {
                    Some(i) => {
                        let mut elem = self.tasks.remove(i);
                        let ghost e0 = elem;
                        let cp = if p > crate::task::PROGRESS_DONE {
                            crate::task::PROGRESS_DONE
                        } else {
                            p
                        };
                        elem.progress = Some(cp);
                        proof {
                            assert(elem == spec_set_progress(e0, p));
                        }
                        self.tasks.insert(i, elem);
                        proof {
                            assert forall|j: int| 0 <= j < s0.len() && j != i ==> s0[j].id != id by {}
                            assert(self.tasks@ =~= spec_apply_task_update(s0, u, now_ms));
                        }
                    },
                    None => {
                        proof {
                            assert(self.tasks@ =~= spec_apply_task_update(s0, u, now_ms));
                        }
                    },
                }
                proof {
                    lemma_task_update_preserves_wf(s0, u, now_ms);
                }
            },
            TaskUpdate::ResourceUsage(id, usage) => {
                match find_task(&self.tasks, id) {
                    Some(i) => {
                        let mut elem = self.tasks.remove(i);
                        let ghost e0 = elem;
                        elem.cpu_usage = usage.cpu;
                        elem.memory_usage = usage.memory;
                        proof {
                            assert(elem == spec_set_usage(e0, usage));
                        }
                        self.tasks.insert(i, elem);
                        proof {
                            assert forall|j: int| 0 <= j < s0.len() && j != i ==> s0[j].id != id by {}
                            assert(self.tasks@ =~= spec_apply_task_update(s0, u, now_ms));
                        }
                        let det = self.current_task_details.take();
                        match det {
                            Some(mut d) => {
                                if d.task_id == id {
                                    push_detail_sample(
                                        &mut d,
                                        ResourceSample {
                                            timestamp: now_ms,
                                            cpu: usage.cpu,
                                            memory: usage.memory,
                                        },
                                    );
                                }
                                self.current_task_details = Some(d);
                            },
                            None => {},
                        }
                        proof {
                            assert(has_task(s0, id));
                        }
                    },
                    None => {
                        proof {
                            assert(self.tasks@ =~= spec_apply_task_update(s0, u, now_ms));
                        }
                    },
                }
                proof {
                    lemma_task_update_preserves_wf(s0, u, now_ms);
                }
            },
            TaskUpdate::Completed(id, res) => {
                let ok = res.is_ok();
                match find_task(&self.tasks, id) {
                    Some(i) => {
                        let mut elem = self.tasks.remove(i);
                        let ghost e0 = elem;
                        elem.status = if ok {
                            crate::task::TaskStatus::Completed
                        } else {
                            crate::task::TaskStatus::Failed
                        };
                        if elem.end_time.is_none() {
                            elem.end_time = Some(now_ms);
                        }
                        elem.cancellation_token = None;
                        proof {
                            assert(elem == spec_complete(e0, ok, now_ms));
                        }
                        self.tasks.insert(i, elem);
                        proof {
                            assert forall|j: int| 0 <= j < s0.len() && j != i ==> s0[j].id != id by {}
                            assert(self.tasks@ =~= spec_apply_task_update(s0, u, now_ms));
                        }
                    },
                    None => {
                        proof {
                            assert(self.tasks@ =~= spec_apply_task_update(s0, u, now_ms));
                        }
                    },
                }
                proof {
                    lemma_task_update_preserves_wf(s0, u, now_ms);
                }
            },
            TaskUpdate::Logs(id, line) => {
                let det = self.current_task_details.take();
                match det {
                    Some(mut d) => {
                        if d.task_id == id {
                            let ghost logs0 = d.logs.deep_view();
                            let ghost line0 = line@;
                            d.logs.push(line);
                            proof {
                                assert(d.logs.deep_view() =~= logs0.push(line0));
                            }
                        }
                        self.current_task_details = Some(d);
                    },
                    None => {},
                }
            },
        }
    }

    /// Applies a batch of task updates in arrival order — each one fully
    /// visible before the next — and stamps the table with `now_ms`.
    pub fn update_tasks(&mut self, updates: Vec<TaskUpdate>, now_ms: i64)
        requires
            old(self).wf(),
            forall|k: int| 0 <= k < updates@.len() ==> task_update_wf(#[trigger] updates@[k]),
        ensures
            final(self).wf(),
            final(self).tasks@ == spec_apply_task_updates(old(self).tasks@, updates@, now_ms),
            details_view(final(self).current_task_details) == spec_apply_task_batch(
                old(self).tasks@,
                details_view(old(self).current_task_details),
                updates@,
                now_ms,
            ).1,
            interned_strings(final(self).strings) == spec_task_batch_cache(
                interned_strings(old(self).strings),
                updates@,
            ),
            final(self).last_update == now_ms,
            final(self).backends == old(self).backends,
            final(self).resources == old(self).resources,
            final(self).temporality == old(self).temporality,
            final(self).selected_task_id == old(self).selected_task_id,
            final(self).animation_frame == old(self).animation_frame,
            final(self).terminal_width == old(self).terminal_width,
            final(self).terminal_height == old(self).terminal_height,
            final(self).selected_backend == old(self).selected_backend,
    {
        let ghost target = spec_apply_task_batch(
            self.tasks@,
            details_view(self.current_task_details),
            updates@,
            now_ms,
        );
        let ghost target_cache = spec_task_batch_cache(interned_strings(self.strings), updates@);
        proof {
            lemma_task_batch_tasks(
                self.tasks@,
                details_view(self.current_task_details),
                updates@,
                now_ms,
            );
        }
        let mut rest = updates;
        while rest.len() > 0
            invariant
                self.wf(),
                forall|k: int| 0 <= k < rest@.len() ==> task_update_wf(#[trigger] rest@[k]),
                spec_apply_task_batch(
                    self.tasks@,
                    details_view(self.current_task_details),
                    rest@,
                    now_ms,
                ) == target,
                spec_task_batch_cache(interned_strings(self.strings), rest@) == target_cache,
                self.frame_except_tasks(*old(self)),
            decreases rest@.len(),
        {
            let u = rest.remove(0);
            let ghost t0 = self.tasks@;
            let ghost d0 = details_view(self.current_task_details);
            self.apply_one_task_update(u, now_ms);
        }
        self.last_update = now_ms;
    }

    /// Everything but the backend table is as it was; backend updates do not
    /// touch the name cache.
    pub open spec fn frame_except_backends(self, pre: AppState) -> bool {
        &&& self.tasks == pre.tasks
        &&& self.strings == pre.strings
        &&& self.resources == pre.resources
        &&& self.current_task_details == pre.current_task_details
        &&& self.temporality == pre.temporality
        &&& self.last_update == pre.last_update
        &&& self.selected_task_id == pre.selected_task_id
        &&& self.animation_frame == pre.animation_frame
        &&& self.terminal_width == pre.terminal_width
        &&& self.terminal_height == pre.terminal_height
        &&& self.selected_backend == pre.selected_backend
    }

    /// Applies one backend update: the table changes as the model says and
    /// nothing else moves.
    fn apply_one_backend_update(&mut self, u: BackendUpdate, now_ms: i64)
        requires
            old(self).wf(),
        ensures
            final(self).wf(),
            backends_view(final(self).backends@) == spec_apply_backend_update(
                backends_view(old(self).backends@),
                u,
                now_ms,
            ),
            final(self).frame_except_backends(*old(self)),
    {
        let ghost s0 = backends_view(self.backends@);
        match u {
            BackendUpdate::Status(name, st) => {
                match find_backend(&self.backends, &name) {
                    Some(i) => {
                        proof {
                            assert(s0[i as int].name == name@);
                            assert(has_backend(s0, name@));
                        }
                        let mut elem = self.backends.remove(i);
                        let ghost e0 = elem@;
                        elem.health = st.health;
                        elem.running_tasks = st.running_tasks;
                        elem.total_tasks = st.total_tasks;
                        proof {
                            assert(elem@ == spec_backend_set_status(e0, st));
                        }
                        self.backends.insert(i, elem);
                        proof {
                            assert forall|j: int| 0 <= j < s0.len() && j != i ==> s0[j].name
                                != name@ by {}
                            assert(backends_view(self.backends@) =~= spec_apply_backend_update(
                                s0,
                                BackendUpdate::Status(name, st),
                                now_ms,
                            ));
                        }
                    },
                    None => {
                        let ghost namev = name@;
                        let fresh = BackendState {
                            name: name,
                            kind: BackendKind::Unknown,
                            running_tasks: st.running_tasks,
                            total_tasks: st.total_tasks,
                            cpu_usage: 0,
                            memory_usage: 0,
                            health: st.health,
                            resource_history: Vec::new(),
                            last_update: now_ms,
                        };
                        proof {
                            assert(fresh@ == spec_synth_backend(namev, st, now_ms));
                        }
                        self.backends.push(fresh);
                        proof {
                            assert(backends_view(self.backends@) =~= s0.push(
                                spec_synth_backend(namev, st, now_ms),
                            ));
                            assert forall|j: int| 0 <= j < backends_view(self.backends@).len()
                                ==> backends_view(self.backends@)[j].wf() by {}
                        }
                    },
                }
            },
            BackendUpdate::ResourceUsage(name, usage) => {
                match find_backend(&self.backends, &name) {
                    Some(i) => {
                        proof {
                            assert(s0[i as int].name == name@);
                        }
                        let mut elem = self.backends.remove(i);
                        let ghost e0 = elem@;
                        elem.cpu_usage = if usage.cpu > crate::backend::USAGE_MAX {
                            crate::backend::USAGE_MAX
                        } else {
                            usage.cpu
                        };
                        elem.memory_usage = if usage.memory > crate::backend::USAGE_MAX {
                            crate::backend::USAGE_MAX
                        } else {
                            usage.memory
                        };
                        proof {
                            assert(elem@ == spec_backend_set_usage(e0, usage));
                        }
                        self.backends.insert(i, elem);
                        proof {
                            assert forall|j: int| 0 <= j < s0.len() && j != i ==> s0[j].name
                                != name@ by {}
                            assert(backends_view(self.backends@) =~= spec_apply_backend_update(
                                s0,
                                BackendUpdate::ResourceUsage(name, usage),
                                now_ms,
                            ));
                        }
                    },
                    None => {
                        let ghost namev = name@;
                        let fresh = BackendState {
                            name: name,
                            kind: BackendKind::Unknown,
                            running_tasks: 0,
                            total_tasks: 0,
                            cpu_usage: if usage.cpu > crate::backend::USAGE_MAX {
                                crate::backend::USAGE_MAX
                            } else {
                                usage.cpu
                            },
                            memory_usage: if usage.memory > crate::backend::USAGE_MAX {
                                crate::backend::USAGE_MAX
                            } else {
                                usage.memory
                            },
                            health: HealthStatus::Unknown,
                            resource_history: Vec::new(),
                            last_update: now_ms,
                        };
                        proof {
                            assert(fresh@ == spec_backend_set_usage(
                                spec_default_backend(namev, now_ms),
                                usage,
                            ));
                        }
                        self.backends.push(fresh);
                        proof {
                            assert(backends_view(self.backends@) =~= s0.push(
                                spec_backend_set_usage(spec_default_backend(namev, now_ms), usage),
                            ));
                            assert forall|j: int| 0 <= j < backends_view(self.backends@).len()
                                ==> backends_view(self.backends@)[j].wf() by {}
                        }
                    },
                }
            },
            BackendUpdate::Kind(name, kind) => {
                match find_backend(&self.backends, &name) {
                    Some(i) => {
                        proof {
                            assert(s0[i as int].name == name@);
                        }
                        let mut elem = self.backends.remove(i);
                        let ghost e0 = elem@;
                        elem.kind = kind;
                        proof {
                            assert(elem@ == spec_backend_set_kind(e0, elem.kind));
                        }
                        self.backends.insert(i, elem);
                        proof {
                            assert forall|j: int| 0 <= j < s0.len() && j != i ==> s0[j].name
                                != name@ by {}
                            assert(backends_view(self.backends@) =~= spec_apply_backend_update(
                                s0,
                                u,
                                now_ms,
                            ));
                        }
                    },
                    None => {
                        let ghost namev = name@;
                        let fresh = BackendState {
                            name: name,
                            kind: kind,
                            running_tasks: 0,
                            total_tasks: 0,
                            cpu_usage: 0,
                            memory_usage: 0,
                            health: HealthStatus::Unknown,
                            resource_history: Vec::new(),
                            last_update: now_ms,
                        };
                        proof {
                            assert(fresh@ == spec_backend_set_kind(
                                spec_default_backend(namev, now_ms),
                                fresh.kind,
                            ));
                        }
                        self.backends.push(fresh);
                        proof {
                            assert(backends_view(self.backends@) =~= spec_apply_backend_update(
                                s0,
                                u,
                                now_ms,
                            ));
                            assert forall|j: int| 0 <= j < backends_view(self.backends@).len()
                                ==> backends_view(self.backends@)[j].wf() by {}
                        }
                    },
                }
            },
        }
        proof {
            lemma_backend_update_preserves_wf(s0, u, now_ms);
        }
    }

    /// Applies a batch of backend updates in arrival order, each one fully
    /// visible before the next.
    pub fn update_backends(&mut self, updates: Vec<BackendUpdate>, now_ms: i64)
        requires
            old(self).wf(),
        ensures
            final(self).wf(),
            backends_view(final(self).backends@) == spec_apply_backend_updates(
                backends_view(old(self).backends@),
                updates@,
                now_ms,
            ),
            final(self).frame_except_backends(*old(self)),
    {
        let ghost target = spec_apply_backend_updates(backends_view(self.backends@), updates@, now_ms);
        let mut rest = updates;
        while rest.len() > 0
            invariant
                self.wf(),
                spec_apply_backend_updates(backends_view(self.backends@), rest@, now_ms) == target,
                self.frame_except_backends(*old(self)),
            decreases rest@.len(),
        {
            let u = rest.remove(0);
            self.apply_one_backend_update(u, now_ms);
        }
    }

    /// Everything but the detail record and the two selection cursors is as
    /// it was.
    pub open spec fn frame_except_selection(self, pre: AppState) -> bool {
        &&& self.tasks == pre.tasks
        &&& self.backends == pre.backends
        &&& self.resources == pre.resources
        &&& self.temporality == pre.temporality
        &&& self.strings == pre.strings
        &&& self.last_update == pre.last_update
        &&& self.animation_frame == pre.animation_frame
        &&& self.terminal_width == pre.terminal_width
        &&& self.terminal_height == pre.terminal_height
    }

    /// Relation of `select_next_task`: the cursor moved to the next task in
    /// id order and nothing else changed.
    pub open spec fn task_next_post(pre: AppState, post: AppState) -> bool {
        &&& post.selected_task_id == spec_next_task_selection(pre.tasks@, pre.selected_task_id)
        &&& post.current_task_details == pre.current_task_details
        &&& post.selected_backend == pre.selected_backend
        &&& post.frame_except_selection(pre)
    }

    /// Relation of `select_prev_task`: the cursor moved to the previous task
    /// in id order and nothing else changed.
    pub open spec fn task_prev_post(pre: AppState, post: AppState) -> bool {
        &&& post.selected_task_id == spec_prev_task_selection(pre.tasks@, pre.selected_task_id)
        &&& post.current_task_details == pre.current_task_details
        &&& post.selected_backend == pre.selected_backend
        &&& post.frame_except_selection(pre)
    }

    /// Relation of `select_next_backend`: the cursor moved one backend down
    /// the table, wrapping, and nothing else changed.
    pub open spec fn backend_next_post(pre: AppState, post: AppState) -> bool {
        &&& pre.backends@.len() == 0 ==> post.selected_backend == pre.selected_backend
        &&& pre.backends@.len() > 0 ==> match pre.selected_backend {
            Some(cur) => {
                if has_backend(backends_view(pre.backends@), cur@) {
                    exists|i: int|
                        0 <= i < pre.backends@.len() && pre.backends@[i].name@ == cur@
                            && post.selected_backend == Some(
                            pre.backends@[
                                if i + 1 < pre.backends@.len() {
                                    i + 1
                                } else {
                                    0
                                }
                            ].name,
                        )
                } else {
                    post.selected_backend == Some(pre.backends@[0].name)
                }
            },
            None => post.selected_backend == Some(pre.backends@[0].name),
        }
        &&& post.current_task_details == pre.current_task_details
        &&& post.selected_task_id == pre.selected_task_id
        &&& post.frame_except_selection(pre)
    }

    /// Relation of `select_prev_backend`: the cursor moved one backend up
    /// the table, wrapping, and nothing else changed.
    pub open spec fn backend_prev_post(pre: AppState, post: AppState) -> bool {
        &&& pre.backends@.len() == 0 ==> post.selected_backend == pre.selected_backend
        &&& pre.backends@.len() > 0 ==> match pre.selected_backend {
            Some(cur) => {
                if has_backend(backends_view(pre.backends@), cur@) {
                    exists|i: int|
                        0 <= i < pre.backends@.len() && pre.backends@[i].name@ == cur@
                            && post.selected_backend == Some(
                            pre.backends@[
                                if i > 0 {
                                    i - 1
                                } else {
                                    pre.backends@.len() - 1
                                }
                            ].name,
                        )
                } else {
                    post.selected_backend == Some(pre.backends@[pre.backends@.len() - 1].name)
                }
            },
            None => post.selected_backend == Some(pre.backends@[pre.backends@.len() - 1].name),
        }
        &&& post.current_task_details == pre.current_task_details
        &&& post.selected_task_id == pre.selected_task_id
        &&& post.frame_except_selection(pre)
    }

    /// The name the backends list is on: the explicit cursor when set, else
    /// the first backend, else nothing.
    pub open spec fn spec_backend_name_choice(self) -> Option<String> {
        match self.selected_backend {
            Some(n) => Some(n),
            None => if self.backends@.len() > 0 {
                Some(self.backends@[0].name)
            } else {
                None
            },
        }
    }

    /// Relation of `select_task`: a fresh detail record for the task when it
    /// exists, untouched otherwise; nothing else changed.
    pub open spec fn select_task_post(pre: AppState, post: AppState, task_id: u64) -> bool {
        &&& has_task(pre.tasks@, task_id) ==> exists|i: int|
            0 <= i < pre.tasks@.len() && pre.tasks@[i].id == task_id && details_view(
                post.current_task_details,
            ) == Some(
                TaskDetailsView {
                    task_id: task_id,
                    logs: Seq::<Seq<char>>::empty(),
                    resource_history: Seq::<ResourceSample>::empty(),
                    start_time: pre.tasks@[i].start_time,
                    elapsed: 0,
                },
            )
        &&& !has_task(pre.tasks@, task_id) ==> post.current_task_details
            == pre.current_task_details
        &&& post.selected_task_id == pre.selected_task_id
        &&& post.selected_backend == pre.selected_backend
        &&& post.frame_except_selection(pre)
    }

    /// Relation of `select_backend`: the backends-list cursor holds the given
    /// name and nothing else changed.
    pub open spec fn select_backend_post(pre: AppState, post: AppState, name: Seq<char>) -> bool {
        &&& match post.selected_backend {
            Some(s) => s@ == name,
            None => false,
        }
        &&& post.current_task_details == pre.current_task_details
        &&& post.selected_task_id == pre.selected_task_id
        &&& post.frame_except_selection(pre)
    }

    /// Materializes a fresh detail record for the given task; a no-op when no task
    /// has the id.
    pub fn select_task(&mut self, task_id: u64)
        requires
            old(self).wf(),
        ensures
            final(self).wf(),
            AppState::select_task_post(*old(self), *final(self), task_id),
    {
        match find_task(&self.tasks, task_id) {
            Some(i) => {
                let start_time = self.tasks[i].start_time;
                let fresh = TaskDetails {
                    task_id,
                    logs: Vec::new(),
                    resource_history: Vec::new(),
                    start_time,
                    elapsed: 0,
                };
                proof {
                    assert(fresh@.logs =~= Seq::<Seq<char>>::empty());
                    assert(fresh@.resource_history =~= Seq::<ResourceSample>::empty());
                    assert(fresh@ == (TaskDetailsView {
                        task_id: task_id,
                        logs: Seq::<Seq<char>>::empty(),
                        resource_history: Seq::<ResourceSample>::empty(),
                        start_time: start_time,
                        elapsed: 0,
                    }));
                }
                self.current_task_details = Some(fresh);
            },
            None => {},
        }
    }

    /// Discards the detail record and clears the tasks-list cursor.
    pub fn deselect_task(&mut self)
        requires
            old(self).wf(),
        ensures
            final(self).wf(),
            final(self).current_task_details is None,
            final(self).selected_task_id is None,
            final(self).selected_backend == old(self).selected_backend,
            final(self).frame_except_selection(*old(self)),
    {
        self.current_task_details = None;
        self.selected_task_id = None;
    }

    /// The tasks-list cursor, if set.
    pub fn selected_task_id(&self) -> (r: Option<u64>)
        ensures
            r == self.selected_task_id,
    {
        self.selected_task_id
    }

    /// Moves the tasks-list cursor to the next task in id order, wrapping to
    /// the smallest id.
    pub fn select_next_task(&mut self)
        requires
            old(self).wf(),
        ensures
            final(self).wf(),
            AppState::task_next_post(*old(self), *final(self)),
    {
        if self.tasks.len() == 0 {
            self.selected_task_id = None;
            return ;
        }
        let next = match self.selected_task_id {
            Some(c) => {
                match find_task(&self.tasks, c) {
                    Some(_) => {
                        match min_id_above(&self.tasks, c) {
                            Some(m) => Some(m),
                            None => min_id(&self.tasks),
                        }
                    },
                    None => min_id(&self.tasks),
                }
            },
            None => min_id(&self.tasks),
        };
        self.selected_task_id = next;
    }

    /// Moves the tasks-list cursor to the previous task in id order, wrapping
    /// to the largest id.
    pub fn select_prev_task(&mut self)
        requires
            old(self).wf(),
        ensures
            final(self).wf(),
            AppState::task_prev_post(*old(self), *final(self)),
    {
        if self.tasks.len() == 0 {
            self.selected_task_id = None;
            return ;
        }
        let prev = match self.selected_task_id {
            Some(c) => {
                match find_task(&self.tasks, c) {
                    Some(_) => {
                        match max_id_below(&self.tasks, c) {
                            Some(m) => Some(m),
                            None => max_id(&self.tasks),
                        }
                    },
                    None => max_id(&self.tasks),
                }
            },
            None => max_id(&self.tasks),
        };
        self.selected_task_id = prev;
    }

    /// Name of the backend the backends list is on: the explicit cursor when
    /// set, else the first backend, else nothing.
    pub fn selected_backend_name(&self) -> (r: Option<String>)
        ensures
            r == self.spec_backend_name_choice(),
    {
        match &self.selected_backend {
            Some(name) => Some(name.clone()),
            None => {
                if self.backends.len() > 0 {
                    Some(self.backends[0].name.clone())
                } else {
                    None
                }
            },
        }
    }

    /// Sets the backends-list cursor to this name.
    pub fn select_backend(&mut self, name: &str)
        requires
            old(self).wf(),
        ensures
            final(self).wf(),
            AppState::select_backend_post(*old(self), *final(self), name@),
    {
        self.selected_backend = Some(name.to_owned());
    }

    /// Clears the backends-list cursor.
    pub fn deselect_backend(&mut self)
        requires
            old(self).wf(),
        ensures
            final(self).wf(),
            final(self).selected_backend is None,
            final(self).current_task_details == old(self).current_task_details,
            final(self).selected_task_id == old(self).selected_task_id,
            final(self).frame_except_selection(*old(self)),
    {
        self.selected_backend = None;
    }

    /// Moves the backends-list cursor to the next backend in table order,
    /// wrapping to the first; the first when nothing was selected or the
    /// selection is gone.
    pub fn select_next_backend(&mut self)
        requires
            old(self).wf(),
        ensures
            final(self).wf(),
            AppState::backend_next_post(*old(self), *final(self)),
    {
        if self.backends.len() == 0 {
            return ;
        }
        let ghost s0 = self.backends@;
        match &self.selected_backend {
            Some(cur) => {
                let ghost curv = cur@;
                match find_backend(&self.backends, cur) {
                    Some(i) => {
                        let idx: usize = if i + 1 < self.backends.len() {
                            i + 1
                        } else {
                            0
                        };
                        self.selected_backend = Some(self.backends[idx].name.clone());
                        proof {
                            assert(backends_view(s0)[i as int].name == s0[i as int].name@);
                            assert(has_backend(backends_view(s0), curv));
                            assert((i as int) < s0.len() && s0[i as int].name@ == curv
                                && self.selected_backend == Some(
                                s0[if i as int + 1 < s0.len() { i as int + 1 } else { 0 }].name,
                            ));
                        }
                    },
                    None => {
                        self.selected_backend = Some(self.backends[0].name.clone());
                    },
                }
            },
            None => {
                self.selected_backend = Some(self.backends[0].name.clone());
            },
        }
    }

    /// Moves the backends-list cursor to the previous backend in table order,
    /// wrapping to the last; the last when nothing was selected or the
    /// selection is gone.
    pub fn select_prev_backend(&mut self)
        requires
            old(self).wf(),
        ensures
            final(self).wf(),
            AppState::backend_prev_post(*old(self), *final(self)),
    {
        if self.backends.len() == 0 {
            return ;
        }
        let ghost s0 = self.backends@;
        match &self.selected_backend {
            Some(cur) => {
                let ghost curv = cur@;
                match find_backend(&self.backends, cur) {
                    Some(i) => {
                        let idx: usize = if i > 0 {
                            i - 1
                        } else {
                            self.backends.len() - 1
                        };
                        self.selected_backend = Some(self.backends[idx].name.clone());
                        proof {
                            assert(backends_view(s0)[i as int].name == s0[i as int].name@);
                            assert(has_backend(backends_view(s0), curv));
                            assert((i as int) < s0.len() && s0[i as int].name@ == curv
                                && self.selected_backend == Some(
                                s0[if i as int > 0 { i as int - 1 } else { s0.len() - 1 }].name,
                            ));
                        }
                    },
                    None => {
                        self.selected_backend = Some(
                            self.backends[self.backends.len() - 1].name.clone(),
                        );
                    },
                }
            },
            None => {
                self.selected_backend = Some(self.backends[self.backends.len() - 1].name.clone());
            },
        }
    }

    /// How many tasks are currently active (not terminal).
    pub fn active_task_count(&self) -> (r: usize)
        ensures
            r == spec_active_count(self.tasks@),
    {
        let n = self.tasks.len();
        let mut count: usize = 0;
        let mut i: usize = 0;
        while i < n
            invariant
                0 <= i <= n,
                n == self.tasks@.len(),
                count == spec_active_count(self.tasks@.subrange(0, i as int)),
                count <= i,
            decreases n - i,
        {
            assert(self.tasks@.subrange(0, i + 1 as int).drop_last() == self.tasks@.subrange(
                0,
                i as int,
            ));
            assert(self.tasks@.subrange(0, i + 1 as int).last() == self.tasks@[i as int]);
            if self.tasks[i].is_active() {
                count += 1;
            }
            i += 1;
        }
        assert(self.tasks@.subrange(0, n as int) == self.tasks@);
        count
    }
}

/// Smallest task id strictly above `x`, if any.
pub open spec fn spec_min_id_above(s: Seq<TaskState>, x: u64) -> Option<u64>
    decreases s.len(),
{
    if s.len() == 0 {
        None
    } else {
        let rest = spec_min_id_above(s.drop_last(), x);
        let h = s.last().id;
        if h > x {
            match rest {
                None => Some(h),
                Some(m) => if h < m {
                    Some(h)
                } else {
                    Some(m)
                },
            }
        } else {
            rest
        }
    }
}

/// Smallest task id in the table, if any.
pub open spec fn spec_min_id(s: Seq<TaskState>) -> Option<u64>
    decreases s.len(),
{
    if s.len() == 0 {
        None
    } else {
        let rest = spec_min_id(s.drop_last());
        let h = s.last().id;
        match rest {
            None => Some(h),
            Some(m) => if h < m {
                Some(h)
            } else {
                Some(m)
            },
        }
    }
}

/// Largest task id strictly below `x`, if any.
pub open spec fn spec_max_id_below(s: Seq<TaskState>, x: u64) -> Option<u64>
    decreases s.len(),
{
    if s.len() == 0 {
        None
    } else {
        let rest = spec_max_id_below(s.drop_last(), x);
        let h = s.last().id;
        if h < x {
            match rest {
                None => Some(h),
                Some(m) => if h > m {
                    Some(h)
                } else {
                    Some(m)
                },
            }
        } else {
            rest
        }
    }
}

/// Largest task id in the table, if any.
pub open spec fn spec_max_id(s: Seq<TaskState>) -> Option<u64>
    decreases s.len(),
{
    if s.len() == 0 {
        None
    } else {
        let rest = spec_max_id(s.drop_last());
        let h = s.last().id;
        match rest {
            None => Some(h),
            Some(m) => if h > m {
                Some(h)
            } else {
                Some(m)
            },
        }
    }
}

/// The cursor after moving down the id-sorted task list: the next larger id,
/// wrapping to the smallest; the smallest when nothing was selected or the
/// selection is gone.
pub open spec fn spec_next_task_selection(s: Seq<TaskState>, cur: Option<u64>) -> Option<u64> {
    if s.len() == 0 {
        None
    } else {
        match cur {
            Some(c) => if has_task(s, c) {
                match spec_min_id_above(s, c) {
                    Some(m) => Some(m),
                    None => spec_min_id(s),
                }
            } else {
                spec_min_id(s)
            },
            None => spec_min_id(s),
        }
    }
}

/// The cursor after moving up the id-sorted task list: the next smaller id,
/// wrapping to the largest; the largest when nothing was selected or the
/// selection is gone.
pub open spec fn spec_prev_task_selection(s: Seq<TaskState>, cur: Option<u64>) -> Option<u64> {
    if s.len() == 0 {
        None
    } else {
        match cur {
            Some(c) => if has_task(s, c) {
                match spec_max_id_below(s, c) {
                    Some(m) => Some(m),
                    None => spec_max_id(s),
                }
            } else {
                spec_max_id(s)
            },
            None => spec_max_id(s),
        }
    }
}

/// Number of tasks that are not yet terminal.
pub open spec fn spec_active_count(s: Seq<TaskState>) -> nat
    decreases s.len(),
{
    if s.len() == 0 {
        0
    } else {
        spec_active_count(s.drop_last()) + if s.last().spec_is_active() {
            1nat
        } else {
            0nat
        }
    }
}

/// Smallest task id strictly above `x`, scanning the table.
fn min_id_above(tasks: &Vec<TaskState>, x: u64) -> (r: Option<u64>)
    ensures
        r == spec_min_id_above(tasks@, x),
{
    let n = tasks.len();
    let mut acc: Option<u64> = None;
    let mut i: usize = 0;
    while i < n
        invariant
            0 <= i <= n,
            n == tasks@.len(),
            acc == spec_min_id_above(tasks@.subrange(0, i as int), x),
        decreases n - i,
    {
        assert(tasks@.subrange(0, i + 1 as int).drop_last() == tasks@.subrange(0, i as int));
        assert(tasks@.subrange(0, i + 1 as int).last() == tasks@[i as int]);
        let h = tasks[i].id;
        if h > x {
            acc = match acc {
                None => Some(h),
                Some(m) => if h < m {
                    Some(h)
                } else {
                    Some(m)
                },
            };
        }
        i += 1;
    }
    assert(tasks@.subrange(0, n as int) == tasks@);
    acc
}

/// Smallest task id in the table, scanning it.
fn min_id(tasks: &Vec<TaskState>) -> (r: Option<u64>)
    ensures
        r == spec_min_id(tasks@),
{
    let n = tasks.len();
    let mut acc: Option<u64> = None;
    let mut i: usize = 0;
    while i < n
        invariant
            0 <= i <= n,
            n == tasks@.len(),
            acc == spec_min_id(tasks@.subrange(0, i as int)),
        decreases n - i,
    {
        assert(tasks@.subrange(0, i + 1 as int).drop_last() == tasks@.subrange(0, i as int));
        assert(tasks@.subrange(0, i + 1 as int).last() == tasks@[i as int]);
        let h = tasks[i].id;
        acc = match acc {
            None => Some(h),
            Some(m) => if h < m {
                Some(h)
            } else {
                Some(m)
            },
        };
        i += 1;
    }
    assert(tasks@.subrange(0, n as int) == tasks@);
    acc
}

/// Largest task id strictly below `x`, scanning the table.
fn max_id_below(tasks: &Vec<TaskState>, x: u64) -> (r: Option<u64>)
    ensures
        r == spec_max_id_below(tasks@, x),
{
    let n = tasks.len();
    let mut acc: Option<u64> = None;
    let mut i: usize = 0;
    while i < n
        invariant
            0 <= i <= n,
            n == tasks@.len(),
            acc == spec_max_id_below(tasks@.subrange(0, i as int), x),
        decreases n - i,
    {
        assert(tasks@.subrange(0, i + 1 as int).drop_last() == tasks@.subrange(0, i as int));
        assert(tasks@.subrange(0, i + 1 as int).last() == tasks@[i as int]);
        let h = tasks[i].id;
        if h < x {
            acc = match acc {
                None => Some(h),
                Some(m) => if h > m {
                    Some(h)
                } else {
                    Some(m)
                },
            };
        }
        i += 1;
    }
    assert(tasks@.subrange(0, n as int) == tasks@);
    acc
}

/// Largest task id in the table, scanning it.
fn max_id(tasks: &Vec<TaskState>) -> (r: Option<u64>)
    ensures
        r == spec_max_id(tasks@),
{
    let n = tasks.len();
    let mut acc: Option<u64> = None;
    let mut i: usize = 0;
    while i < n
        invariant
            0 <= i <= n,
            n == tasks@.len(),
            acc == spec_max_id(tasks@.subrange(0, i as int)),
        decreases n - i,
    {
        assert(tasks@.subrange(0, i + 1 as int).drop_last() == tasks@.subrange(0, i as int));
        assert(tasks@.subrange(0, i + 1 as int).last() == tasks@[i as int]);
        let h = tasks[i].id;
        acc = match acc {
            None => Some(h),
            Some(m) => if h > m {
                Some(h)
            } else {
                Some(m)
            },
        };
        i += 1;
    }
    assert(tasks@.subrange(0, n as int) == tasks@);
    acc
}

/// What caching one name does to the cache contents: the name is added
/// unless the cache has reached the symbol space's bound, in which case it
/// is left as it is.
pub open spec fn spec_cache_one(c: Set<Seq<char>>, s: Seq<char>) -> Set<Seq<char>> {
    if c.finite() && c.len() < 0xFFFF_FFFF {
        c.insert(s)
    } else {
        c
    }
}

/// What one task update does to the name cache: a created task's name and
/// backend name are cached, in that order; nothing else touches the cache.
pub open spec fn spec_task_update_cache(c: Set<Seq<char>>, u: TaskUpdate) -> Set<Seq<char>> {
    match u {
        TaskUpdate::Created(t) => spec_cache_one(spec_cache_one(c, t.name@), t.backend@),
        _ => c,
    }
}

/// What a batch of task updates does to the name cache, in arrival order.
pub open spec fn spec_task_batch_cache(c: Set<Seq<char>>, us: Seq<TaskUpdate>) -> Set<Seq<char>>
    decreases us.len(),
{
    if us.len() == 0 {
        c
    } else {
        spec_task_batch_cache(spec_task_update_cache(c, us[0]), us.drop_first())
    }
}

/// Pushes one sample into the detail history ring, evicting the oldest at
/// capacity; nothing else changes.
fn push_detail_sample(d: &mut TaskDetails, sample: ResourceSample)
    requires
        old(d)@.resource_history.len() <= DETAILS_HISTORY_SIZE,
    ensures
        final(d)@ == (TaskDetailsView {
            resource_history: spec_push_bounded(
                old(d)@.resource_history,
                sample,
                DETAILS_HISTORY_SIZE as nat,
            ),
            ..old(d)@
        }),
        final(d)@.resource_history.len() <= DETAILS_HISTORY_SIZE,
{
    d.resource_history.push(sample);
    if d.resource_history.len() > DETAILS_HISTORY_SIZE {
        d.resource_history.remove(0);
    }
}

/// Index of the task with this id, scanning from the front.
fn find_task(tasks: &Vec<TaskState>, id: u64) -> (r: Option<usize>)
    ensures
        match r {
            Some(i) => i < tasks@.len() && tasks@[i as int].id == id,
            None => !has_task(tasks@, id),
        },
{
    let n = tasks.len();
    let mut i: usize = 0;
    while i < n
        invariant
            0 <= i <= n,
            n == tasks@.len(),
            forall|j: int| 0 <= j < i ==> tasks@[j].id != id,
        decreases n - i,
    {
        if tasks[i].id == id {
            return Some(i);
        }
        i += 1;
    }
    None
}

/// Index of the backend with this name, scanning from the front.
fn find_backend(backends: &Vec<BackendState>, name: &String) -> (r: Option<usize>)
    ensures
        match r {
            Some(i) => i < backends@.len() && backends@[i as int].name@ == name@,
            None => !has_backend(backends_view(backends@), name@),
        },
{
    let n = backends.len();
    let mut i: usize = 0;
    while i < n
        invariant
            0 <= i <= n,
            n == backends@.len(),
            forall|j: int| 0 <= j < i ==> backends_view(backends@)[j].name != name@,
        decreases n - i,
    {
        if backends[i].name == *name {
            return Some(i);
        }
        assert(backends_view(backends@)[i as int].name == backends@[i as int].name@);
        i += 1;
    }
    None
}

/// Caches a name unless the cache has reached the symbol space's bound, in
/// which case the name is simply not cached.
fn cache_name(cache: &mut NameCache, s: &str)
    requires
        interned_strings(*old(cache)).finite(),
    ensures
        interned_strings(*final(cache)).finite(),
        interned_strings(*final(cache)) == spec_cache_one(interned_strings(*old(cache)), s@),
{
    let n = interner_len(cache);
    if n < 0xFFFF_FFFFusize {
        interner_intern(cache, s);
    }
}

} // verus!
