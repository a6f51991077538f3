//! View models: the plain values each screen is drawn from. The drawing
//! itself — widgets, styles, layout — happens outside the library; these
//! functions compute exactly what is shown.

use vstd::prelude::*;
use crate::app_state::AppState;
use crate::backend::{BackendState, BackendKind, HealthStatus};
use crate::task::{TaskState, TaskStatus};
use crate::update::{has_task, has_backend};
use crate::app_state::backends_view;

verus! {

// ------------------------------------------------------------------
// Dashboard
// ------------------------------------------------------------------

/// How many tasks of the table carry this status.
pub open spec fn spec_count_status(s: Seq<TaskState>, st: TaskStatus) -> nat
    decreases s.len(),
{
    if s.len() == 0 {
        0
    } else {
        spec_count_status(s.drop_last(), st) + if s.last().status == st {
            1nat
        } else {
            0nat
        }
    }
}

/// Task counts per status, as the dashboard summary shows them.
#[derive(Debug, Clone, Copy, PartialEq, Eq, Structural)]
pub struct TaskStatusCounts {
    pub created: usize,
    pub queued: usize,
    pub running: usize,
    pub completed: usize,
    pub failed: usize,
    pub cancelled: usize,
}

/// Overall system status shown by the dashboard, judged from the backends.
#[derive(Debug, Clone, Copy, PartialEq, Eq, Structural)]
pub enum SystemStatus {
    /// Some backend is unhealthy.
    Alert,
    /// No backend is unhealthy but some is degraded.
    Degraded,
    /// Every backend is healthy (an empty table counts as healthy).
    Healthy,
    /// None of the above.
    Unknown,
}

/// Direction of a displayed metric against its previous value.
#[derive(Debug, Clone, Copy, PartialEq, Eq, Structural)]
pub enum Trend {
    Up,
    Down,
    Neutral,
    /// No previous value to compare against.
    Unknown,
}

impl Trend {
    /// The arrow the stat panel shows beside a trending value.
    pub fn symbol(&self) -> (r: &'static str)
        ensures
            r@ == match *self {
                Trend::Up => "\u{2191}"@,
                Trend::Down => "\u{2193}"@,
                Trend::Neutral => "\u{2192}"@,
                Trend::Unknown => ""@,
            },
    {
        match self {
            Trend::Up => "\u{2191}",
            Trend::Down => "\u{2193}",
            Trend::Neutral => "\u{2192}",
            Trend::Unknown => "",
        }
    }
}

/// Severity of a displayed metric against its thresholds: an unhealthy
/// source is always critical; otherwise the value is held against the
/// critical and then the warning threshold, where one is set.
#[derive(Debug, Clone, Copy, PartialEq, Eq, Structural)]
pub enum SeverityLevel {
    Critical,
    Warning,
    Normal,
}

/// The severity of a metric value, in the units the value is carried in.
pub fn severity_level(
    value: u32,
    warn_threshold: Option<u32>,
    crit_threshold: Option<u32>,
    is_healthy: bool,
) -> (r: SeverityLevel)
    ensures
        r == {
            if !is_healthy {
                SeverityLevel::Critical
            } else if crit_threshold matches Some(c) && value >= c {
                SeverityLevel::Critical
            } else if warn_threshold matches Some(w) && value >= w {
                SeverityLevel::Warning
            } else {
                SeverityLevel::Normal
            }
        },
{
    if !is_healthy {
        return SeverityLevel::Critical;
    }
    match crit_threshold {
        Some(c) if value >= c => {
            return SeverityLevel::Critical;
        },
        _ => {},
    }
    match warn_threshold {
        Some(w) if value >= w => {
            return SeverityLevel::Warning;
        },
        _ => {},
    }
    SeverityLevel::Normal
}

/// Progress stage a dynamically styled bar colors by, from the filled share
/// in basis points: the first third, up to sixty percent, up to ninety, and
/// the home stretch.
#[derive(Debug, Clone, Copy, PartialEq, Eq, Structural)]
pub enum ProgressStage {
    Early,
    Middle,
    Late,
    Finishing,
}

/// The stage of a progress value given in basis points.
pub fn progress_stage(progress_bp: u32) -> (r: ProgressStage)
    ensures
        r == {
            let pct = progress_bp / 100;
            if pct <= 30 {
                ProgressStage::Early
            } else if pct <= 60 {
                ProgressStage::Middle
            } else if pct <= 90 {
                ProgressStage::Late
            } else {
                ProgressStage::Finishing
            }
        },
{
    let pct = progress_bp / 100;
    if pct <= 30 {
        ProgressStage::Early
    } else if pct <= 60 {
        ProgressStage::Middle
    } else if pct <= 90 {
        ProgressStage::Late
    } else {
        ProgressStage::Finishing
    }
}

/// The trend of a value against its previous reading, if one exists.
pub fn trend_between(previous: Option<u32>, current: u32) -> (r: Trend)
    ensures
        r == match previous {
            Some(p) => if current > p {
                Trend::Up
            } else if current < p {
                Trend::Down
            } else {
                Trend::Neutral
            },
            None => Trend::Unknown,
        },
{
    match previous {
        Some(p) => {
            if current > p {
                Trend::Up
            } else if current < p {
                Trend::Down
            } else {
                Trend::Neutral
            }
        },
        None => Trend::Unknown,
    }
}

/// Dashboard overview of all tasks and backends.
pub struct DashboardView;

impl DashboardView {
    /// How many tasks of the table carry this status, scanning it.
    pub fn count_status(tasks: &Vec<TaskState>, st: TaskStatus) -> (r: usize)
        ensures
            r == spec_count_status(tasks@, st),
    {
        let n = tasks.len();
        let mut count: usize = 0;
        let mut i: usize = 0;
        while i < n
            invariant
                0 <= i <= n,
                n == tasks@.len(),
                count == spec_count_status(tasks@.subrange(0, i as int), st),
                count <= i,
            decreases n - i,
        {
            assert(tasks@.subrange(0, i + 1 as int).drop_last() == tasks@.subrange(0, i as int));
            assert(tasks@.subrange(0, i + 1 as int).last() == tasks@[i as int]);
            if tasks[i].status == st {
                count += 1;
            }
            i += 1;
        }
        assert(tasks@.subrange(0, n as int) == tasks@);
        count
    }

    /// Task counts per status.
    pub fn status_counts(tasks: &Vec<TaskState>) -> (r: TaskStatusCounts)
        ensures
            r.created == spec_count_status(tasks@, TaskStatus::Created),
            r.queued == spec_count_status(tasks@, TaskStatus::Queued),
            r.running == spec_count_status(tasks@, TaskStatus::Running),
            r.completed == spec_count_status(tasks@, TaskStatus::Completed),
            r.failed == spec_count_status(tasks@, TaskStatus::Failed),
            r.cancelled == spec_count_status(tasks@, TaskStatus::Cancelled),
    {
        TaskStatusCounts {
            created: DashboardView::count_status(tasks, TaskStatus::Created),
            queued: DashboardView::count_status(tasks, TaskStatus::Queued),
            running: DashboardView::count_status(tasks, TaskStatus::Running),
            completed: DashboardView::count_status(tasks, TaskStatus::Completed),
            failed: DashboardView::count_status(tasks, TaskStatus::Failed),
            cancelled: DashboardView::count_status(tasks, TaskStatus::Cancelled),
        }
    }

    /// Overall system status: an unhealthy backend raises the alert, a
    /// degraded one short of that shows degraded, an all-healthy table —
    /// the empty one included — shows healthy, anything else unknown.
    pub fn system_status(backends: &Vec<BackendState>) -> (r: SystemStatus)
        ensures
            r == {
                let s = backends@;
                if exists|i: int| 0 <= i < s.len() && s[i].health == HealthStatus::Unhealthy {
                    SystemStatus::Alert
                } else if exists|i: int|
                    0 <= i < s.len() && s[i].health == HealthStatus::Degraded {
                    SystemStatus::Degraded
                } else if forall|i: int|
                    0 <= i < s.len() ==> s[i].health == HealthStatus::Healthy {
                    SystemStatus::Healthy
                } else {
                    SystemStatus::Unknown
                }
            },
    {
        let n = backends.len();
        let mut any_unhealthy = false;
        let mut any_degraded = false;
        let mut all_healthy = true;
        let mut i: usize = 0;
        while i < n
            invariant
                0 <= i <= n,
                n == backends@.len(),
                any_unhealthy == exists|j: int|
                    0 <= j < i && backends@[j].health == HealthStatus::Unhealthy,
                any_degraded == exists|j: int|
                    0 <= j < i && backends@[j].health == HealthStatus::Degraded,
                all_healthy == forall|j: int|
                    0 <= j < i ==> backends@[j].health == HealthStatus::Healthy,
            decreases n - i,
        {
            let h = backends[i].health;
            if h == HealthStatus::Unhealthy {
                any_unhealthy = true;
            }
            if h == HealthStatus::Degraded {
                any_degraded = true;
            }
            if h != HealthStatus::Healthy {
                all_healthy = false;
            }
            i += 1;
        }
        if any_unhealthy {
            SystemStatus::Alert
        } else if any_degraded {
            SystemStatus::Degraded
        } else if all_healthy {
            SystemStatus::Healthy
        } else {
            SystemStatus::Unknown
        }
    }

    /// Indices of all tasks ordered most recently started first. The caller
    /// takes as many as it shows.
    pub fn tasks_by_recency(tasks: &Vec<TaskState>) -> (r: Vec<usize>)
        ensures
            r@.len() == tasks@.len(),
            forall|p: int| 0 <= p < r@.len() ==> (#[trigger] r@[p]) < tasks@.len(),
            forall|p: int, q: int| 0 <= p < q < r@.len() ==> r@[p] != r@[q],
            forall|p: int, q: int|
                0 <= p < q < r@.len() ==> tasks@[#[trigger] r@[p] as int].start_time >= tasks@[
                    #[trigger] r@[q] as int
                ].start_time,
    {
        let n = tasks.len();
        let mut order: Vec<usize> = Vec::new();
        let mut k: usize = 0;
        while k < n
            invariant
                0 <= k <= n,
                n == tasks@.len(),
                order@.len() == k,
                forall|p: int| 0 <= p < order@.len() ==> (#[trigger] order@[p]) < k,
                forall|p: int, q: int| 0 <= p < q < order@.len() ==> order@[p] != order@[q],
                forall|p: int, q: int|
                    0 <= p < q < order@.len() ==> tasks@[#[trigger] order@[p] as int].start_time
                        >= tasks@[#[trigger] order@[q] as int].start_time,
            decreases n - k,
        {
            let ghost before = order@;
            // insert index k in front of the first entry that started earlier
            let mut j: usize = 0;
            while j < k && tasks[order[j]].start_time >= tasks[k].start_time
                invariant
                    0 <= j <= k,
                    k < n,
                    n == tasks@.len(),
                    order@ == before,
                    order@.len() == k,
                    forall|p: int| 0 <= p < order@.len() ==> (#[trigger] order@[p]) < k,
                    forall|p: int|
                        0 <= p < j ==> tasks@[#[trigger] order@[p] as int].start_time >= tasks@[
                            k as int
                        ].start_time,
                decreases k - j,
            {
                j += 1;
            }
            order.insert(j, k);
            proof {
                let cur = order@;
                assert forall|p: int, q: int|
                    0 <= p < q < cur.len() implies tasks@[#[trigger] cur[p] as int].start_time
                    >= tasks@[#[trigger] cur[q] as int].start_time by {
                    if q < j {
                        assert(cur[p] == before[p] && cur[q] == before[q]);
                    } else if q == j {
                        assert(cur[q] == k as usize);
                        assert(cur[p] == before[p]);
                    } else {
                        assert(cur[q] == before[q - 1]);
                        if p < j {
                            assert(cur[p] == before[p]);
                        } else if p == j {
                            assert(cur[p] == k as usize);
                            // the entry displaced to q - 1 started no later than k's task
                            assert(!(tasks@[before[j as int] as int].start_time >= tasks@[
                                k as int
                            ].start_time));
                            assert(tasks@[before[j as int] as int].start_time >= tasks@[before[
                                q - 1
                            ] as int].start_time || j == q - 1);
                        } else {
                            assert(cur[p] == before[p - 1]);
                        }
                    }
                }
                assert forall|p: int, q: int| 0 <= p < q < order@.len() implies order@[p]
                    != order@[q] by {
                    if p == j || q == j {
                        assert(forall|m: int| 0 <= m < before.len() ==> (#[trigger] before[m]) < k);
                    }
                }
            }
            k += 1;
        }
        order
    }
}

// ------------------------------------------------------------------
// Status line
// ------------------------------------------------------------------

/// The status-line label of a temporality.
pub fn temporality_label(t: crate::app_state::Temporality) -> (r: &'static str)
    ensures
        r@ == match t {
            crate::app_state::Temporality::Live => "LIVE"@,
            crate::app_state::Temporality::Paused => "PAUSED"@,
            crate::app_state::Temporality::Pausing => "PAUSING..."@,
            crate::app_state::Temporality::Unpausing => "UNPAUSING..."@,
        },
{
    match t {
        crate::app_state::Temporality::Live => "LIVE",
        crate::app_state::Temporality::Paused => "PAUSED",
        crate::app_state::Temporality::Pausing => "PAUSING...",
        crate::app_state::Temporality::Unpausing => "UNPAUSING...",
    }
}

// ------------------------------------------------------------------
// Task detail (and its missing-task placeholder)
// ------------------------------------------------------------------

/// Plain values the task detail header and info tab show.
pub struct TaskSummary {
    pub id: u64,
    pub name: String,
    pub backend: String,
    pub status: TaskStatus,
    pub progress: Option<u32>,
    pub cpu_usage: u32,
    pub memory_usage: u32,
    pub start_time: i64,
    pub end_time: Option<i64>,
    /// Elapsed milliseconds, saturated into the representable range.
    pub elapsed_ms: i64,
}

/// What the task detail screen shows: the designated not-found placeholder
/// when no task has the id, else a summary of the task.
pub enum TaskDetailContent {
    /// The placeholder for a missing task, carrying the id asked for.
    NotFound(u64),
    Found(TaskSummary),
}

/// An integer clipped into the `i64` range.
pub open spec fn sat_i64(x: int) -> int {
    if x > i64::MAX {
        i64::MAX as int
    } else if x < i64::MIN {
        i64::MIN as int
    } else {
        x
    }
}

/// The content of the task detail screen for this id: never a panic — a
/// missing id yields the designated placeholder.
pub fn task_detail_content(state: &AppState, task_id: u64, now_ms: i64) -> (r: TaskDetailContent)
    ensures
        !has_task(state.tasks@, task_id) ==> (r matches TaskDetailContent::NotFound(id) && id
            == task_id),
        has_task(state.tasks@, task_id) ==> exists|i: int|
            0 <= i < state.tasks@.len() && state.tasks@[i].id == task_id && (r
                matches TaskDetailContent::Found(s) && s.id == task_id && s.name == state.tasks@[
                i
            ].name && s.backend == state.tasks@[i].backend && s.status == state.tasks@[i].status
                && s.progress == state.tasks@[i].progress && s.cpu_usage == state.tasks@[
                i
            ].cpu_usage && s.memory_usage == state.tasks@[i].memory_usage && s.start_time
                == state.tasks@[i].start_time && s.end_time == state.tasks@[i].end_time
                && s.elapsed_ms == sat_i64(state.tasks@[i].spec_elapsed(now_ms))),
{
    let n = state.tasks.len();
    let mut i: usize = 0;
    while i < n
        invariant
            0 <= i <= n,
            n == state.tasks@.len(),
            forall|j: int| 0 <= j < i ==> state.tasks@[j].id != task_id,
        decreases n - i,
    {
        if state.tasks[i].id == task_id {
            let t = &state.tasks[i];
            let wide: i128 = match t.end_time {
                Some(end) => end as i128 - t.start_time as i128,
                None => now_ms as i128 - t.start_time as i128,
            };
            let elapsed_ms: i64 = if wide > i64::MAX as i128 {
                i64::MAX
            } else if wide < i64::MIN as i128 {
                i64::MIN
            } else {
                wide as i64
            };
            return TaskDetailContent::Found(
                TaskSummary {
                    id: t.id,
                    name: t.name.clone(),
                    backend: t.backend.clone(),
                    status: t.status,
                    progress: t.progress,
                    cpu_usage: t.cpu_usage,
                    memory_usage: t.memory_usage,
                    start_time: t.start_time,
                    end_time: t.end_time,
                    elapsed_ms,
                },
            );
        }
        i += 1;
    }
    TaskDetailContent::NotFound(task_id)
}

// ------------------------------------------------------------------
// Backend detail (and its missing-backend placeholder)
// ------------------------------------------------------------------

/// Plain values the backend detail info tab shows.
pub struct BackendSummary {
    pub name: String,
    pub kind: BackendKind,
    pub health: HealthStatus,
    pub running_tasks: usize,
    pub total_tasks: usize,
    pub cpu_usage: u32,
    pub memory_usage: u32,
    /// Share of total tasks running, in basis points, saturated.
    pub utilization_bp: u64,
    pub last_update: i64,
}

/// What the backend detail screen shows: a placeholder when no backend has
/// the name, else a summary of the backend.
pub enum BackendDetailContent {
    /// The placeholder for a missing backend, carrying the name asked for.
    NotFound(String),
    Found(BackendSummary),
}

/// The content of the backend detail screen for this name: never a panic — a
/// missing name yields the designated placeholder.
pub fn backend_detail_content(state: &AppState, name: &String) -> (r: BackendDetailContent)
    ensures
        !has_backend(backends_view(state.backends@), name@) ==> (r
            matches BackendDetailContent::NotFound(n) && n@ == name@),
        has_backend(backends_view(state.backends@), name@) ==> exists|i: int|
            0 <= i < state.backends@.len() && state.backends@[i].name@ == name@ && (r
                matches BackendDetailContent::Found(s) && s.name == state.backends@[i].name
                && s.kind == state.backends@[i].kind && s.health == state.backends@[i].health
                && s.running_tasks == state.backends@[i].running_tasks && s.total_tasks
                == state.backends@[i].total_tasks && s.cpu_usage == state.backends@[i].cpu_usage
                && s.memory_usage == state.backends@[i].memory_usage && s.last_update
                == state.backends@[i].last_update && (state.backends@[i].spec_utilization()
                <= u64::MAX ==> s.utilization_bp == state.backends@[i].spec_utilization()) && (
            state.backends@[i].spec_utilization() > u64::MAX ==> s.utilization_bp == u64::MAX)),
{
    let n = state.backends.len();
    let mut i: usize = 0;
    while i < n
        invariant
            0 <= i <= n,
            n == state.backends@.len(),
            forall|j: int| 0 <= j < i ==> backends_view(state.backends@)[j].name != name@,
        decreases n - i,
    {
        assert(backends_view(state.backends@)[i as int].name == state.backends@[i as int].name@);
        if state.backends[i].name == *name {
            let b = &state.backends[i];
            let utilization_bp = b.utilization();
            return BackendDetailContent::Found(
                BackendSummary {
                    name: b.name.clone(),
                    kind: b.kind,
                    health: b.health,
                    running_tasks: b.running_tasks,
                    total_tasks: b.total_tasks,
                    cpu_usage: b.cpu_usage,
                    memory_usage: b.memory_usage,
                    utilization_bp,
                    last_update: b.last_update,
                },
            );
        }
        i += 1;
    }
    BackendDetailContent::NotFound(name.clone())
}

// ------------------------------------------------------------------
// Help overlay
// ------------------------------------------------------------------

/// A rectangle of the terminal, in cells.
#[derive(Debug, Clone, Copy, PartialEq, Eq, Structural)]
pub struct RectModel {
    pub x: u16,
    pub y: u16,
    pub width: u16,
    pub height: u16,
}

/// Help overlay showing the keyboard shortcuts.
pub struct HelpView;

impl HelpView {
    /// The global shortcuts the overlay lists, as key and description pairs.
    pub fn entries() -> (r: Vec<(char, &'static str)>)
        ensures
            r@.len() == 6,
            r@[0].0 == 'q' && r@[0].1@ == "Quit application"@,
            r@[1].0 == '?' && r@[1].1@ == "Toggle this help screen"@,
            r@[2].0 == 'd' && r@[2].1@ == "Dashboard view"@,
            r@[3].0 == 't' && r@[3].1@ == "Tasks list view"@,
            r@[4].0 == 'b' && r@[4].1@ == "Backends list view"@,
            r@[5].0 == 'p' && r@[5].1@ == "Toggle pause"@,
    {
        let mut entries: Vec<(char, &'static str)> = Vec::new();
        entries.push(('q', "Quit application"));
        entries.push(('?', "Toggle this help screen"));
        entries.push(('d', "Dashboard view"));
        entries.push(('t', "Tasks list view"));
        entries.push(('b', "Backends list view"));
        entries.push(('p', "Toggle pause"));
        entries
    }

    /// A popup covering the given percentages of a rectangle, centered in it;
    /// the popup always lies within the rectangle.
    pub fn centered_rect(percent_x: u16, percent_y: u16, r: RectModel) -> (p: RectModel)
        requires
            percent_x <= 100,
            percent_y <= 100,
            r.x + r.width <= u16::MAX,
            r.y + r.height <= u16::MAX,
        ensures
            p.width == r.width * percent_x / 100,
            p.height == r.height * percent_y / 100,
            p.x == r.x + (r.width - p.width) / 2,
            p.y == r.y + (r.height - p.height) / 2,
            p.x + p.width <= r.x + r.width,
            p.y + p.height <= r.y + r.height,
    {
        proof {
            assert(r.width * percent_x <= 65535 * 100 && r.width * percent_x / 100 <= r.width)
                by (nonlinear_arith)
                requires
                    percent_x <= 100,
                    0 <= r.width <= 65535,
            ;
            assert(r.height * percent_y <= 65535 * 100 && r.height * percent_y / 100 <= r.height)
                by (nonlinear_arith)
                requires
                    percent_y <= 100,
                    0 <= r.height <= 65535,
            ;
        }
        let popup_width: u16 = ((r.width as u32 * percent_x as u32) / 100) as u16;
        let popup_height: u16 = ((r.height as u32 * percent_y as u32) / 100) as u16;
        let popup_x: u16 = (r.width - popup_width) / 2;
        let popup_y: u16 = (r.height - popup_height) / 2;
        RectModel {
            x: r.x + popup_x,
            y: r.y + popup_y,
            width: popup_width,
            height: popup_height,
        }
    }
}

// ------------------------------------------------------------------
// Log view
// ------------------------------------------------------------------

/// Placeholder view for application logs.
pub struct LogView;

impl LogView {
    /// The placeholder lines the log view shows.
    pub fn placeholder_lines() -> (r: Vec<&'static str>)
        ensures
            r@.len() == 2,
            r@[0]@ == "Log output will appear here."@,
            r@[1]@ == "Use this view to monitor application events."@,
    {
        let mut lines: Vec<&'static str> = Vec::new();
        lines.push("Log output will appear here.");
        lines.push("Use this view to monitor application events.");
        lines
    }
}

} // verus!
