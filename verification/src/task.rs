//! Task entities: the status lifecycle and the per-task state record.
//!
//! Times are milliseconds since the Unix epoch; CPU usage is hundredths of a
//! percent; memory usage is hundredths of a megabyte; progress is basis
//! points (ten-thousandths), saturating at `PROGRESS_DONE`.

use vstd::prelude::*;

verus! {

/// A completed progress fraction, in basis points.
pub const PROGRESS_DONE: u32 = 10000;

/// Lifecycle status of a task.
#[derive(Debug, Clone, Copy, PartialEq, Eq, Hash, Structural)]
pub enum TaskStatus {
    Created,
    Queued,
    Running,
    Completed,
    Failed,
    Cancelled,
}

impl TaskStatus {
    pub open spec fn spec_is_terminal(&self) -> bool {
        self is Completed || self is Failed || self is Cancelled
    }

    /// Whether this status is terminal: the task will make no further transitions.
    #[verifier::when_used_as_spec(spec_is_terminal)]
    pub fn is_terminal(&self) -> (r: bool)
        ensures
            r == self.spec_is_terminal(),
    {
        matches!(self, TaskStatus::Completed | TaskStatus::Failed | TaskStatus::Cancelled)
    }

    /// A fixed display label for the status.
    pub fn to_string(&self) -> (r: &'static str)
        ensures
            r@ == self.spec_label(),
    {
        match self {
            TaskStatus::Created => "Created",
            TaskStatus::Queued => "Queued",
            TaskStatus::Running => "Running",
            TaskStatus::Completed => "Completed",
            TaskStatus::Failed => "Failed",
            TaskStatus::Cancelled => "Cancelled",
        }
    }

    pub open spec fn spec_label(self) -> Seq<char> {
        match self {
            TaskStatus::Created => "Created"@,
            TaskStatus::Queued => "Queued"@,
            TaskStatus::Running => "Running"@,
            TaskStatus::Completed => "Completed"@,
            TaskStatus::Failed => "Failed"@,
            TaskStatus::Cancelled => "Cancelled"@,
        }
    }
}

/// State of one task, keyed by its monitor-assigned id.
#[derive(Debug, Clone)]
pub struct TaskState {
    pub id: u64,
    pub name: String,
    pub status: TaskStatus,
    /// Progress in basis points; `None` until the task reports progress.
    pub progress: Option<u32>,
    /// Name of the backend the task runs on; dangling names are tolerated.
    pub backend: String,
    pub cpu_usage: u32,
    pub memory_usage: u32,
    pub start_time: i64,
    /// Set exactly when the status is terminal.
    pub end_time: Option<i64>,
    /// Hook for a future cancel request; present only while the task is active.
    pub cancellation_token: Option<tokio_util::sync::CancellationToken>,
}

impl TaskState {
    /// Well-formedness: the end time is present exactly on terminal statuses,
    /// progress never exceeds the saturation point, and the cancellation hook
    /// is dropped once the task is terminal.
    pub open spec fn wf(self) -> bool {
        &&& self.end_time is Some <==> self.status.spec_is_terminal()
        &&& match self.progress {
            Some(p) => p <= PROGRESS_DONE,
            None => true,
        }
        &&& self.status.spec_is_terminal() ==> self.cancellation_token is None
    }

    /// Whether the record satisfies its invariant; the runtime mirror of
    /// `wf`, for callers that receive records from outside.
    pub fn check_wf(&self) -> (r: bool)
        ensures
            r == self.wf(),
    {
        let end_matches = self.end_time.is_some() == self.status.is_terminal();
        let progress_ok = match self.progress {
            Some(p) => p <= PROGRESS_DONE,
            None => true,
        };
        let token_ok = !self.status.is_terminal() || self.cancellation_token.is_none();
        end_matches && progress_ok && token_ok
    }

    /// A fresh record in the `Created` state, started at `now_ms`.
    pub fn new(
        id: u64,
        name: String,
        backend: String,
        cancellation_token: Option<tokio_util::sync::CancellationToken>,
        now_ms: i64,
    ) -> (r: TaskState)
        ensures
            r.wf(),
            r.id == id,
            r.name == name,
            r.status == TaskStatus::Created,
            r.progress is None,
            r.backend == backend,
            r.cpu_usage == 0,
            r.memory_usage == 0,
            r.start_time == now_ms,
            r.end_time is None,
            r.cancellation_token == cancellation_token,
    {
        TaskState {
            id,
            name,
            status: TaskStatus::Created,
            progress: None,
            backend,
            cpu_usage: 0,
            memory_usage: 0,
            start_time: now_ms,
            end_time: None,
            cancellation_token,
        }
    }

    /// Time spent so far, against the end time if the task has one, else
    /// against `now_ms`.
    pub open spec fn spec_elapsed(self, now_ms: i64) -> int {
        match self.end_time {
            Some(end) => end - self.start_time,
            None => now_ms - self.start_time,
        }
    }

    /// Elapsed run time in milliseconds, measured to the end time if set,
    /// else to `now_ms`.
    pub fn elapsed(&self, now_ms: i64) -> (r: i64)
        requires
            i64::MIN <= self.spec_elapsed(now_ms) <= i64::MAX,
        ensures
            r == self.spec_elapsed(now_ms),
    {
        match self.end_time {
            Some(end) => end - self.start_time,
            None => now_ms - self.start_time,
        }
    }

    /// Same measure as `elapsed`.
    pub fn duration(&self, now_ms: i64) -> (r: i64)
        requires
            i64::MIN <= self.spec_elapsed(now_ms) <= i64::MAX,
        ensures
            r == self.spec_elapsed(now_ms),
    {
        self.elapsed(now_ms)
    }

    pub open spec fn spec_is_active(&self) -> bool {
        !self.status.spec_is_terminal()
    }

    /// Whether the task has not yet reached a terminal status.
    #[verifier::when_used_as_spec(spec_is_active)]
    pub fn is_active(&self) -> (r: bool)
        ensures
            r == self.spec_is_active(),
    {
        !self.status.is_terminal()
    }

    /// Whether a cancel request could be routed: the task is active and
    /// carries a cancellation hook.
    pub fn can_cancel(&self) -> (r: bool)
        ensures
            r == (self.spec_is_active() && self.cancellation_token is Some),
    {
        self.is_active() && self.cancellation_token.is_some()
    }
}

} // verus!
