//! Backend entities: one record per execution backend, keyed by name.

use vstd::prelude::*;
use crate::resource::{ResourceSample, spec_push_bounded};

verus! {

/// Capacity of a backend's resource history ring.
pub const BACKEND_HISTORY_SIZE: usize = 60;

/// Utilization values (hundredths of a percent) are clamped to this bound.
pub const USAGE_MAX: u32 = 10000;

/// What kind of execution backend a record describes.
#[derive(Debug, Clone, Copy, PartialEq, Eq, Structural)]
pub enum BackendKind {
    Docker,
    TES,
    Generic,
    Local,
    Unknown,
}

impl BackendKind {
    /// A fixed display label for the kind.
    pub fn label(&self) -> (r: &'static str)
        ensures
            r@ == self.spec_label(),
    {
        match self {
            BackendKind::Docker => "Docker",
            BackendKind::TES => "TES",
            BackendKind::Generic => "Generic",
            BackendKind::Local => "Local",
            BackendKind::Unknown => "Unknown",
        }
    }

    pub open spec fn spec_label(self) -> Seq<char> {
        match self {
            BackendKind::Docker => "Docker"@,
            BackendKind::TES => "TES"@,
            BackendKind::Generic => "Generic"@,
            BackendKind::Local => "Local"@,
            BackendKind::Unknown => "Unknown"@,
        }
    }
}

/// Last-reported health of a backend.
#[derive(Debug, Clone, Copy, PartialEq, Eq, Structural)]
pub enum HealthStatus {
    Healthy,
    Degraded,
    Unhealthy,
    Unknown,
}

impl HealthStatus {
    /// A fixed display label for the health status.
    pub fn label(&self) -> (r: &'static str)
        ensures
            r@ == self.spec_label(),
    {
        match self {
            HealthStatus::Healthy => "Healthy",
            HealthStatus::Degraded => "Degraded",
            HealthStatus::Unhealthy => "Unhealthy",
            HealthStatus::Unknown => "Unknown",
        }
    }

    pub open spec fn spec_label(self) -> Seq<char> {
        match self {
            HealthStatus::Healthy => "Healthy"@,
            HealthStatus::Degraded => "Degraded"@,
            HealthStatus::Unhealthy => "Unhealthy"@,
            HealthStatus::Unknown => "Unknown"@,
        }
    }
}

/// Health and task counts carried by one backend status update.
#[derive(Debug, Clone, Copy, PartialEq, Eq, Structural)]
pub struct BackendStatus {
    pub running_tasks: usize,
    pub total_tasks: usize,
    pub health: HealthStatus,
}

/// Mathematical model of one backend record.
pub ghost struct BackendStateView {
    pub name: Seq<char>,
    pub kind: BackendKind,
    pub running_tasks: usize,
    pub total_tasks: usize,
    pub cpu_usage: u32,
    pub memory_usage: u32,
    pub health: HealthStatus,
    pub resource_history: Seq<ResourceSample>,
    pub last_update: i64,
}

impl BackendStateView {
    /// Well-formedness: the history stays within its capacity and usage
    /// values within their clamp.
    pub open spec fn wf(self) -> bool {
        &&& self.resource_history.len() <= BACKEND_HISTORY_SIZE
        &&& self.cpu_usage <= USAGE_MAX
        &&& self.memory_usage <= USAGE_MAX
    }
}

/// Last-known snapshot of one execution backend.
#[derive(Debug, Clone, PartialEq)]
pub struct BackendState {
    pub name: String,
    pub kind: BackendKind,
    pub running_tasks: usize,
    pub total_tasks: usize,
    /// Hundredths of a percent, clamped to `USAGE_MAX`.
    pub cpu_usage: u32,
    /// Hundredths of a percent, clamped to `USAGE_MAX`.
    pub memory_usage: u32,
    pub health: HealthStatus,
    /// Bounded ring of the most recent samples, capacity `BACKEND_HISTORY_SIZE`.
    pub resource_history: Vec<ResourceSample>,
    pub last_update: i64,
}

impl View for BackendState {
    type V = BackendStateView;

    open spec fn view(&self) -> BackendStateView {
        BackendStateView {
            name: self.name@,
            kind: self.kind,
            running_tasks: self.running_tasks,
            total_tasks: self.total_tasks,
            cpu_usage: self.cpu_usage,
            memory_usage: self.memory_usage,
            health: self.health,
            resource_history: self.resource_history@,
            last_update: self.last_update,
        }
    }
}

impl BackendState {
    /// Well-formedness: the history stays within its capacity and usage
    /// values within their clamp.
    pub open spec fn wf(self) -> bool {
        self@.wf()
    }

    /// A fresh record with unknown health, no tasks and an empty history,
    /// first seen at `now_ms`.
    pub fn new(name: String, kind: BackendKind, now_ms: i64) -> (r: BackendState)
        ensures
            r.wf(),
            r.name == name,
            r.kind == kind,
            r.running_tasks == 0,
            r.total_tasks == 0,
            r.cpu_usage == 0,
            r.memory_usage == 0,
            r.health == HealthStatus::Unknown,
            r.resource_history@ == Seq::<ResourceSample>::empty(),
            r.last_update == now_ms,
    {
        BackendState {
            name,
            kind,
            running_tasks: 0,
            total_tasks: 0,
            cpu_usage: 0,
            memory_usage: 0,
            health: HealthStatus::Unknown,
            resource_history: Vec::new(),
            last_update: now_ms,
        }
    }

    /// Fraction of total tasks currently running, in basis points.
    pub open spec fn spec_utilization(self) -> int {
        if self.total_tasks == 0 {
            0
        } else {
            self.running_tasks * 10000 / (self.total_tasks as int)
        }
    }

    /// Fraction of total tasks currently running, in basis points; zero when
    /// no tasks are known, saturating at `u64::MAX`.
    pub fn utilization(&self) -> (r: u64)
        ensures
            self.spec_utilization() <= u64::MAX ==> r == self.spec_utilization(),
            self.spec_utilization() > u64::MAX ==> r == u64::MAX,
    {
        if self.total_tasks == 0 {
            0
        } else {
            let wide: u128 = self.running_tasks as u128 * 10000 / self.total_tasks as u128;
            if wide > u64::MAX as u128 {
                u64::MAX
            } else {
                wide as u64
            }
        }
    }

    /// Pushes one sample into the history ring, evicting the oldest at
    /// capacity; nothing else changes.
    pub fn push_sample(&mut self, sample: ResourceSample)
        requires
            old(self).resource_history@.len() <= BACKEND_HISTORY_SIZE,
        ensures
            final(self).resource_history@ == spec_push_bounded(
                old(self).resource_history@,
                sample,
                BACKEND_HISTORY_SIZE as nat,
            ),
            final(self).resource_history@.len() <= BACKEND_HISTORY_SIZE,
            *final(self) == (BackendState {
                resource_history: final(self).resource_history,
                ..*old(self)
            }),
    {
        self.resource_history.push(sample);
        if self.resource_history.len() > BACKEND_HISTORY_SIZE {
            self.resource_history.remove(0);
        }
    }
}

} // verus!
