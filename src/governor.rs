use vstd::prelude::*;
use crate::types::{ResourceLimits, ResourceUsage};

verus! {

/// Operation submitted for admission.
#[derive(Clone, Copy, Debug, PartialEq, Eq, Structural)]
pub enum AdmissionKind {
    ApiCall,
    TaskStart,
}

/// Why an operation was refused.
#[derive(Clone, Copy, Debug, PartialEq, Eq, Structural)]
pub enum RejectReason {
    ApiCallLimit,
    TaskLimit,
}

/// Admission decision.
#[derive(Clone, Copy, Debug, PartialEq, Eq, Structural)]
pub enum Decision {
    Allow,
    Reject(RejectReason),
}

/// Per-plugin admission control and accounting against `ResourceLimits`.
#[derive(Clone, Copy, Debug)]
pub struct ResourceGovernor {
    pub limits: ResourceLimits,
    pub usage: ResourceUsage,
    /// Start of the current rate window.
    pub window_start: u64,
    /// Length of a rate window; at least one time unit.
    pub window_len: u64,
}

/// Whether a counter has reached an optional ceiling.
pub open spec fn at_ceiling(count: nat, ceiling: Option<usize>) -> bool {
    match ceiling {
        Some(m) => count >= m,
        None => false,
    }
}

/// Whether a measured value is over an optional ceiling.
pub open spec fn over_ceiling(value: nat, ceiling: Option<u64>) -> bool {
    match ceiling {
        Some(m) => value > m,
        None => false,
    }
}

pub open spec fn sat_inc(n: usize) -> usize {
    if n < usize::MAX { (n + 1) as usize } else { n }
}

impl ResourceGovernor {
    pub open spec fn wf(&self) -> bool {
        self.window_len > 0
    }

    /// Whether time `now` lies past the current rate window.
    pub open spec fn window_expired(&self, now: u64) -> bool {
        now >= self.window_start + self.window_len
    }

    /// The state after moving to the window that holds `now`.
    pub open spec fn rolled(&self, now: u64) -> ResourceGovernor {
        if self.window_expired(now) {
            ResourceGovernor {
                usage: ResourceUsage { api_calls: 0, ..self.usage },
                window_start: now,
                ..*self
            }
        } else {
            *self
        }
    }

    /// Decision on an operation of `kind` in state `g`.
    pub open spec fn decide(g: ResourceGovernor, kind: AdmissionKind) -> Decision {
        match kind {
            AdmissionKind::ApiCall => if at_ceiling(g.usage.api_calls as nat, g.limits.max_api_calls) {
                Decision::Reject(RejectReason::ApiCallLimit)
            } else {
                Decision::Allow
            },
            AdmissionKind::TaskStart => if at_ceiling(g.usage.active_tasks as nat, g.limits.max_tasks)
                || g.usage.active_tasks == usize::MAX {
                Decision::Reject(RejectReason::TaskLimit)
            } else {
                Decision::Allow
            },
        }
    }

    /// A governor with zero usage whose first window starts at `now`.
    pub fn new(limits: ResourceLimits, window_len: u64, now: u64) -> (r: Self)
        requires
            window_len > 0,
        ensures
            r.wf(),
            r.limits == limits,
            r.usage == (ResourceUsage { memory_used: 0, cpu_time: 0, active_tasks: 0, api_calls: 0 }),
            r.window_start == now,
            r.window_len == window_len,
    {
        ResourceGovernor {
            limits,
            usage: ResourceUsage { memory_used: 0, cpu_time: 0, active_tasks: 0, api_calls: 0 },
            window_start: now,
            window_len,
        }
    }

    /// Starts a new rate window if `now` lies past the current one.
    pub fn roll_window(&mut self, now: u64)
        requires
            old(self).wf(),
        ensures
            *final(self) == old(self).rolled(now),
            final(self).wf(),
    {
        if now >= self.window_start && now - self.window_start >= self.window_len {
            self.usage.api_calls = 0;
            self.window_start = now;
        }
    }

    /// Counts one API call in the current window without deciding on it.
    pub fn record_api_call(&mut self, now: u64)
        requires
            old(self).wf(),
        ensures
            final(self).wf(),
            *final(self) == (ResourceGovernor {
                usage: ResourceUsage {
                    api_calls: sat_inc(old(self).rolled(now).usage.api_calls),
                    ..old(self).rolled(now).usage
                },
                ..old(self).rolled(now)
            }),
    {
        self.roll_window(now);
        if self.usage.api_calls < usize::MAX {
            self.usage.api_calls = self.usage.api_calls + 1;
        }
    }

    /// Admission check. An API call is counted whatever the decision; an
    /// admitted task start raises the active task count.
    pub fn request(&mut self, kind: AdmissionKind, now: u64) -> (d: Decision)
        requires
            old(self).wf(),
        ensures
            final(self).wf(),
            d == Self::decide(old(self).rolled(now), kind),
            kind == AdmissionKind::ApiCall ==> *final(self) == (ResourceGovernor {
                usage: ResourceUsage {
                    api_calls: sat_inc(old(self).rolled(now).usage.api_calls),
                    ..old(self).rolled(now).usage
                },
                ..old(self).rolled(now)
            }),
            kind == AdmissionKind::TaskStart ==> *final(self) == (ResourceGovernor {
                usage: ResourceUsage {
                    active_tasks: if d == Decision::Allow {
                        (old(self).rolled(now).usage.active_tasks + 1) as usize
                    } else {
                        old(self).rolled(now).usage.active_tasks
                    },
                    ..old(self).rolled(now).usage
                },
                ..old(self).rolled(now)
            }),
    {
        self.roll_window(now);
        match kind {
            AdmissionKind::ApiCall => {
                let reject = match self.limits.max_api_calls {
                    Some(m) => self.usage.api_calls >= m,
                    None => false,
                };
                if self.usage.api_calls < usize::MAX {
                    self.usage.api_calls = self.usage.api_calls + 1;
                }
                if reject {
                    Decision::Reject(RejectReason::ApiCallLimit)
                } else {
                    Decision::Allow
                }
            },
            AdmissionKind::TaskStart => {
                let reject = match self.limits.max_tasks {
                    Some(m) => self.usage.active_tasks >= m,
                    None => false,
                } || self.usage.active_tasks == usize::MAX;
                if reject {
                    Decision::Reject(RejectReason::TaskLimit)
                } else {
                    self.usage.active_tasks = self.usage.active_tasks + 1;
                    Decision::Allow
                }
            },
        }
    }

    /// Marks one admitted task as finished.
    pub fn finish_task(&mut self)
        requires
            old(self).wf(),
        ensures
            final(self).wf(),
            *final(self) == (ResourceGovernor {
                usage: ResourceUsage {
                    active_tasks: if old(self).usage.active_tasks > 0 {
                        (old(self).usage.active_tasks - 1) as usize
                    } else {
                        0
                    },
                    ..old(self).usage
                },
                ..*old(self)
            }),
    {
        if self.usage.active_tasks > 0 {
            self.usage.active_tasks = self.usage.active_tasks - 1;
        }
    }

    /// Replaces the limits; they apply from the next admission check on.
    pub fn set_limits(&mut self, limits: ResourceLimits)
        requires
            old(self).wf(),
        ensures
            *final(self) == (ResourceGovernor { limits, ..*old(self) }),
            final(self).wf(),
    {
        self.limits = limits;
    }

    /// The current usage snapshot.
    pub fn get_usage(&self) -> (r: ResourceUsage)
        ensures
            r == self.usage,
    {
        self.usage
    }

    /// Records sampled memory use and CPU time spent; answers whether either
    /// is now over its ceiling, in which case the plugin is to be force-stopped.
    pub fn sample(&mut self, memory_used: usize, cpu_spent: u64) -> (over: bool)
        requires
            old(self).wf(),
        ensures
            final(self).wf(),
            final(self).limits == old(self).limits,
            final(self).window_start == old(self).window_start,
            final(self).window_len == old(self).window_len,
            final(self).usage == (ResourceUsage {
                memory_used,
                cpu_time: if old(self).usage.cpu_time + cpu_spent <= u64::MAX {
                    (old(self).usage.cpu_time + cpu_spent) as u64
                } else {
                    u64::MAX
                },
                ..old(self).usage
            }),
            over == (over_ceiling(memory_used as nat, match final(self).limits.max_memory {
                Some(m) => Some(m as u64),
                None => None,
            }) || over_ceiling(final(self).usage.cpu_time as nat, final(self).limits.max_cpu_time)),
    {
        self.usage.memory_used = memory_used;
        self.usage.cpu_time = self.usage.cpu_time.saturating_add(cpu_spent);
        let mem_over = match self.limits.max_memory {
            Some(m) => memory_used > m,
            None => false,
        };
        let cpu_over = match self.limits.max_cpu_time {
            Some(m) => self.usage.cpu_time > m,
            None => false,
        };
        mem_over || cpu_over
    }
}

} // verus!
