use vstd::prelude::*;

use crate::error::ServiceError;

verus! {

/// Abstract state of the concurrency guard: how many tasks are currently
/// admitted, and the bound admissions may never exceed.
#[verifier::ext_equal]
pub ghost struct GuardV {
    pub current: int,
    pub limit: int,
}

/// An admission is allowed exactly while the counter is strictly under the
/// bound.
pub open spec fn acquire_allowed(g: GuardV) -> bool {
    g.current < g.limit
}

/// The guard's state after a successful admission.
pub open spec fn acquired(g: GuardV) -> GuardV {
    GuardV { current: g.current + 1, ..g }
}

/// The guard's state after a release.
pub open spec fn released(g: GuardV) -> GuardV {
    GuardV { current: g.current - 1, ..g }
}

/// `n` admissions in a row, with no release in between, all succeed.
pub open spec fn acquires_n(g: GuardV, n: nat) -> bool
    decreases n,
{
    n == 0 || (acquire_allowed(g) && acquires_n(acquired(g), (n - 1) as nat))
}

/// Bounded admission counter protecting the executor from being
/// overwhelmed: `acquire` performs the check-and-increment as one step, and
/// `release` gives the slot back on a task's terminal outcome. There is no
/// queue: a caller rejected at the bound simply retries later.
pub struct ConcurrencyGuard {
    concurrency_level: usize,
    max_concurrency: usize,
}

impl View for ConcurrencyGuard {
    type V = GuardV;

    closed spec fn view(&self) -> GuardV {
        GuardV {
            current: self.concurrency_level as int,
            limit: self.max_concurrency as int,
        }
    }
}

impl ConcurrencyGuard {
    /// The counter stays within its bound.
    pub open spec fn wf(&self) -> bool {
        0 <= self@.current <= self@.limit
    }

    /// A fresh guard: nothing admitted, bound fixed for its lifetime.
    pub fn new(max_concurrency: usize) -> (r: Self)
        ensures
            r.wf(),
            r@.current == 0,
            r@.limit == max_concurrency,
    {
        ConcurrencyGuard { concurrency_level: 0, max_concurrency }
    }

    /// The check-and-increment, as one step: succeeds with the new count
    /// while the bound is not reached, and rejects without mutating
    /// anything once it is.
    pub fn acquire(&mut self) -> (r: Result<usize, ServiceError>)
        requires
            old(self).wf(),
        ensures
            final(self).wf(),
            acquire_allowed(old(self)@) ==> {
                &&& final(self)@ == acquired(old(self)@)
                &&& r matches Ok(n) && n as int == old(self)@.current + 1
            },
            !acquire_allowed(old(self)@) ==> {
                &&& final(self)@ == old(self)@
                &&& r == Err::<usize, ServiceError>(ServiceError::ResourceExhausted)
            },
    {
        if self.concurrency_level < self.max_concurrency {
            self.concurrency_level = self.concurrency_level + 1;
            Ok(self.concurrency_level)
        } else {
            Err(ServiceError::ResourceExhausted)
        }
    }

    /// Gives one admitted slot back. Callers release exactly once per
    /// successful admission, on the task's terminal outcome, so the counter
    /// is positive here.
    pub fn release(&mut self)
        requires
            old(self).wf(),
            old(self)@.current >= 1,
        ensures
            final(self).wf(),
            final(self)@ == released(old(self)@),
    {
        self.concurrency_level = self.concurrency_level - 1;
    }

    /// How many tasks are admitted right now.
    pub fn current_level(&self) -> (r: usize)
        ensures
            r as int == self@.current,
    {
        self.concurrency_level
    }
}

/// A run of `n` further admissions from state `g` succeeds exactly when it
/// stays within the bound.
pub proof fn lemma_admissions_fill(g: GuardV, n: nat)
    requires
        0 <= g.current <= g.limit,
    ensures
        acquires_n(g, n) <==> g.current + n <= g.limit,
    decreases n,
{
    if n > 0 && acquire_allowed(g) {
        lemma_admissions_fill(acquired(g), (n - 1) as nat);
    }
}

/// A guard starting idle accepts exactly `limit` admissions before any
/// release: the run of `limit` admissions succeeds, and the run that asks
/// for one more does not.
pub proof fn lemma_guard_saturation(g: GuardV)
    requires
        g.current == 0,
        0 <= g.limit,
    ensures
        acquires_n(g, g.limit as nat),
        !acquires_n(g, (g.limit + 1) as nat),
{
    lemma_admissions_fill(g, g.limit as nat);
    lemma_admissions_fill(g, (g.limit + 1) as nat);
}

/// After one release from any guard with at least one admitted task — a
/// saturated one included — one more admission is allowed again.
pub proof fn lemma_release_reopens(g: GuardV)
    requires
        1 <= g.current <= g.limit,
    ensures
        acquire_allowed(released(g)),
{
}

} // verus!
