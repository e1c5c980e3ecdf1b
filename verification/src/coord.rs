//! The coordinator's builder, its hook list with the budgeted hook
//! run, and the [`Statistics`] snapshot type.

use std::time::{Duration, Instant};

use vstd::prelude::*;

use crate::clock;
use crate::hook::ShutdownHook;
use crate::order::{arranged, is_run_order, sort_by_priority};
use crate::reason::ShutdownReason;
use crate::signal::SignalSet;

verus! {

/// Default graceful timeout: 5 seconds.
pub const DEFAULT_GRACEFUL_MS: u64 = 5_000;

/// Default force timeout: 10 seconds.
pub const DEFAULT_FORCE_MS: u64 = 10_000;

/// `count` runs added to a wrapping counter that stood at `start`.
pub open spec fn counter_after(start: usize, count: usize) -> usize {
    vstd::wrapping::usize_specs::wrapping_add(start, count)
}

/// Runs counted in two batches add up: the completed-runs counter after
/// `a` and then `b` runs is the counter after `a + b` runs.
pub proof fn law_completed_runs_accumulate(start: usize, a: usize, b: usize)
    requires
        a + b <= usize::MAX,
    ensures
        counter_after(counter_after(start, a), b) == counter_after(start, (a + b) as usize),
{
}

/// The priorities the hooks of `entries` report, in order.
pub open spec fn reported_priorities(entries: Seq<HookEntry>) -> Seq<i32> {
    entries.map_values(|e: HookEntry| e.reported_priority())
}

/// Snapshot of coordinator state.
#[derive(Debug, Clone)]
pub struct Statistics {
    /// `true` if shutdown has been initiated.
    pub initiated: bool,
    /// Reason carried with the trigger that initiated shutdown.
    pub reason: Option<ShutdownReason>,
    /// Number of hooks registered on the coordinator.
    pub hooks_registered: usize,
    /// Number of hook runs completed across all `run_hooks` calls.
    pub hooks_completed: usize,
    /// Wall-clock time since shutdown was initiated.
    pub elapsed: Option<Duration>,
}

/// A registered hook.
pub struct HookEntry {
    hook: Box<dyn ShutdownHook>,
}

impl HookEntry {
    /// Whether the registered hook obeys the hook spec.
    pub closed spec fn obeys(&self) -> bool {
        self.hook.obeys_hook_spec()
    }

    /// The priority the registered hook reports, where it obeys.
    pub closed spec fn reported_priority(&self) -> i32 {
        self.hook.reported_priority()
    }

    /// What holds once the registered hook has run for `reason`, where
    /// it obeys.
    pub closed spec fn ran_for(&self, reason: ShutdownReason) -> bool {
        self.hook.ran_for(reason)
    }

    /// The entry stands for `hook`: it obeys the hook spec exactly when
    /// `hook` does, reports its priority, and runs its body.
    pub open spec fn holds<H: ShutdownHook>(&self, hook: H) -> bool {
        &&& self.obeys() == hook.obeys_hook_spec()
        &&& self.reported_priority() == hook.reported_priority()
        &&& forall|reason: ShutdownReason| #[trigger] self.ran_for(reason) == hook.ran_for(reason)
    }
}

/// Calls `Box::new` on `hook` and coerces the box into a
/// `Box<dyn ShutdownHook>`, the entry's field. Calls through a trait
/// object dispatch to `H`'s own methods, so the entry stands for
/// `hook`.
#[verifier::external_body]
fn boxed_entry<H: ShutdownHook>(hook: H) -> (r: HookEntry)
    ensures
        r.holds(hook),
{
    HookEntry { hook: Box::new(hook) }
}

fn entry_of<H: ShutdownHook>(hook: H) -> (r: HookEntry)
    ensures
        r.holds(hook),
{
    boxed_entry(hook)
}

/// The budget checks of a run of `total` hooks that started at
/// `start`, with the clock read at `reads[i]` before hook `i`: each
/// check before hooks `1 .. ran` found the time since the start within
/// the budget, and, when fewer than `total` hooks ran, the check before
/// hook `ran` found it over the budget.
pub open spec fn budget_trace(
    start: Instant,
    reads: Seq<Instant>,
    budget: Duration,
    ran: int,
    total: int,
) -> bool {
    &&& 0 <= ran <= reads.len()
    &&& forall|i: int|
        1 <= i < ran ==> !clock::duration_longer(
            clock::duration_between(#[trigger] reads[i], start),
            budget,
        )
    &&& ran < total ==> ran < reads.len() && clock::duration_longer(
        clock::duration_between(reads[ran], start),
        budget,
    )
}

/// The hooks of a coordinator, in their current order, and the number
/// of hook runs completed so far.
pub struct HookList {
    entries: Vec<HookEntry>,
    completed: usize,
}

impl HookList {
    /// The registered hooks, in their current order.
    pub closed spec fn entries(&self) -> Seq<HookEntry> {
        self.entries@
    }

    /// Hook runs completed across all runs (a wrapping counter).
    pub closed spec fn completed_runs(&self) -> usize {
        self.completed
    }

    /// No hooks, no runs.
    pub fn new() -> (r: Self)
        ensures
            r.entries().len() == 0,
            r.completed_runs() == 0,
    {
        HookList { entries: Vec::new(), completed: 0 }
    }

    /// Register a hook after the ones already registered.
    pub fn push<H: ShutdownHook>(&mut self, hook: H)
        ensures
            final(self).entries().len() == old(self).entries().len() + 1,
            final(self).entries().subrange(0, old(self).entries().len() as int) == old(
                self,
            ).entries(),
            final(self).entries()[old(self).entries().len() as int].holds(hook),
            final(self).completed_runs() == old(self).completed_runs(),
    {
        let entry = entry_of(hook);
        self.entries.push(entry);
        proof {
            assert(self.entries@.subrange(0, old(self).entries@.len() as int) =~= old(
                self,
            ).entries@);
        }
    }

    /// Number of registered hooks.
    pub fn len(&self) -> (r: usize)
        ensures
            r == self.entries().len(),
    {
        self.entries.len()
    }

    /// Hook runs completed across all runs.
    pub fn completed(&self) -> (r: usize)
        ensures
            r == self.completed_runs(),
    {
        self.completed
    }

    /// The priority each hook reports, in the current order; for a hook
    /// that obeys the hook spec, its reported priority.
    pub fn priorities(&self) -> (r: Vec<i32>)
        ensures
            r.len() == self.entries().len(),
            forall|i: int|
                0 <= i < r.len() && (#[trigger] self.entries()[i]).obeys() ==> r@[i]
                    == self.entries()[i].reported_priority(),
    {
        let mut r: Vec<i32> = Vec::new();
        let mut i: usize = 0;
        while i < self.entries.len()
            invariant
                i <= self.entries.len(),
                r.len() == i,
                forall|k: int|
                    0 <= k < i && (#[trigger] self.entries@[k]).obeys() ==> r@[k]
                        == self.entries@[k].reported_priority(),
            decreases self.entries.len() - i,
        {
            r.push(self.entries[i].hook.priority());
            i = i + 1;
        }
        r
    }

    /// Rearrange the hooks, stably, by descending `priorities` (one per
    /// hook, in the current order).
    pub fn arrange(&mut self, priorities: &Vec<i32>)
        requires
            priorities.len() == old(self).entries().len(),
        ensures
            exists|order: Seq<int>|
                #![trigger is_run_order(priorities@, order)]
                is_run_order(priorities@, order) && final(self).entries() == arranged(
                    old(self).entries(),
                    order,
                ),
            final(self).completed_runs() == old(self).completed_runs(),
    {
        let mut taken: Vec<HookEntry> = Vec::new();
        std::mem::swap(&mut taken, &mut self.entries);
        let (sorted, Ghost(order)) = sort_by_priority(taken, priorities);
        self.entries = sorted;
    }

    /// One step of a hook run: the hook at `index` runs with `reason`
    /// unless the budget check before it found the budget spent. The
    /// first hook runs whatever the check says. Returns whether the
    /// hook ran; a hook that runs counts as a completed run.
    pub fn run_step(&mut self, index: usize, reason: ShutdownReason, over_budget: bool) -> (ran: bool)
        requires
            index < old(self).entries().len(),
        ensures
            ran == (index == 0 || !over_budget),
            final(self).entries() == old(self).entries(),
            ran ==> final(self).completed_runs() == counter_after(old(self).completed_runs(), 1),
            !ran ==> final(self).completed_runs() == old(self).completed_runs(),
            ran && old(self).entries()[index as int].obeys()
                ==> old(self).entries()[index as int].ran_for(reason),
    {
        if index > 0 && over_budget {
            return false;
        }
        self.entries[index].hook.run(reason);
        self.completed = self.completed.wrapping_add(1);
        true
    }

    /// Run the hooks in descending priority order under the `budget`.
    /// Returns the number of hooks that ran.
    ///
    /// The hooks are first rearranged, stably, by the priorities they
    /// report, and stay in that order. The run starts by reading the
    /// clock; the first hook always runs, and before each later one the
    /// clock is read again and the time since the start compared with
    /// the budget: once it exceeds the budget the remaining hooks are
    /// skipped. The hooks that run are the first `n` of the new order,
    /// each run once with `reason`; every one counts as a completed
    /// run.
    pub fn run_hooks(&mut self, reason: ShutdownReason, budget: &Duration) -> (n: usize)
        ensures
            n <= old(self).entries().len(),
            old(self).entries().len() > 0 ==> n >= 1,
            exists|priorities: Seq<i32>, order: Seq<int>|
                #![trigger is_run_order(priorities, order)]
                {
                    &&& priorities.len() == old(self).entries().len()
                    &&& forall|i: int|
                        0 <= i < priorities.len() && (#[trigger] old(self).entries()[i]).obeys()
                            ==> priorities[i] == old(self).entries()[i].reported_priority()
                    &&& is_run_order(priorities, order)
                    &&& final(self).entries() == arranged(old(self).entries(), order)
                },
            forall|i: int|
                0 <= i < n && (#[trigger] final(self).entries()[i]).obeys()
                    ==> final(self).entries()[i].ran_for(reason),
            exists|start: Instant, reads: Seq<Instant>|
                #[trigger] budget_trace(start, reads, *budget, n as int, old(self).entries().len() as int),
            final(self).completed_runs() == counter_after(old(self).completed_runs(), n),
    {
        let keys = self.priorities();
        self.arrange(&keys);
        let ghost total = self.entries@.len() as int;
        let start = clock::now();
        let n = self.run_in_order(reason, budget, &start);
        proof {
            let reads = choose|reads: Seq<Instant>| budget_trace(start, reads, *budget, n as int, total);
            assert(budget_trace(start, reads, *budget, n as int, total));
        }
        n
    }

    /// Run the hooks in their current order under `budget`, measured
    /// from the instant `start`. Returns the number of hooks that ran.
    ///
    /// The first hook always runs. Before each later one the clock is
    /// read and the time from `start` to that read compared with the
    /// budget; once it exceeds the budget the remaining hooks are
    /// skipped. The hooks that run are the first `n`, each run once
    /// with `reason`; every one counts as a completed run.
    pub fn run_in_order(&mut self, reason: ShutdownReason, budget: &Duration, start: &Instant) -> (n: usize)
        ensures
            n <= old(self).entries().len(),
            old(self).entries().len() > 0 ==> n >= 1,
            final(self).entries() == old(self).entries(),
            forall|i: int|
                0 <= i < n && (#[trigger] final(self).entries()[i]).obeys()
                    ==> final(self).entries()[i].ran_for(reason),
            exists|reads: Seq<Instant>|
                #[trigger] budget_trace(*start, reads, *budget, n as int, old(self).entries().len() as int),
            final(self).completed_runs() == counter_after(old(self).completed_runs(), n),
    {
        let ghost start_count = self.completed;
        let ghost mut reads: Seq<Instant> = Seq::empty();
        let len = self.entries.len();
        let mut count: usize = 0;
        while count < len
            invariant_except_break
                reads.len() == count,
            invariant
                len == self.entries.len(),
                count <= len,
                self.entries@ == old(self).entries@,
                self.completed == counter_after(start_count, count),
                forall|i: int|
                    0 <= i < count && (#[trigger] self.entries@[i]).obeys() ==> self.entries@[i].ran_for(
                        reason,
                    ),
                count <= reads.len(),
                forall|i: int|
                    1 <= i < count ==> !clock::duration_longer(
                        clock::duration_between(#[trigger] reads[i], *start),
                        *budget,
                    ),
            ensures
                len > 0 ==> count >= 1,
                count < len ==> count < reads.len() && clock::duration_longer(
                    clock::duration_between(reads[count as int], *start),
                    *budget,
                ),
            decreases len - count,
        {
            let now = clock::now();
            let spent = clock::since(&now, start);
            let over = clock::longer(&spent, budget);
            proof {
                reads = reads.push(now);
            }
            if !self.run_step(count, reason, over) {
                break;
            }
            count = count + 1;
        }
        proof {
            assert(budget_trace(*start, reads, *budget, count as int, len as int));
        }
        count
    }
}

/// Builder for the coordinator.
pub struct CoordinatorBuilder {
    signals: SignalSet,
    graceful_timeout: Duration,
    force_timeout: Duration,
    hooks: HookList,
}

impl CoordinatorBuilder {
    /// The signal set the coordinator will install handlers for.
    pub closed spec fn signal_set(&self) -> SignalSet {
        self.signals
    }

    /// The graceful timeout.
    pub closed spec fn graceful(&self) -> Duration {
        self.graceful_timeout
    }

    /// The force timeout.
    pub closed spec fn force(&self) -> Duration {
        self.force_timeout
    }

    /// The registered hooks.
    pub closed spec fn hook_list(&self) -> HookList {
        self.hooks
    }

    /// Start a new builder with the default configuration:
    /// [`SignalSet::graceful`], 5s graceful, 10s force, no hooks.
    pub fn new() -> (r: Self)
        ensures
            r.signal_set() == SignalSet::graceful_set(),
            r.graceful() == clock::duration_from_millis(DEFAULT_GRACEFUL_MS),
            r.force() == clock::duration_from_millis(DEFAULT_FORCE_MS),
            r.hook_list().entries().len() == 0,
            r.hook_list().completed_runs() == 0,
    {
        CoordinatorBuilder {
            signals: SignalSet::graceful(),
            graceful_timeout: clock::millis(DEFAULT_GRACEFUL_MS),
            force_timeout: clock::millis(DEFAULT_FORCE_MS),
            hooks: HookList::new(),
        }
    }

    /// Set the signal set the coordinator will install handlers for.
    pub fn signals(self, set: SignalSet) -> (r: Self)
        ensures
            r.signal_set() == set,
            r.graceful() == self.graceful(),
            r.force() == self.force(),
            r.hook_list() == self.hook_list(),
    {
        CoordinatorBuilder { signals: set, ..self }
    }

    /// Set the graceful-shutdown timeout. Hooks have at most this
    /// long, in aggregate, before remaining hooks are skipped.
    pub fn graceful_timeout(self, d: Duration) -> (r: Self)
        ensures
            r.signal_set() == self.signal_set(),
            r.graceful() == d,
            r.force() == self.force(),
            r.hook_list() == self.hook_list(),
    {
        CoordinatorBuilder { graceful_timeout: d, ..self }
    }

    /// Set the force-shutdown timeout. Exposed for downstream
    /// consumers that implement their own forced ladder; the
    /// coordinator itself does not enforce it.
    pub fn force_timeout(self, d: Duration) -> (r: Self)
        ensures
            r.signal_set() == self.signal_set(),
            r.graceful() == self.graceful(),
            r.force() == d,
            r.hook_list() == self.hook_list(),
    {
        CoordinatorBuilder { force_timeout: d, ..self }
    }

    /// Register a [`ShutdownHook`] after the ones registered so far.
    pub fn hook<H: ShutdownHook>(self, h: H) -> (r: Self)
        ensures
            r.signal_set() == self.signal_set(),
            r.graceful() == self.graceful(),
            r.force() == self.force(),
            r.hook_list().entries().len() == self.hook_list().entries().len() + 1,
            r.hook_list().entries().subrange(0, self.hook_list().entries().len() as int)
                == self.hook_list().entries(),
            r.hook_list().entries()[self.hook_list().entries().len() as int].reported_priority()
                == h.reported_priority(),
            forall|reason: ShutdownReason|
                #[trigger] r.hook_list().entries()[self.hook_list().entries().len() as int].ran_for(
                    reason,
                ) == h.ran_for(reason),
            r.hook_list().completed_runs() == self.hook_list().completed_runs(),
    {
        let CoordinatorBuilder { signals, graceful_timeout, force_timeout, hooks } = self;
        let mut hooks = hooks;
        hooks.push(h);
        CoordinatorBuilder { signals, graceful_timeout, force_timeout, hooks }
    }

    /// Hand over the configuration: signal set, graceful timeout,
    /// force timeout and hooks.
    pub fn into_parts(self) -> (r: (SignalSet, Duration, Duration, HookList))
        ensures
            r.0 == self.signal_set(),
            r.1 == self.graceful(),
            r.2 == self.force(),
            r.3 == self.hook_list(),
    {
        (self.signals, self.graceful_timeout, self.force_timeout, self.hooks)
    }
}

impl Default for CoordinatorBuilder {
    /// The default builder is [`CoordinatorBuilder::new`].
    fn default() -> (r: Self)
        ensures
            r.signal_set() == SignalSet::graceful_set(),
            r.graceful() == clock::duration_from_millis(DEFAULT_GRACEFUL_MS),
            r.force() == clock::duration_from_millis(DEFAULT_FORCE_MS),
            r.hook_list().entries().len() == 0,
            r.hook_list().completed_runs() == 0,
    {
        Self::new()
    }
}

} // verus!
