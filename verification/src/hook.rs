//! Shutdown hook trait and closure adapter.

use vstd::prelude::*;

use crate::reason::ShutdownReason;

verus! {

/// A unit of cleanup work to run during shutdown.
///
/// Hooks are registered on the coordinator builder and executed by
/// `run_hooks` in descending priority order. Within a priority,
/// insertion order is preserved.
///
/// The `run` method is synchronous. Hooks that need to do async work
/// should hold a runtime handle and bridge with the runtime's
/// `block_on`.
///
/// An implementation may declare, through `obeys_hook_spec`, that its
/// `priority` returns `reported_priority` and that after its `run` the
/// hook's `ran_for` holds. Only implementations in verified code can
/// make that declaration; for every other implementation it is `false`
/// and the contracts below state nothing.
pub trait ShutdownHook: Send + Sync + 'static {
    /// Whether the hook's methods follow `reported_priority` and
    /// `ran_for`.
    open spec fn obeys_hook_spec(&self) -> bool {
        false
    }

    /// The priority the hook reports, where it obeys the hook spec.
    open spec fn reported_priority(&self) -> i32 {
        0
    }

    /// What holds once the hook's cleanup body has run for `reason`,
    /// where it obeys the hook spec.
    open spec fn ran_for(&self, reason: ShutdownReason) -> bool {
        true
    }

    /// Name of the hook for diagnostics.
    fn name(&self) -> &str;

    /// Higher priority hooks run first.
    fn priority(&self) -> (r: i32)
        ensures
            self.obeys_hook_spec() ==> r == self.reported_priority(),
    ;

    /// Cleanup body. Called at most once per `run_hooks` call.
    fn run(&self, reason: ShutdownReason)
        ensures
            self.obeys_hook_spec() ==> self.ran_for(reason),
    ;
}

/// Closure-backed [`ShutdownHook`].
///
/// Construct with [`hook_from_fn`].
pub struct FnHook<F> where F: Fn(ShutdownReason) + Send + Sync + 'static {
    name: String,
    priority: i32,
    f: F,
}

impl<F> FnHook<F> where F: Fn(ShutdownReason) + Send + Sync + 'static {
    /// The closure accepts every reason.
    #[verifier::type_invariant]
    spec fn callable(self) -> bool {
        forall|r: ShutdownReason| #[trigger] call_requires(self.f, (r,))
    }

    /// The name the hook was built with.
    pub closed spec fn name_text(&self) -> Seq<char> {
        self.name@
    }

    /// The name the hook was built with, as the `String` it holds.
    pub closed spec fn name_string(&self) -> String {
        self.name
    }

    /// The priority the hook was built with.
    pub closed spec fn priority_value(&self) -> i32 {
        self.priority
    }

    /// The closure the hook runs.
    pub closed spec fn body(&self) -> F {
        self.f
    }

    /// Construct directly. Most callers should use [`hook_from_fn`].
    pub fn new<N: Into<String>>(name: N, priority: i32, f: F) -> (r: Self)
        requires
            forall|reason: ShutdownReason| #[trigger] call_requires(f, (reason,)),
        ensures
            call_ensures(N::into, (name,), r.name_string()),
            r.name_text() == r.name_string()@,
            r.priority_value() == priority,
            r.body() == f,
    {
        FnHook { name: name.into(), priority, f }
    }
}

impl<F> ShutdownHook for FnHook<F> where F: Fn(ShutdownReason) + Send + Sync + 'static {
    open spec fn obeys_hook_spec(&self) -> bool {
        true
    }

    open spec fn reported_priority(&self) -> i32 {
        self.priority_value()
    }

    open spec fn ran_for(&self, reason: ShutdownReason) -> bool {
        call_ensures(self.body(), (reason,), ())
    }

    fn name(&self) -> (r: &str)
        ensures
            r@ == self.name_text(),
    {
        self.name.as_str()
    }

    fn priority(&self) -> (r: i32)
        ensures
            r == self.priority_value(),
    {
        self.priority
    }

    fn run(&self, reason: ShutdownReason)
        ensures
            call_ensures(self.body(), (reason,), ()),
    {
        proof {
            use_type_invariant(self);
        }
        (self.f)(reason)
    }
}

/// Convenience: wrap a closure as a [`ShutdownHook`].
pub fn hook_from_fn<N, F>(name: N, priority: i32, f: F) -> (r: FnHook<F>) where
    N: Into<String>,
    F: Fn(ShutdownReason) + Send + Sync + 'static,

    requires
        forall|reason: ShutdownReason| #[trigger] call_requires(f, (reason,)),
    ensures
        call_ensures(N::into, (name,), r.name_string()),
        r.name_text() == r.name_string()@,
        r.priority_value() == priority,
        r.body() == f,
{
    FnHook::new(name, priority, f)
}

} // verus!
