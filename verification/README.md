# signal-mod

Unified OS signal handling with priority-ordered graceful-shutdown
hooks, written in Verus.

`src/` is the verified library:

- `signal.rs`: the `Signal` taxonomy and the bit-packed `SignalSet`,
  modelled as a `Set<Signal>`, with its iterator and the laws of
  `with` / `without` / `len` / iteration order.
- `reason.rs`: `ShutdownReason`.
- `error.rs`: `Error` and its rendering.
- `hook.rs`: the `ShutdownHook` trait, whose `priority` and `run` are
  tied to the spec functions `reported_priority` and `ran_for` for
  hooks that declare `obeys_hook_spec` (as `FnHook` does), `FnHook`
  and `hook_from_fn`.
- `order.rs`: the hook run order (descending priority, stable among
  equal priorities) and its uniqueness. `HookList::arrange` puts hooks
  in that order for given priorities, `HookList::run_step` decides one
  step of a run from the budget check, and `HookList::run_hooks`
  states the order, the prefix of hooks run with the caller's reason,
  and the budget check made against the clock before each later hook.
- `state.rs`: the shutdown state machine (the first trigger wins), the
  waiter's decision step, and the install state machine.
- `coord.rs`: the hook list with the budgeted `run_hooks`, the
  coordinator builder and `Statistics`.
- `clock.rs`, `platform.rs`: the calls into `std::time` and
  `std::path` that the logic makes.

`app/` holds the runtime shell: the shared `Coordinator`,
`ShutdownToken` and `ShutdownTrigger` behind `Arc`, `parking_lot` locks
and a condition variable, the tokio broadcast used by `wait().await`,
the tokio signal back-end of `install`, and the coordinator builder,
which wraps every hook so that a panic in one hook does not stop the
others.
