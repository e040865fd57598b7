# tasktree

Distributed task-tree values, verified with Verus: W3C trace-compatible task
identities under an application-supplied URN scheme, a validated lifecycle
state machine with terminal causes, parent-child lineage, progress counters,
lifecycle timestamps, and token and resource budgets.

- `src/` is the library. Every function carries a contract over a
  mathematical model (byte sequences for identities, tuples of integers for
  budgets, sequences for compositions), and the laws the library promises
  (URN and traceparent round trips, canonical parsing, the state machine's
  shape, cascade behaviour, budget conservation, composition bounds) are
  proved as public proof functions beside the code they speak about.
- `app/` holds what the verifier does not take: the serde wire forms (URN
  strings, snake_case labels, re-validation on every decode), the
  `Display`/`Error` forms of the errors, and the floating-point progress
  fraction.
- `tests/` runs the library on concrete values.
