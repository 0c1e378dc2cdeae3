# bevy_async_task

Run async tasks and streams in the background of a Bevy app and collect their
results by polling from ordinary systems, with optional timeouts.

## Layout

- `src/` is the verified library (Verus). It holds the polling side of the
  design: the receivers that catch a task's result or a stream's items, the
  producing-side handles, the one-task runner, the task pool and the stream
  runner, with contracts stated over their views, and `laws.rs`, which proves
  properties that span several calls (a result is handed out at most once, a
  task stays until its result is taken, the end of a stream is final).
  `channel.rs` declares the outside primitives used (`futures` channels and
  `AtomicWaker`) and the trusted contracts given to them.
- `app/` is ordinary Rust around it: the futures and streams themselves,
  timers and timeouts, spawning onto Bevy's async compute task pool, and the
  Bevy system parameters `TaskRunner`, `TimedTaskRunner`, `TaskPool`,
  `TimedTaskPool` and `TaskStream`.
- `tests/` exercises the library on concrete values.
