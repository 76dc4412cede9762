# mioco

A coroutine runtime: fibers spread over one event loop per CPU, with
channels and a mutex that suspend fibers instead of blocking threads.

- `src/` is the verified library. It takes every decision of the runtime
  and holds the synchronisation state:
  - `lib.rs`: loop, fiber and full ids; `in_coroutine`; `thread_num`.
  - `dispatch.rs`: round-robin choice of the loop for a new fiber, routing
    of wake-ups, `yield_now`.
  - `event_loop.rs`: one loop's live fiber slots and what each queue
    message and readiness event means.
  - `evented.rs`: poller registration of fiber-driven I/O objects.
  - `slab_spec.rs`: the `slab` crate's slot table, as the loop uses it.
  - `sync/broadcast.rs`, `sync/mpsc.rs`, `sync/mutex.rs`: broadcast
    notification, channels and the mutex, as non-blocking steps.
  - `sync/wakeup.rs`: models of the waiting protocols, tied to the code by
    reading, with the proof that no wake-up is lost in them (for a sender on
    a full channel: by receives inside a coroutine, the ones that notify).
- `app/` performs what the library decides: worker threads and pollers
  (`mio`), fiber stacks and context switches (`context`), thread-local ids,
  and blocking front ends that repeat the library's steps.
- `tests/` exercises the library on concrete values.
