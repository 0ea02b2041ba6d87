# dispatch

The decisions of a wrapper around Apple's Grand Central Dispatch (libdispatch),
written in Verus with their contracts, and the wrapper itself around them.

- `src/` is the verified library. It holds what the wrapper decides by itself:
  how a delay becomes a dispatch time (`time`), the flags of dispatch blocks
  (`blk`), quality-of-service classes (`qos`), how the outcome of a wait, a
  read or a write is read from what libdispatch returns (`time`, `io`), the
  state of a timer from its scheduling to its cancellation (`source`), and the
  slot through which a promise hands its value to a future (`future`).
  Dispatch objects are held there by address (`DispatchBlock`, `Data`,
  `Channel`, `Semaphore`).
- `app/` is the wrapper: the declarations of libdispatch's C functions, the
  closures turned into blocks, the queues, and the owning types that retain and
  release dispatch objects. It calls the library for every decision and reads
  the system clock where a deadline is an offset from now.

libdispatch must be present at link time for `app/` to run.
