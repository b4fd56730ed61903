# io_uring

The logic of Linux's `io_uring` interface, written in Verus and proved
against its contracts.

## Layout

- `src/` — the verified library.
  - `ring.rs`: the single-producer/single-consumer ring with free-running
    `u32` positions that both queues and the kernel share, and its lemmas.
  - `squeue.rs`, `cqueue.rs`: the submission and completion queues as the
    application sees them, with the kernel's side (`sync`, `complete`).
  - `opcode.rs`: the operations, each preparing a submission entry.
  - `submit.rs`: what to hand to `io_uring_enter(2)` and
    `io_uring_register(2)` for each submission or registration.
  - `buf_ring.rs`: rings of provided buffers.
  - `register.rs`, `types.rs`, `sys.rs`: probes, restrictions, the argument
    types and the kernel's constants and structures.
  - `concurrent.rs`: the steps that let several threads share one ring, and
    `SharedRing` and `SharedCompletionRing`, the protocols of concurrent pushes
    (reserve, write, publish in order) and pops (read, then take by
    compare-and-swap).
  - `linux_io_uring.rs`: the minimal interface with `From` conversions.
  - `harness.rs`: the task loop that benchmarks drive a ring with.
- `tests/` — tests of the library on concrete values.
- `app/` — the library on a running kernel: system calls, memory mappings,
  atomics and threads. Not verified.
