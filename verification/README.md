# ztos_compat

The layer that lets Android's runtime (bionic and ART) run on ZTOS. Every Linux
syscall goes through `ztos_syscall_wrapper`, which looks it up in the syscall
table, checks the calling app's capabilities and hands it to the bridge of its
category (memory, files, threads and signals, scheduling and clocks, network).

## Layout

- `src/` — the verified library. Handlers never touch the caller's memory:
  they ask for reads (`Outcome::NeedRead`) and answer with the return value and
  the list of memory effects to perform (`Outcome::Done`), see `user_mem.rs`.
  Each handler's contract states its result as a spec function over the model
  of the layer's state (`CompatModel`); the laws of the layer are public proof
  functions beside the handlers they speak of.
  - `syscall_wrapper.rs`, `*_bridge.rs` — the user-space build of the layer.
  - `art/` — the build inside the kernel, with its syscall table.
  - `pool.rs`, `fd_table.rs`, `thread_table.rs`, `socket_table.rs`, `clock.rs` —
    the state each bridge keeps and the operations on it.
  - `kernel_stubs.rs` — the kernel services the layer calls: capability
    checks, with the revoked tasks held as state, the compatibility VPN
    (always up), the TEE key counter, and the UART, whose output is console
    effects. `art/vpn.rs` holds the kernel's per-domain VPN kill switches,
    which only the kernel build consults.
- `tests/` — tests on concrete values, one at least for each law.
- `app/` — the C entry points: they perform the reads and effects that the
  library asks for on raw memory, and hold the layer's state and memory pool.
