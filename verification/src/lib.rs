//! The compatibility layer that runs Android's runtime on ZTOS: Linux syscalls
//! are checked against the app's capabilities and answered by ZTOS bridges.
pub mod user_mem;
pub mod search;
pub mod pool;
pub mod syscall_wrapper;
pub mod memory_bridge;
pub mod io_bridge;
pub mod thread_bridge;
pub mod net_bridge;
pub mod sched_bridge;
pub mod fd_table;
pub mod thread_table;
pub mod kernel_stubs;
pub mod socket_table;
pub mod clock;
pub mod art;
