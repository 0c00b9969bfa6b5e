//! The bridges as built into the ZTOS kernel, where they sit on the kernel's
//! own capability, VPN, UART and TEE services.
pub mod syscall_table;
pub mod syscall_wrapper;
pub mod memory_bridge;
pub mod io_bridge;
pub mod thread_bridge;
pub mod net_bridge;
pub mod sched_bridge;
pub mod vpn;
