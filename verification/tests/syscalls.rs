use ztos_compat::art::syscall_table::{
    lookup, SyscallCat, SYS_MMAP, SYS_OPENAT, SYS_PTRACE, SYS_GETPID,
};
use ztos_compat::syscall_wrapper::{ztos_syscall_wrapper, ztos_set_app_context, CompatState, ENOSYS, EPERM};
use ztos_compat::user_mem::{Outcome, UserData};

const POOL: u64 = 0x4000_0000;

fn state(app: u32) -> CompatState {
    let mut st = CompatState::new(POOL);
    ztos_set_app_context(&mut st, app, 20);
    st
}

fn call(st: &mut CompatState, nr: u64, a: [u64; 6], input: &Vec<UserData>) -> Outcome {
    ztos_syscall_wrapper(st, nr, a[0], a[1], a[2], a[3], a[4], a[5], input)
}

#[test]
fn lookup_finds_table_entries() {
    let d = lookup(SYS_MMAP).unwrap();
    assert_eq!(d.name, "mmap");
    assert_eq!(d.category, SyscallCat::Memory);
    assert!(lookup(9999).is_none());
    assert_eq!(lookup(SYS_OPENAT).unwrap().category, SyscallCat::Io);
}

#[test]
fn unknown_syscall_is_not_implemented() {
    let mut st = state(101);
    assert_eq!(call(&mut st, 9999, [0; 6], &vec![]), Outcome::Done(ENOSYS, vec![]));
}

#[test]
fn debug_syscall_is_refused() {
    let mut st = state(101);
    assert_eq!(call(&mut st, SYS_PTRACE, [0; 6], &vec![]), Outcome::Done(EPERM, vec![]));
}

#[test]
fn getpid_is_app_id() {
    let mut st = state(101);
    assert_eq!(call(&mut st, SYS_GETPID, [0; 6], &vec![]), Outcome::Done(101, vec![]));
}
