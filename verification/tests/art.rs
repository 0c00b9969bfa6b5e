use ztos_compat::art::syscall_table::{
    SYS_PTRACE, SYS_OPENAT, SYS_WRITE, SYS_WRITEV, SYS_LSEEK, SYS_GETRANDOM, SYS_UNAME, SYS_GETCPU,
    SYS_SECCOMP, SYS_CLONE, SYS_MMAP, SYS_BRK, SYS_FTRUNCATE, SYS_GETSOCKOPT, SYS_SOCKETPAIR, SYS_CONNECT,
    SYS_NANOSLEEP, SYS_GETRLIMIT, SYS_RT_SIGACTION, SYS_PRCTL, SYS_GETPID, SYS_MEMFD_CREATE,
};
use ztos_compat::art::syscall_wrapper::{
    handle_getrlimit, handle_prctl, print_nr, print_u32, ztos_syscall_wrapper, EINVAL, ENOSYS, EPERM, EBADF,
};
use ztos_compat::art::{io_bridge, memory_bridge, net_bridge, sched_bridge, thread_bridge};
use ztos_compat::fd_table::FdKind;
use ztos_compat::syscall_wrapper::{ztos_set_app_context, CompatState};
use ztos_compat::user_mem::{IoVec, Outcome, UserData, UserEffect, UserRead};

const POOL: u64 = 0x4000_0000;
const AT_FDCWD: u64 = 0xFFFF_FF9C;

fn state(app: u32) -> CompatState {
    let mut st = CompatState::new(POOL);
    ztos_set_app_context(&mut st, app, 20);
    st
}

fn sys(st: &mut CompatState, nr: u64, a: [u64; 6], input: &Vec<UserData>) -> Outcome {
    ztos_syscall_wrapper(st, nr, a[0], a[1], a[2], a[3], a[4], a[5], input)
}

fn bytes(s: &[u8]) -> Vec<UserData> {
    vec![UserData::Bytes(s.to_vec())]
}

fn console(text: &[u8]) -> Vec<UserEffect> {
    text.iter().map(|b| UserEffect::Console { value: *b }).collect()
}

fn byte_stores(addr: u64, data: &[u8]) -> Vec<UserEffect> {
    data.iter().enumerate().map(|(i, b)| UserEffect::Byte { addr: addr + i as u64, value: *b }).collect()
}

fn word_stores(addr: u64, data: &[u64]) -> Vec<UserEffect> {
    data.iter().enumerate().map(|(i, w)| UserEffect::Word { addr: addr + 8 * i as u64, value: *w }).collect()
}

#[test]
fn kernel_logs_unknown_syscalls() {
    let mut st = state(101);
    assert_eq!(
        sys(&mut st, 4242, [0; 6], &vec![]),
        Outcome::Done(ENOSYS, console(b"[ZTOS] Unknown syscall: 4242 - returning ENOSYS\n"))
    );
}

#[test]
fn kernel_logs_refusals() {
    let mut st = state(0);
    assert_eq!(
        sys(&mut st, SYS_OPENAT, [AT_FDCWD, 0x100, 0, 0, 0, 0], &vec![]),
        Outcome::Done(EPERM, console(b"[ZTOS] Syscall openat denied for app_id=0 (capability check failed)\n"))
    );
    let mut st = state(101);
    assert_eq!(
        sys(&mut st, SYS_PTRACE, [0; 6], &vec![]),
        Outcome::Done(EPERM, console(b"[ZTOS] Syscall ptrace denied for app_id=101 (capability check failed)\n"))
    );
}

#[test]
fn kernel_opens_devices_and_dex_files() {
    let mut st = state(101);
    assert_eq!(sys(&mut st, SYS_OPENAT, [AT_FDCWD, 0x100, 0, 0, 0, 0], &bytes(b"/dev/ashmem")), Outcome::Done(10, vec![]));
    assert_eq!(st.fds[10].kind, FdKind::MemFd);
    let mut want = byte_stores(POOL, b"dex\n035\0");
    want.push(UserEffect::Byte { addr: POOL + 8, value: 0x70 });
    want.extend(byte_stores(POOL + 32, &[0, 0x10, 0, 0]));
    assert_eq!(sys(&mut st, SYS_OPENAT, [AT_FDCWD, 0x100, 0, 0, 0, 0], &bytes(b"/data/classes.dex")), Outcome::Done(11, want));
    // The kernel build does not treat `.oat` as code.
    assert_eq!(sys(&mut st, SYS_OPENAT, [AT_FDCWD, 0x100, 0, 0, 0, 0], &bytes(b"/data/boot.oat")), Outcome::Done(12, vec![]));
    assert_eq!(st.fds[12].size, 0);
}

#[test]
fn kernel_console_prints_ascii() {
    let mut st = state(101);
    assert_eq!(
        sys(&mut st, SYS_WRITE, [1, 0x100, 4, 0, 0, 0], &vec![]),
        Outcome::NeedRead(UserRead::Bytes { addr: 0x100, len: 4 })
    );
    assert_eq!(
        sys(&mut st, SYS_WRITE, [1, 0x100, 4, 0, 0, 0], &bytes(&[b'o', 0xC3, b'k', b'\n'])),
        Outcome::Done(4, vec![
            UserEffect::Console { value: b'o' },
            UserEffect::Console { value: b'k' },
            UserEffect::Console { value: b'\n' },
        ])
    );
}

#[test]
fn kernel_writev_to_the_console() {
    let mut st = state(101);
    let mut input = vec![UserData::IoVecs(vec![IoVec { base: 0x100, len: 2 }, IoVec { base: 0x200, len: 1 }])];
    assert_eq!(
        sys(&mut st, SYS_WRITEV, [2, 0x50, 2, 0, 0, 0], &input),
        Outcome::NeedRead(UserRead::Bytes { addr: 0x100, len: 2 })
    );
    input.push(UserData::Bytes(b"hi".to_vec()));
    assert_eq!(
        sys(&mut st, SYS_WRITEV, [2, 0x50, 2, 0, 0, 0], &input),
        Outcome::NeedRead(UserRead::Bytes { addr: 0x200, len: 1 })
    );
    input.push(UserData::Bytes(b"!".to_vec()));
    assert_eq!(
        sys(&mut st, SYS_WRITEV, [2, 0x50, 2, 0, 0, 0], &input),
        Outcome::Done(3, vec![
            UserEffect::Console { value: b'h' },
            UserEffect::Console { value: b'i' },
            UserEffect::Console { value: b'!' },
        ])
    );
}

#[test]
fn kernel_lseek_end_adds_the_offset() {
    let mut st = state(101);
    sys(&mut st, SYS_OPENAT, [AT_FDCWD, 0x100, 0, 0, 0, 0], &bytes(b"a.apk"));
    assert_eq!(sys(&mut st, SYS_LSEEK, [10, 10, 2, 0, 0, 0], &vec![]), Outcome::Done(4106, vec![]));
    assert_eq!(sys(&mut st, SYS_LSEEK, [10, u64::MAX, 2, 0, 0, 0], &vec![]), Outcome::Done(-1, vec![]));
    assert_eq!(st.fds[10].offset, u64::MAX);
    assert_eq!(sys(&mut st, SYS_LSEEK, [11, 0, 0, 0, 0, 0], &vec![]), Outcome::Done(EBADF, vec![]));
}

#[test]
fn kernel_getrandom_uses_tee_keys() {
    let mut st = state(101);
    let expect = |key: u32| -> Vec<UserEffect> {
        (0..4u32)
            .map(|i| UserEffect::Byte { addr: 0x100 + i as u64, value: (key.wrapping_mul(0x9e37 + i) ^ (i * 0x1f)) as u8 })
            .collect()
    };
    assert_eq!(sys(&mut st, SYS_GETRANDOM, [0x100, 4, 0, 0, 0, 0], &vec![]), Outcome::Done(4, expect(1)));
    assert_eq!(sys(&mut st, SYS_GETRANDOM, [0x100, 4, 0, 0, 0, 0], &vec![]), Outcome::Done(4, expect(2)));
    assert_eq!(st.tee_keys, 2);
}

#[test]
fn kernel_stubs_answer_only_getrandom_and_seccomp() {
    let mut st = state(101);
    assert_eq!(sys(&mut st, SYS_SECCOMP, [0; 6], &vec![]), Outcome::Done(0, vec![]));
    assert_eq!(sys(&mut st, SYS_GETCPU, [0; 6], &vec![]), Outcome::Done(ENOSYS, vec![]));
    assert_eq!(sys(&mut st, SYS_UNAME, [0x100, 0, 0, 0, 0, 0], &vec![]), Outcome::Done(ENOSYS, vec![]));
    assert_eq!(sys(&mut st, SYS_GETPID, [0; 6], &vec![]), Outcome::Done(101, vec![]));
}

#[test]
fn kernel_clone_without_thread_is_a_fork_stub() {
    let mut st = state(101);
    assert_eq!(sys(&mut st, SYS_CLONE, [0, 0, 0x10, 0x20, 0, 0], &vec![]), Outcome::Done(100, vec![]));
    assert!(!st.thr.threads[0].valid);
    assert_eq!(
        sys(&mut st, SYS_CLONE, [0x0021_0000, 0x1000, 0x10, 0x20, 0, 0], &vec![]),
        Outcome::Done(100, vec![
            UserEffect::Word32 { addr: 0x20, value: 100 },
            UserEffect::Word32 { addr: 0x10, value: 100 },
        ])
    );
    // CLONE_THREAD without CLONE_CHILD_CLEARTID leaves the child id alone.
    assert_eq!(
        sys(&mut st, SYS_CLONE, [0x0001_0000, 0x1000, 0x10, 0x20, 0, 0], &vec![]),
        Outcome::Done(101, vec![UserEffect::Word32 { addr: 0x10, value: 101 }])
    );
}

#[test]
fn kernel_sigaction_reports_an_empty_mask() {
    let mut st = state(101);
    sys(&mut st, SYS_RT_SIGACTION, [10, 0x100, 0, 0, 0, 0], &vec![UserData::Words(vec![7, 8])]);
    assert_eq!(
        sys(&mut st, SYS_RT_SIGACTION, [10, 0, 0x200, 0, 0, 0], &vec![]),
        Outcome::Done(0, word_stores(0x200, &[7, 8, 0, 0]))
    );
}

#[test]
fn kernel_mmap_of_a_bad_file_fails_but_keeps_the_pages() {
    let mut st = state(101);
    assert_eq!(memory_bridge::handle(&mut st, SYS_MMAP, 0, 100, 1, 0, 300, 0), Outcome::Done(EBADF, vec![]));
    assert_eq!(st.mem.bump, 4096);
    assert!(!st.mem.maps[0].valid);
    // A closed file maps as empty pages, recorded as shared.
    assert_eq!(memory_bridge::handle(&mut st, SYS_MMAP, 0, 100, 1, 0, 30, 0), Outcome::Done((POOL + 4096) as i64, vec![]));
    assert_eq!(st.mem.maps[0].flags, 1);
}

#[test]
fn kernel_mmap_of_a_dex_file_copies_it() {
    let mut st = state(101);
    sys(&mut st, SYS_OPENAT, [AT_FDCWD, 0x100, 0, 0, 0, 0], &bytes(b"a.vdex"));
    assert_eq!(
        sys(&mut st, SYS_MMAP, [0, 8192, 1, 2, 10, 0], &vec![]),
        Outcome::Done((POOL + 4096) as i64, vec![UserEffect::CopyBytes { dst: POOL + 4096, src: POOL, len: 4096 }])
    );
}

#[test]
fn kernel_brk_stays_when_the_pool_is_full() {
    let mut st = state(101);
    assert_eq!(memory_bridge::handle(&mut st, SYS_BRK, 0, 0, 0, 0, 0, 0), Outcome::Done(POOL as i64, vec![]));
    let far = POOL + (1u64 << 40);
    assert_eq!(memory_bridge::handle(&mut st, SYS_BRK, far, 0, 0, 0, 0, 0), Outcome::Done(POOL as i64, vec![]));
    assert_eq!(memory_bridge::handle(&mut st, SYS_BRK, POOL + 0x2_0000, 0, 0, 0, 0, 0), Outcome::Done((POOL + 0x2_0000) as i64, vec![]));
}

#[test]
fn kernel_ftruncate_of_a_memfd_takes_pages() {
    let mut st = state(101);
    assert_eq!(memory_bridge::handle(&mut st, ztos_compat::art::syscall_table::SYS_MEMFD_CREATE, 0, 0, 0, 0, 0, 0), Outcome::Done(1000, vec![]));
    assert_eq!(memory_bridge::handle(&mut st, SYS_FTRUNCATE, 1000, 5000, 0, 0, 0, 0), Outcome::Done(0, vec![]));
    assert_eq!(st.mem.bump, 8192);
    assert_eq!(memory_bridge::handle(&mut st, SYS_FTRUNCATE, 20, 5000, 0, 0, 0, 0), Outcome::Done(0, vec![]));
    assert_eq!(st.fds[20].size, 5000);
}

#[test]
fn kernel_network_differences() {
    let mut st = state(101);
    assert_eq!(
        net_bridge::handle(&mut st, SYS_GETSOCKOPT, 700, 1, 4, 0, 0, 0, &vec![]),
        Outcome::Done(EINVAL, vec![])
    );
    assert_eq!(
        net_bridge::handle(&mut st, SYS_SOCKETPAIR, 1, 1, 0, 0, 0, 0, &vec![]),
        Outcome::Done(0, vec![UserEffect::Int32 { addr: 0, value: 700 }, UserEffect::Int32 { addr: 4, value: 701 }])
    );
    assert_eq!(net_bridge::handle(&mut st, SYS_CONNECT, 700, 0, 16, 0, 0, 0, &vec![]), Outcome::Done(EINVAL, vec![]));
    assert_eq!(net_bridge::handle(&mut st, SYS_CONNECT, 700, 0x100, 16, 0, 0, 0, &vec![]), Outcome::Done(0, vec![]));
}

#[test]
fn kernel_sleep_and_limits() {
    let mut st = state(101);
    assert_eq!(
        sched_bridge::handle(&mut st, SYS_NANOSLEEP, 0x100, 0, 0, 0, 0, 0, &vec![UserData::Words(vec![1, 4000])]),
        Outcome::Done(0, vec![UserEffect::Spin { count: 500_002 }])
    );
    assert_eq!(
        sched_bridge::handle(&mut st, SYS_GETRLIMIT, 0, 0x100, 0, 0, 0, 0, &vec![]),
        Outcome::Done(0, word_stores(0x100, &[1024, 4096]))
    );
    let mut eff = vec![];
    assert_eq!(handle_getrlimit(8, 0x200, &mut eff), 0);
    assert_eq!(eff, word_stores(0x200, &[u64::MAX, u64::MAX]));
}

#[test]
fn kernel_prctl_and_numbers() {
    assert_eq!(handle_prctl(15, 0, 0, 0, 0), 0);
    assert_eq!(thread_bridge::handle_prctl_from_thread(38, 1, 0, 0, 0), 0);
    let mut st = state(101);
    assert_eq!(thread_bridge::handle(&mut st, SYS_PRCTL, 36, 0, 0, 0, 0, 0, &vec![]), Outcome::Done(0, vec![]));
    assert_eq!(print_nr(0), b"0".to_vec());
    assert_eq!(print_nr(4242), b"4242".to_vec());
    assert_eq!(print_nr(u64::MAX), u64::MAX.to_string().into_bytes());
    assert_eq!(print_u32(101), b"101".to_vec());
}

#[test]
fn kernel_read_fd_and_ftruncate() {
    let mut st = state(101);
    sys(&mut st, SYS_OPENAT, [AT_FDCWD, 0x100, 0, 0, 0, 0], &bytes(b"a.odex"));
    let mut eff = vec![];
    assert_eq!(io_bridge::read_fd(&st, 10, 4090, 0x900, 100, &mut eff), 6);
    assert_eq!(eff, vec![UserEffect::CopyBytes { dst: 0x900, src: POOL + 4090, len: 6 }]);
    assert_eq!(io_bridge::ftruncate(&mut st, 10, 1), 0);
    assert_eq!(st.fds[10].size, 1);
}

#[test]
fn kernel_logs_kill_switch_refusals() {
    let mut st = state(102);
    ztos_set_app_context(&mut st, 102, 20);
    ztos_compat::art::vpn::set_kill_switch(&mut st.vpn, 20, true);
    assert_eq!(
        sys(&mut st, SYS_CONNECT, [10, 0x100, 16, 0, 0, 0], &vec![]),
        Outcome::Done(EPERM, console(b"[ZTOS] Syscall connect denied for app_id=102 (kill switch active for domain 20)\n"))
    );
    ztos_compat::art::vpn::set_kill_switch(&mut st.vpn, 20, false);
    assert_ne!(sys(&mut st, SYS_CONNECT, [10, 0x100, 16, 0, 0, 0], &vec![]), Outcome::Done(EPERM, vec![]));
}

#[test]
fn kernel_refuses_memory_calls_without_an_app() {
    let mut st = state(0);
    assert_eq!(
        sys(&mut st, ztos_compat::art::syscall_table::SYS_MUNMAP, [0x1000, 4096, 0, 0, 0, 0], &vec![]),
        Outcome::Done(EPERM, console(b"[ZTOS] Syscall munmap denied for app_id=0 (capability check failed)\n"))
    );
}

#[test]
fn kernel_jit_needs_its_capability() {
    let mut st = state(101);
    sys(&mut st, SYS_MMAP, [0, 4096, 3, 0x22, u64::MAX, 0], &vec![]);
    assert_eq!(memory_bridge::handle(&mut st, ztos_compat::art::syscall_table::SYS_MPROTECT, POOL, 4096, 5, 0, 0, 0), Outcome::Done(0, vec![]));
    assert_eq!(st.mem.maps[0].prot, 5);
    ztos_compat::kernel_stubs::revoke_all_for_task(&mut st.kernel, 101);
    assert_eq!(memory_bridge::handle(&mut st, ztos_compat::art::syscall_table::SYS_MPROTECT, POOL, 4096, 7, 0, 0, 0), Outcome::Done(EPERM, vec![]));
    assert_eq!(st.mem.maps[0].prot, 5);
}

#[test]
fn kernel_exit_revokes_the_app() {
    let mut st = state(101);
    assert_eq!(sys(&mut st, ztos_compat::art::syscall_table::SYS_EXIT, [0; 6], &vec![]), Outcome::Halt);
    assert_eq!(
        sys(&mut st, SYS_MMAP, [0, 4096, 3, 0x22, u64::MAX, 0], &vec![]),
        Outcome::Done(EPERM, console(b"[ZTOS] Syscall mmap denied for app_id=101 (capability check failed)\n"))
    );
}

#[test]
fn law_memfd_sizable_holds() {
    let mut st = state(101);
    let fd = match memory_bridge::handle(&mut st, ztos_compat::art::syscall_table::SYS_MEMFD_CREATE, 0, 0, 0, 0, 0, 0) {
        Outcome::Done(fd, _) => fd,
        other => panic!("{:?}", other),
    };
    assert_eq!(fd, 1000);
    assert_eq!(memory_bridge::handle(&mut st, ztos_compat::art::syscall_table::SYS_FTRUNCATE, fd as u64, 1 << 40, 0, 0, 0, 0), Outcome::Done(0, vec![]));
    assert_eq!(memory_bridge::handle(&mut st, ztos_compat::art::syscall_table::SYS_MEMFD_CREATE, 0, 0, 0, 0, 0, 0), Outcome::Done(1001, vec![]));
    st.mem.next_memfd = i32::MAX;
    assert_eq!(memory_bridge::handle(&mut st, ztos_compat::art::syscall_table::SYS_MEMFD_CREATE, 0, 0, 0, 0, 0, 0), Outcome::Done(-24, vec![]));
    assert_eq!(st.mem.next_memfd, i32::MAX);
}

#[test]
fn law_kernel_dex_header_read_back_holds() {
    let mut st = state(101);
    match sys(&mut st, SYS_OPENAT, [AT_FDCWD, 0x100, 0, 0, 0, 0], &bytes(b"/data/classes.dex")) {
        Outcome::Done(10, _) => {},
        other => panic!("{:?}", other),
    }
    let mut eff = vec![];
    assert_eq!(io_bridge::read_fd(&st, 10, 0, 0x800, 8, &mut eff), 8);
    assert_eq!(io_bridge::read_fd(&st, 10, 8, 0x900, 1, &mut eff), 1);
    assert_eq!(io_bridge::read_fd(&st, 10, 4096, 0x800, 8, &mut eff), 0);
    assert_eq!(
        eff,
        vec![
            UserEffect::CopyBytes { dst: 0x800, src: POOL, len: 8 },
            UserEffect::CopyBytes { dst: 0x900, src: POOL + 8, len: 1 },
        ]
    );
    assert_eq!(st.fds[10].offset, 0);
}

#[test]
fn kernel_newfstatat_writes_through_the_second_argument() {
    let mut st = state(101);
    sys(&mut st, SYS_OPENAT, [AT_FDCWD, 0x100, 0, 0, 0, 0], &bytes(b"/data/x"));
    match io_bridge::handle(&mut st, ztos_compat::art::syscall_table::SYS_NEWFSTATAT, 10, 0x100, 0x9000, 0, 0, 0, &vec![]) {
        Outcome::Done(0, eff) => {
            assert!(!eff.is_empty());
            assert!(matches!(eff[0], UserEffect::Word { addr: 0x100, .. }));
        }
        other => panic!("{:?}", other),
    }
}
