use ztos_compat::art::syscall_table::{
    SYS_OPENAT, SYS_SOCKET, SYS_CLONE, SYS_PERF_EVENT_OPEN, SYS_MMAP, SYS_WRITE, SYS_LSEEK, SYS_READ,
    SYS_CLOSE, SYS_RT_SIGPROCMASK, SYS_RT_SIGACTION, SYS_CLOCK_GETTIME, SYS_GETTIMEOFDAY, SYS_BRK,
    SYS_FUTEX,
};
use ztos_compat::syscall_wrapper::{ztos_set_app_context, ztos_syscall_wrapper, CompatState, ENOMEM, ENOSYS, EPERM, EBADF};
use ztos_compat::user_mem::{Outcome, UserData, UserEffect};

const POOL: u64 = 0x4000_0000;
const AT_FDCWD: u64 = 0xFFFF_FF9C;

fn state(app: u32) -> CompatState {
    let mut st = CompatState::new(POOL);
    ztos_set_app_context(&mut st, app, 20);
    st
}

fn sys(st: &mut CompatState, nr: u64, a: [u64; 6], input: &Vec<UserData>) -> Outcome {
    ztos_syscall_wrapper(st, nr, a[0], a[1], a[2], a[3], a[4], a[5], input)
}

fn bump_and_fds(st: &CompatState) -> (u64, Vec<bool>) {
    (st.mem.bump, st.fds.iter().map(|e| e.valid).collect())
}

#[test]
fn law_unknown_syscall_changes_nothing() {
    let mut st = state(101);
    let before = bump_and_fds(&st);
    assert_eq!(sys(&mut st, 5000, [1, 2, 3, 4, 5, 6], &vec![]), Outcome::Done(ENOSYS, vec![]));
    assert_eq!(bump_and_fds(&st), before);
}

#[test]
fn law_debug_refused_to_every_app() {
    for app in [0u32, 1, 101, u32::MAX] {
        let mut st = state(app);
        assert_eq!(sys(&mut st, SYS_PERF_EVENT_OPEN, [0; 6], &vec![]), Outcome::Done(EPERM, vec![]));
    }
}

#[test]
fn law_no_app_no_rights_holds() {
    let mut st = state(0);
    assert_eq!(sys(&mut st, SYS_OPENAT, [AT_FDCWD, 0x100, 0, 0, 0, 0], &vec![]), Outcome::Done(EPERM, vec![]));
    assert_eq!(sys(&mut st, SYS_SOCKET, [2, 1, 0, 0, 0, 0], &vec![]), Outcome::Done(EPERM, vec![]));
    assert_eq!(sys(&mut st, SYS_CLONE, [0x1_0000, 0, 0, 0, 0, 0], &vec![]), Outcome::Done(EPERM, vec![]));
    assert_eq!(st.net.next_sock, 700);
    assert_eq!(st.thr.next_tid, 100);
    assert_eq!(sys(&mut st, SYS_MMAP, [0, 4096, 3, 0x22, u64::MAX, 0], &vec![]), Outcome::Done(EPERM, vec![]));
    assert_eq!(st.mem.bump, 0);
}

#[test]
fn law_revoked_app_has_no_rights() {
    let mut st = state(101);
    ztos_compat::kernel_stubs::revoke_all_for_task(&mut st.kernel, 101);
    assert_eq!(sys(&mut st, SYS_OPENAT, [AT_FDCWD, 0x100, 0, 0, 0, 0], &vec![]), Outcome::Done(EPERM, vec![]));
    assert_eq!(sys(&mut st, SYS_MMAP, [0, 4096, 3, 0x22, u64::MAX, 0], &vec![]), Outcome::Done(EPERM, vec![]));
    assert_eq!(st.mem.bump, 0);
}

#[test]
fn law_reads_come_first_holds() {
    let mut st = state(101);
    let out = sys(&mut st, SYS_OPENAT, [AT_FDCWD, 0x100, 0, 0, 0, 0], &vec![]);
    assert!(matches!(out, Outcome::NeedRead(_)));
    assert!(!st.fds[10].valid);
    assert_eq!(st.mem.bump, 0);
    let out = sys(&mut st, SYS_FUTEX, [0x500, 0, 1, 0, 0, 0], &vec![]);
    assert!(matches!(out, Outcome::NeedRead(_)));
}

#[test]
fn law_mmaps_never_overlap() {
    let mut st = state(101);
    let mut last_end = POOL;
    for len in [1u64, 4096, 4097, 100_000, 3] {
        match sys(&mut st, SYS_MMAP, [0, len, 3, 0x22, u64::MAX, 0], &vec![]) {
            Outcome::Done(r, e) => {
                assert!(e.is_empty());
                let r = r as u64;
                assert_eq!(r % 4096, 0);
                assert!(r >= last_end);
                last_end = r + len;
            },
            other => panic!("unexpected {:?}", other),
        }
    }
}

#[test]
fn law_failed_mmap_changes_nothing() {
    let mut st = state(101);
    sys(&mut st, SYS_MMAP, [0, 4096, 3, 0x22, u64::MAX, 0], &vec![]);
    let bump = st.mem.bump;
    assert_eq!(sys(&mut st, SYS_MMAP, [0, 1 << 40, 3, 0x22, u64::MAX, 0], &vec![]), Outcome::Done(ENOMEM, vec![]));
    assert_eq!(st.mem.bump, bump);
    assert!(!st.mem.maps[1].valid);
}

#[test]
fn law_brk_reported_holds() {
    let mut st = state(101);
    sys(&mut st, SYS_BRK, [0; 6], &vec![]);
    sys(&mut st, SYS_BRK, [POOL + 0x5_0000, 0, 0, 0, 0, 0], &vec![]);
    assert_eq!(sys(&mut st, SYS_BRK, [0; 6], &vec![]), Outcome::Done((POOL + 0x5_0000) as i64, vec![]));
}

#[test]
fn law_read_back_what_was_written() {
    let mut st = state(101);
    sys(&mut st, SYS_OPENAT, [AT_FDCWD, 0x100, 0, 0, 0, 0], &vec![UserData::Bytes(b"a.dex".to_vec())]);
    sys(&mut st, SYS_LSEEK, [10, 100, 0, 0, 0, 0], &vec![]);
    assert_eq!(
        sys(&mut st, SYS_WRITE, [10, 0x7000, 8, 0, 0, 0], &vec![]),
        Outcome::Done(8, vec![UserEffect::CopyBytes { dst: POOL + 100, src: 0x7000, len: 8 }])
    );
    assert_eq!(sys(&mut st, SYS_LSEEK, [10, 100, 0, 0, 0, 0], &vec![]), Outcome::Done(100, vec![]));
    assert_eq!(
        sys(&mut st, SYS_READ, [10, 0x8000, 8, 0, 0, 0], &vec![]),
        Outcome::Done(8, vec![UserEffect::CopyBytes { dst: 0x8000, src: POOL + 100, len: 8 }])
    );
}

#[test]
fn law_closed_descriptor_unreadable() {
    let mut st = state(101);
    sys(&mut st, SYS_OPENAT, [AT_FDCWD, 0x100, 0, 0, 0, 0], &vec![UserData::Bytes(b"f".to_vec())]);
    sys(&mut st, SYS_CLOSE, [10, 0, 0, 0, 0, 0], &vec![]);
    assert_eq!(sys(&mut st, SYS_READ, [10, 0x8000, 8, 0, 0, 0], &vec![]), Outcome::Done(EBADF, vec![]));
}

#[test]
fn law_open_gives_distinct_descriptors() {
    let mut st = state(101);
    let p = vec![UserData::Bytes(b"f".to_vec())];
    let a = sys(&mut st, SYS_OPENAT, [AT_FDCWD, 0x100, 0, 0, 0, 0], &p);
    let b = sys(&mut st, SYS_OPENAT, [AT_FDCWD, 0x100, 0, 0, 0, 0], &p);
    assert_eq!(a, Outcome::Done(10, vec![]));
    assert_eq!(b, Outcome::Done(11, vec![]));
}

#[test]
fn law_mask_and_action_reported() {
    let mut st = state(101);
    sys(&mut st, SYS_RT_SIGPROCMASK, [2, 0x100, 0, 0, 0, 0], &vec![UserData::Words(vec![0x55])]);
    assert_eq!(
        sys(&mut st, SYS_RT_SIGPROCMASK, [0, 0, 0x200, 0, 0, 0], &vec![]),
        Outcome::Done(0, vec![UserEffect::Word { addr: 0x200, value: 0x55 }])
    );
    sys(&mut st, SYS_RT_SIGPROCMASK, [0, 0x100, 0, 0, 0, 0], &vec![UserData::Words(vec![0xA0])]);
    sys(&mut st, SYS_RT_SIGPROCMASK, [1, 0x100, 0, 0, 0, 0], &vec![UserData::Words(vec![0xA0])]);
    assert_eq!(st.thr.sig_mask, 0x55);
    sys(&mut st, SYS_RT_SIGACTION, [2, 0x100, 0, 0, 0, 0], &vec![UserData::Words(vec![0x1234, 1])]);
    assert_eq!(
        sys(&mut st, SYS_RT_SIGACTION, [2, 0, 0x300, 0, 0, 0], &vec![]),
        Outcome::Done(0, vec![UserEffect::Word { addr: 0x300, value: 0x1234 }, UserEffect::Word { addr: 0x308, value: 1 }])
    );
}

#[test]
fn law_thread_ids_distinct() {
    let mut st = state(101);
    let a = sys(&mut st, SYS_CLONE, [0x1_0000, 0, 0, 0, 0, 0], &vec![]);
    let b = sys(&mut st, SYS_CLONE, [0x1_0000, 0, 0, 0, 0, 0], &vec![]);
    assert_eq!((a, b), (Outcome::Done(100, vec![]), Outcome::Done(101, vec![])));
}

#[test]
fn law_clock_never_goes_back() {
    let mut st = state(101);
    let mut last = 0u64;
    for _ in 0..5 {
        match sys(&mut st, SYS_CLOCK_GETTIME, [1, 0x100, 0, 0, 0, 0], &vec![]) {
            Outcome::Done(0, e) => {
                let (s, n) = match (e[0], e[1]) {
                    (UserEffect::Word { value: s, .. }, UserEffect::Word { value: n, .. }) => (s, n),
                    _ => panic!("not a timespec"),
                };
                assert!(n < 1_000_000_000);
                let t = s * 1_000_000_000 + n;
                assert!(last == 0 || t == last + 1_000_000);
                last = t;
            },
            other => panic!("unexpected {:?}", other),
        }
    }
    assert_eq!(
        sys(&mut st, SYS_GETTIMEOFDAY, [0x200, 0, 0, 0, 0, 0], &vec![]),
        Outcome::Done(0, vec![
            UserEffect::Word { addr: 0x200, value: last / 1_000_000_000 },
            UserEffect::Word { addr: 0x208, value: (last % 1_000_000_000) / 1000 },
        ])
    );
}
