use ztos_compat::art::syscall_table::{
    SYS_SOCKET, SYS_SOCKETPAIR, SYS_CONNECT, SYS_ACCEPT, SYS_SENDTO, SYS_SENDMSG, SYS_GETSOCKOPT,
    SYS_GETSOCKNAME, SYS_EPOLL_CREATE1, SYS_EPOLL_PWAIT, SYS_CLOCK_GETTIME, SYS_NANOSLEEP,
    SYS_CLOCK_NANOSLEEP, SYS_GETTIMEOFDAY, SYS_SCHED_GETAFFINITY, SYS_GETRLIMIT, SYS_SCHED_YIELD,
    SYS_GETTID, SYS_GETUID, SYS_UNAME, SYS_GETRANDOM, SYS_GETCPU, SYS_MEMBARRIER, SYS_PIPE2,
};
use ztos_compat::syscall_wrapper::{ztos_set_app_context, ztos_syscall_wrapper, CompatState, EINVAL, EFAULT};
use ztos_compat::user_mem::{IoVec, Outcome, UserData, UserEffect, UserRead};
use ztos_compat::{net_bridge, sched_bridge};

const POOL: u64 = 0x4000_0000;

fn state() -> CompatState {
    let mut st = CompatState::new(POOL);
    ztos_set_app_context(&mut st, 101, 20);
    st
}

fn net(st: &mut CompatState, nr: u64, a: [u64; 6], input: &Vec<UserData>) -> Outcome {
    net_bridge::handle(st, nr, a[0], a[1], a[2], a[3], a[4], a[5], input)
}

fn sched(st: &mut CompatState, nr: u64, a: [u64; 6], input: &Vec<UserData>) -> Outcome {
    sched_bridge::handle(st, nr, a[0], a[1], a[2], a[3], a[4], a[5], input)
}

fn sys(st: &mut CompatState, nr: u64, a: [u64; 6]) -> Outcome {
    ztos_syscall_wrapper(st, nr, a[0], a[1], a[2], a[3], a[4], a[5], &vec![])
}

fn word_stores(addr: u64, data: &[u64]) -> Vec<UserEffect> {
    data.iter().enumerate().map(|(i, w)| UserEffect::Word { addr: addr + 8 * i as u64, value: *w }).collect()
}

#[test]
fn sockets_count_from_700() {
    let mut st = state();
    assert_eq!(net(&mut st, SYS_SOCKET, [2, 1, 0, 0, 0, 0], &vec![]), Outcome::Done(700, vec![]));
    assert_eq!(net(&mut st, SYS_ACCEPT, [700, 0, 0, 0, 0, 0], &vec![]), Outcome::Done(701, vec![]));
    assert_eq!(
        net(&mut st, SYS_SOCKETPAIR, [1, 1, 0, 0x100, 0, 0], &vec![]),
        Outcome::Done(0, vec![
            UserEffect::Int32 { addr: 0x100, value: 702 },
            UserEffect::Int32 { addr: 0x104, value: 703 },
        ])
    );
    assert_eq!(net(&mut st, SYS_SOCKETPAIR, [1, 1, 0, 0, 0, 0], &vec![]), Outcome::Done(0, vec![]));
    let s = st.net.socks[0];
    assert_eq!((s.fd, s.domain, s.stype, s.valid), (700, 2, 1, true));
    assert_eq!(net(&mut st, SYS_CONNECT, [700, 0, 16, 0, 0, 0], &vec![]), Outcome::Done(0, vec![]));
}

#[test]
fn sending_takes_the_whole_frame() {
    let mut st = state();
    assert_eq!(net(&mut st, SYS_SENDTO, [700, 0, 5, 0, 0, 0], &vec![]), Outcome::Done(EINVAL, vec![]));
    assert_eq!(
        net(&mut st, SYS_SENDTO, [700, 0x100, 5, 0, 0, 0], &vec![]),
        Outcome::NeedRead(UserRead::Bytes { addr: 0x100, len: 5 })
    );
    assert_eq!(
        net(&mut st, SYS_SENDTO, [700, 0x100, 5, 0, 0, 0], &vec![UserData::Bytes(b"hello".to_vec())]),
        Outcome::Done(5, vec![])
    );
}

#[test]
fn sendmsg_walks_the_iovecs() {
    let mut st = state();
    let mut input = vec![];
    assert_eq!(net(&mut st, SYS_SENDMSG, [700, 0x200, 0, 0, 0, 0], &input), Outcome::NeedRead(UserRead::Words { addr: 0x200, count: 4 }));
    input.push(UserData::Words(vec![0, 0, 0x300, 2]));
    assert_eq!(net(&mut st, SYS_SENDMSG, [700, 0x200, 0, 0, 0, 0], &input), Outcome::NeedRead(UserRead::IoVecs { addr: 0x300, count: 2 }));
    input.push(UserData::IoVecs(vec![IoVec { base: 0x400, len: 3 }, IoVec { base: 0x500, len: 4 }]));
    assert_eq!(net(&mut st, SYS_SENDMSG, [700, 0x200, 0, 0, 0, 0], &input), Outcome::NeedRead(UserRead::Bytes { addr: 0x400, len: 3 }));
    input.push(UserData::Bytes(vec![1, 2, 3]));
    assert_eq!(net(&mut st, SYS_SENDMSG, [700, 0x200, 0, 0, 0, 0], &input), Outcome::NeedRead(UserRead::Bytes { addr: 0x500, len: 4 }));
    input.push(UserData::Bytes(vec![1, 2, 3, 4]));
    assert_eq!(net(&mut st, SYS_SENDMSG, [700, 0x200, 0, 0, 0, 0], &input), Outcome::Done(7, vec![]));
    assert_eq!(net(&mut st, SYS_SENDMSG, [700, 0, 0, 0, 0, 0], &vec![]), Outcome::Done(EINVAL, vec![]));
}

#[test]
fn socket_options_and_names() {
    let mut st = state();
    assert_eq!(
        net(&mut st, SYS_GETSOCKOPT, [700, 1, 4, 0x600, 0x700, 0], &vec![]),
        Outcome::Done(0, vec![UserEffect::Int32 { addr: 0x600, value: 0 }])
    );
    assert_eq!(net(&mut st, SYS_GETSOCKOPT, [700, 1, 4, 0, 0x700, 0], &vec![]), Outcome::Done(0, vec![]));
    assert_eq!(
        net(&mut st, SYS_GETSOCKNAME, [700, 0x800, 0x900, 0, 0, 0], &vec![]),
        Outcome::Done(0, vec![
            UserEffect::Half { addr: 0x800, value: 2 },
            UserEffect::Half { addr: 0x802, value: 0 },
            UserEffect::Word32 { addr: 0x804, value: 0 },
            UserEffect::Word32 { addr: 0x900, value: 16 },
        ])
    );
    assert_eq!(net(&mut st, SYS_GETSOCKNAME, [700, 0, 0x900, 0, 0, 0], &vec![]), Outcome::Done(EINVAL, vec![]));
}

#[test]
fn epoll_never_reports_events() {
    let mut st = state();
    assert_eq!(net(&mut st, SYS_EPOLL_CREATE1, [0; 6], &vec![]), Outcome::Done(800, vec![]));
    assert_eq!(net(&mut st, SYS_EPOLL_PWAIT, [800, 0, 1, 0, 0, 0], &vec![]), Outcome::Done(0, vec![]));
    assert_eq!(
        net(&mut st, SYS_EPOLL_PWAIT, [800, 0, 1, 5, 0, 0], &vec![]),
        Outcome::Done(0, vec![UserEffect::Spin { count: 1000 }])
    );
    assert_eq!(net(&mut st, 9999, [0; 6], &vec![]), Outcome::Done(EINVAL, vec![]));
}

#[test]
fn clock_advances_a_millisecond_per_read() {
    let mut st = state();
    assert_eq!(
        sched(&mut st, SYS_CLOCK_GETTIME, [1, 0x100, 0, 0, 0, 0], &vec![]),
        Outcome::Done(0, word_stores(0x100, &[1, 1_000_000]))
    );
    assert_eq!(
        sched(&mut st, SYS_CLOCK_GETTIME, [1, 0x100, 0, 0, 0, 0], &vec![]),
        Outcome::Done(0, word_stores(0x100, &[1, 2_000_000]))
    );
    assert_eq!(
        sched(&mut st, SYS_GETTIMEOFDAY, [0x200, 0, 0, 0, 0, 0], &vec![]),
        Outcome::Done(0, word_stores(0x200, &[1, 2000]))
    );
    assert_eq!(sched(&mut st, SYS_GETTIMEOFDAY, [0, 0, 0, 0, 0, 0], &vec![]), Outcome::Done(0, vec![]));
    assert_eq!(sched(&mut st, SYS_CLOCK_GETTIME, [1, 0, 0, 0, 0, 0], &vec![]), Outcome::Done(EFAULT, vec![]));
    assert_eq!(st.clock_ns, 1_002_000_000);
}

#[test]
fn nanosleep_spins_for_the_request() {
    let mut st = state();
    assert_eq!(sched(&mut st, SYS_NANOSLEEP, [0x100, 0x200, 0, 0, 0, 0], &vec![]), Outcome::NeedRead(UserRead::Words { addr: 0x100, count: 2 }));
    let mut want = vec![UserEffect::Spin { count: 2 * 100_000 + 50 }];
    want.extend(word_stores(0x200, &[0, 0]));
    assert_eq!(
        sched(&mut st, SYS_NANOSLEEP, [0x100, 0x200, 0, 0, 0, 0], &vec![UserData::Words(vec![2, 500_000])]),
        Outcome::Done(0, want)
    );
    assert_eq!(
        sched(&mut st, SYS_CLOCK_NANOSLEEP, [1, 0, 0x100, 0, 0, 0], &vec![UserData::Words(vec![1000, 0])]),
        Outcome::Done(0, vec![UserEffect::Spin { count: 10_000_000 }])
    );
    assert_eq!(sched(&mut st, SYS_NANOSLEEP, [0, 0, 0, 0, 0, 0], &vec![]), Outcome::Done(EFAULT, vec![]));
}

#[test]
fn affinity_is_cpu_zero() {
    let mut st = state();
    assert_eq!(
        sched(&mut st, SYS_SCHED_GETAFFINITY, [0, 3, 0x100, 0, 0, 0], &vec![]),
        Outcome::Done(0, vec![
            UserEffect::Byte { addr: 0x100, value: 1 },
            UserEffect::Byte { addr: 0x101, value: 0 },
            UserEffect::Byte { addr: 0x102, value: 0 },
        ])
    );
    assert_eq!(sched(&mut st, SYS_SCHED_GETAFFINITY, [0, 128, 0x100, 0, 0, 0], &vec![]).clone(), {
        let mut v = vec![UserEffect::Byte { addr: 0x100, value: 1 }];
        for i in 1..8u64 { v.push(UserEffect::Byte { addr: 0x100 + i, value: 0 }); }
        Outcome::Done(0, v)
    });
    assert_eq!(sched(&mut st, SYS_SCHED_GETAFFINITY, [0, 0, 0x100, 0, 0, 0], &vec![]), Outcome::Halt);
    assert_eq!(sched(&mut st, SYS_SCHED_GETAFFINITY, [0, 8, 0, 0, 0, 0], &vec![]), Outcome::Done(EFAULT, vec![]));
    assert_eq!(sched(&mut st, SYS_SCHED_YIELD, [0; 6], &vec![]), Outcome::Done(0, vec![]));
}

#[test]
fn resource_limits() {
    let mut st = state();
    assert_eq!(
        sched(&mut st, SYS_GETRLIMIT, [7, 0x100, 0, 0, 0, 0], &vec![]),
        Outcome::Done(0, word_stores(0x100, &[8 << 20, 8 << 20]))
    );
    assert_eq!(
        sched(&mut st, SYS_GETRLIMIT, [0, 0x100, 0, 0, 0, 0], &vec![]),
        Outcome::Done(0, word_stores(0x100, &[u64::MAX, u64::MAX]))
    );
    assert_eq!(sched(&mut st, SYS_GETRLIMIT, [7, 0, 0, 0, 0, 0], &vec![]), Outcome::Done(EFAULT, vec![]));
}

#[test]
fn process_identity() {
    let mut st = state();
    assert_eq!(sys(&mut st, SYS_GETTID, [0; 6]), Outcome::Done(10101, vec![]));
    assert_eq!(sys(&mut st, SYS_GETUID, [0; 6]), Outcome::Done(10000, vec![]));
    // getcpu is a stub; the stub bridge answers 0.
    assert_eq!(sys(&mut st, SYS_GETCPU, [0; 6]), Outcome::Done(0, vec![]));
    assert_eq!(sys(&mut st, SYS_MEMBARRIER, [0; 6]), Outcome::Done(0, vec![]));
    // pipe2 is done by the kernel itself.
    assert_eq!(sys(&mut st, SYS_PIPE2, [0x100, 0, 0, 0, 0, 0]), Outcome::Done(0, vec![]));
}

#[test]
fn uname_is_a_stub_at_the_entry_point() {
    let mut st = state();
    assert_eq!(sys(&mut st, SYS_UNAME, [0x100, 0, 0, 0, 0, 0]), Outcome::Done(0, vec![]));
}

#[test]
fn getrandom_fills_a_fixed_pattern() {
    let mut st = state();
    let out = sys(&mut st, SYS_GETRANDOM, [0x100, 300, 0, 0, 0, 0]);
    let want: Vec<UserEffect> = (0..256u64)
        .map(|i| UserEffect::Byte { addr: 0x100 + i, value: ((i as u32).wrapping_mul(0x9e37) ^ 0x5a5a) as u8 })
        .collect();
    assert_eq!(out, Outcome::Done(300, want));
    assert_eq!(sys(&mut st, SYS_GETRANDOM, [0, 300, 0, 0, 0, 0]), Outcome::Done(EFAULT, vec![]));
}

#[test]
fn law_kill_switch_blocks_network_holds() {
    let mut st = state();
    ztos_compat::art::vpn::set_kill_switch(&mut st.vpn, st.domain_id, true);
    assert_eq!(
        ztos_compat::art::net_bridge::handle(&mut st, ztos_compat::art::syscall_table::SYS_SOCKET, 2, 1, 0, 0, 0, 0, &vec![]),
        Outcome::Done(-1, vec![])
    );
    // The compatibility library's network bridge ignores the kernel VPN: its VPN is always up.
    let before = st.net.next_sock;
    match ztos_compat::net_bridge::handle(&mut st, ztos_compat::art::syscall_table::SYS_SOCKET, 2, 1, 0, 0, 0, 0, &vec![]) {
        Outcome::Done(fd, _) => assert_eq!(fd, before as i64),
        other => panic!("{:?}", other),
    }
    ztos_compat::art::vpn::set_kill_switch(&mut st.vpn, st.domain_id, false);
    let before = st.net.next_sock;
    match ztos_compat::art::net_bridge::handle(&mut st, ztos_compat::art::syscall_table::SYS_SOCKET, 2, 1, 0, 0, 0, 0, &vec![]) {
        Outcome::Done(fd, _) => assert_eq!(fd, before as i64),
        other => panic!("{:?}", other),
    }
}
