//! The entry point that bionic calls in place of the `svc` instruction: it
//! looks the syscall up, checks the app's capabilities and dispatches to a
//! bridge. It also holds the state every bridge works on.
use vstd::prelude::*;
use crate::pool::{MemoryState, MemoryModel, MapEntry, MAX_MAPS, POOL_SIZE, PAGE_SIZE, FIRST_MEMFD};
use crate::fd_table::{FdEntry, MAX_FDS, fds_wf};
use crate::thread_table::{ThreadState, ThreadModel, ThreadEntry, FutexEntry, SigAction, MAX_THREADS, MAX_FUTEX, NSIG_SLOTS, FIRST_TID, FIRST_EVENTFD};
use crate::socket_table::{NetState, NetModel, SockEntry, MAX_SOCKS, FIRST_SOCK, FIRST_EPFD};
use crate::clock::CLOCK_START_NS;
use crate::user_mem::{Outcome, Reply, UserData, UserEffect, UserRead, word_effects, push_words, byte_effects, push_bytes};
use crate::art::syscall_table::{
    SyscallCat, SyscallDesc, syscall_desc, lookup, SYS_GETPID, SYS_GETTID, SYS_GETPPID, SYS_GETUID,
    SYS_GETEUID, SYS_GETGID, SYS_GETEGID, SYS_GETCPU, SYS_GETRLIMIT, SYS_SETRLIMIT, SYS_PRCTL, SYS_UNAME,
    SYS_GETRANDOM,
};
use crate::kernel_stubs::{
    has_capability, has_capability_spec, kill_switch_active, vpn_kill_switch_active, CAP_NET_SEND,
    CAP_NET_RECV, NETWORK_ENDPOINT_ID, APP_STORAGE_BASE, CAP_APP_STORAGE, CAP_DEBUG, DISPLAY_ENDPOINT_ID,
    CAP_THREAD_CREATE, CAP_MEMORY_ALLOC, CAP_MEMORY_PROT, KernelState, KernelModel,
};
use crate::pool::wadd;
use crate::art::vpn::{VpnState, VpnModel};

verus! {

pub const EPERM: i64 = -1;
pub const ENOENT: i64 = -2;
pub const EINTR: i64 = -4;
pub const EBADF: i64 = -9;
pub const ENOMEM: i64 = -12;
pub const EACCES: i64 = -13;
pub const EFAULT: i64 = -14;
pub const EINVAL: i64 = -22;
pub const ENOSYS: i64 = -38;

/// Everything the layer remembers between syscalls: the current app and its
/// domain, the memory pool, the descriptor table, threads and signals,
/// sockets, the simulated clock, the TEE key counter, what the kernel
/// remembers about revoked capabilities, and the VPN state that the kernel
/// build consults.
pub struct CompatState {
    pub app_id: u32,
    pub domain_id: u32,
    pub mem: MemoryState,
    pub fds: Vec<FdEntry>,
    pub thr: ThreadState,
    pub net: NetState,
    pub clock_ns: u64,
    pub tee_keys: u32,
    pub kernel: KernelState,
    pub vpn: VpnState,
}

/// The mathematical value of a `CompatState`.
pub struct CompatModel {
    pub app_id: u32,
    pub domain_id: u32,
    pub mem: MemoryModel,
    pub fds: Seq<FdEntry>,
    pub thr: ThreadModel,
    pub net: NetModel,
    pub clock_ns: u64,
    pub tee_keys: u32,
    pub kernel: KernelModel,
    pub vpn: VpnModel,
}

impl View for CompatState {
    type V = CompatModel;

    open spec fn view(&self) -> CompatModel {
        CompatModel {
            app_id: self.app_id,
            domain_id: self.domain_id,
            mem: self.mem@,
            fds: self.fds@,
            thr: self.thr@,
            net: self.net@,
            clock_ns: self.clock_ns,
            tee_keys: self.tee_keys,
            kernel: self.kernel@,
            vpn: self.vpn@,
        }
    }
}

impl CompatModel {
    /// Every part is well formed.
    pub open spec fn wf(self) -> bool {
        &&& self.mem.wf()
        &&& fds_wf(self.fds)
        &&& self.thr.wf()
        &&& self.net.wf()
    }

    /// The state of a freshly loaded layer whose pool starts at `pool_base`:
    /// no app, nothing allocated, every table empty, every counter at its
    /// first value, the clock at one second, nothing revoked and every VPN
    /// up.
    pub open spec fn initial(pool_base: u64) -> CompatModel {
        CompatModel {
            app_id: 0,
            domain_id: 0,
            mem: MemoryModel {
                pool_base,
                bump: 0,
                brk: 0,
                maps: Seq::new(MAX_MAPS as nat, |i: int| MapEntry::spec_empty()),
                next_memfd: FIRST_MEMFD,
            },
            fds: Seq::new(MAX_FDS as nat, |i: int| FdEntry::spec_empty()),
            thr: ThreadModel {
                threads: Seq::new(MAX_THREADS as nat, |i: int| ThreadEntry::spec_empty()),
                next_tid: FIRST_TID,
                futexes: Seq::new(MAX_FUTEX as nat, |i: int| FutexEntry { addr: 0, waiters: 0 }),
                sigs: Seq::new(NSIG_SLOTS as nat, |i: int| SigAction::spec_empty()),
                sig_mask: 0,
                alt_stack: 0,
                alt_stack_size: 0,
                next_eventfd: FIRST_EVENTFD,
            },
            net: NetModel {
                socks: Seq::new(MAX_SOCKS as nat, |i: int| SockEntry::spec_empty()),
                next_sock: FIRST_SOCK,
                next_epfd: FIRST_EPFD,
            },
            clock_ns: CLOCK_START_NS,
            tee_keys: 0,
            kernel: KernelModel::initial(),
            vpn: VpnModel::initial(),
        }
    }
}

/// Whether a pool may start at `pool_base`: not at 0, on a page, with its
/// whole length inside the address space.
pub open spec fn pool_base_ok(pool_base: u64) -> bool {
    0 < pool_base && pool_base % PAGE_SIZE == 0 && pool_base + POOL_SIZE <= u64::MAX
}

/// Tests `pool_base_ok`.
pub fn check_pool_base(pool_base: u64) -> (b: bool)
    ensures
        b == pool_base_ok(pool_base),
{
    0 < pool_base && pool_base % PAGE_SIZE == 0 && pool_base <= u64::MAX - POOL_SIZE
}

impl CompatState {
    /// A freshly loaded layer over the pool at `pool_base`.
    pub fn new(pool_base: u64) -> (s: CompatState)
        requires
            pool_base_ok(pool_base),
        ensures
            s@ == CompatModel::initial(pool_base),
            s@.wf(),
    {
        let mut maps: Vec<MapEntry> = Vec::new();
        while maps.len() < MAX_MAPS
            invariant
                maps@.len() <= MAX_MAPS,
                maps@ == Seq::new(maps@.len(), |i: int| MapEntry::spec_empty()),
            decreases MAX_MAPS - maps@.len(),
        {
            maps.push(MapEntry::empty());
            proof { assert(maps@ =~= Seq::new(maps@.len(), |i: int| MapEntry::spec_empty())); }
        }
        let mut fds: Vec<FdEntry> = Vec::new();
        while fds.len() < MAX_FDS
            invariant
                fds@.len() <= MAX_FDS,
                fds@ == Seq::new(fds@.len(), |i: int| FdEntry::spec_empty()),
            decreases MAX_FDS - fds@.len(),
        {
            fds.push(FdEntry::empty());
            proof { assert(fds@ =~= Seq::new(fds@.len(), |i: int| FdEntry::spec_empty())); }
        }
        let mut threads: Vec<ThreadEntry> = Vec::new();
        while threads.len() < MAX_THREADS
            invariant
                threads@.len() <= MAX_THREADS,
                threads@ == Seq::new(threads@.len(), |i: int| ThreadEntry::spec_empty()),
            decreases MAX_THREADS - threads@.len(),
        {
            threads.push(ThreadEntry::empty());
            proof { assert(threads@ =~= Seq::new(threads@.len(), |i: int| ThreadEntry::spec_empty())); }
        }
        let mut futexes: Vec<FutexEntry> = Vec::new();
        while futexes.len() < MAX_FUTEX
            invariant
                futexes@.len() <= MAX_FUTEX,
                futexes@ == Seq::new(futexes@.len(), |i: int| FutexEntry { addr: 0, waiters: 0 }),
            decreases MAX_FUTEX - futexes@.len(),
        {
            futexes.push(FutexEntry::empty());
            proof { assert(futexes@ =~= Seq::new(futexes@.len(), |i: int| FutexEntry { addr: 0, waiters: 0 })); }
        }
        let mut sigs: Vec<SigAction> = Vec::new();
        while sigs.len() < NSIG_SLOTS
            invariant
                sigs@.len() <= NSIG_SLOTS,
                sigs@ == Seq::new(sigs@.len(), |i: int| SigAction::spec_empty()),
            decreases NSIG_SLOTS - sigs@.len(),
        {
            sigs.push(SigAction::empty());
            proof { assert(sigs@ =~= Seq::new(sigs@.len(), |i: int| SigAction::spec_empty())); }
        }
        let mut socks: Vec<SockEntry> = Vec::new();
        while socks.len() < MAX_SOCKS
            invariant
                socks@.len() <= MAX_SOCKS,
                socks@ == Seq::new(socks@.len(), |i: int| SockEntry::spec_empty()),
            decreases MAX_SOCKS - socks@.len(),
        {
            socks.push(SockEntry::empty());
            proof { assert(socks@ =~= Seq::new(socks@.len(), |i: int| SockEntry::spec_empty())); }
        }
        let s = CompatState {
            app_id: 0,
            domain_id: 0,
            mem: MemoryState { pool_base, bump: 0, brk: 0, maps, next_memfd: FIRST_MEMFD },
            fds,
            thr: ThreadState {
                threads,
                next_tid: FIRST_TID,
                futexes,
                sigs,
                sig_mask: 0,
                alt_stack: 0,
                alt_stack_size: 0,
                next_eventfd: FIRST_EVENTFD,
            },
            net: NetState { socks, next_sock: FIRST_SOCK, next_epfd: FIRST_EPFD },
            clock_ns: CLOCK_START_NS,
            tee_keys: 0,
            kernel: KernelState::new(),
            vpn: VpnState::new(),
        };
        proof {
            assert(s@.mem == CompatModel::initial(pool_base).mem);
            assert(s@.thr == CompatModel::initial(pool_base).thr);
            assert(s@.net == CompatModel::initial(pool_base).net);
        }
        s
    }
}

/// Sets the current app and its domain.
pub fn ztos_set_app_context(st: &mut CompatState, app_id: u32, domain_id: u32)
    ensures
        final(st)@ == (CompatModel { app_id, domain_id, ..old(st)@ }),
{
    st.app_id = app_id;
    st.domain_id = domain_id;
}

/// The current app.
pub fn ztos_get_current_app_id(st: &CompatState) -> (id: u32)
    ensures
        id == st.app_id,
{
    st.app_id
}

/// The current app's domain.
pub fn ztos_get_current_domain_id(st: &CompatState) -> (id: u32)
    ensures
        id == st.domain_id,
{
    st.domain_id
}

/// The current app.
pub fn current_app_id(st: &CompatState) -> (id: u32)
    ensures
        id == st.app_id,
{
    st.app_id
}

/// The current app's domain.
pub fn current_domain_id(st: &CompatState) -> (id: u32)
    ensures
        id == st.domain_id,
{
    st.domain_id
}

/// `prctl`: every option (thread name, seccomp, no-new-privs, parent death
/// signal, memory map, and the rest) is accepted and ignored.
pub fn handle_prctl_pub(option: u64, a1: u64, a2: u64, a3: u64, a4: u64) -> (r: i64)
    ensures
        r == 0,
{
    match option {
        15 | 16 | 36 | 38 | 1 | 22 => 0,
        _ => 0,
    }
}

/// `RLIMIT_STACK`.
pub const RLIMIT_STACK: u64 = 7;
/// `RLIMIT_AS`.
pub const RLIMIT_AS: u64 = 8;
/// The stack limit of an app: 8 MiB.
pub const STACK_LIMIT: u64 = 0x80_0000;

/// The `struct rlimit` reported for `resource`: 8 MiB for the stack, no
/// limit for everything else.
pub open spec fn rlimit_words(resource: u64) -> Seq<u64> {
    if resource == RLIMIT_STACK {
        seq![STACK_LIMIT, STACK_LIMIT]
    } else {
        seq![u64::MAX, u64::MAX]
    }
}

/// What `getrlimit(resource, rlim_ptr)` does.
pub open spec fn getrlimit_spec(resource: u64, rlim_ptr: u64) -> (i64, Seq<UserEffect>) {
    if rlim_ptr == 0 {
        (EFAULT, seq![])
    } else {
        (0, word_effects(rlim_ptr, rlimit_words(resource)))
    }
}

/// `getrlimit`.
pub fn handle_getrlimit_pub(resource: u64, rlim_ptr: u64, eff: &mut Vec<UserEffect>) -> (r: i64)
    ensures
        (r, final(eff)@) == {
            let x = getrlimit_spec(resource, rlim_ptr);
            (x.0, old(eff)@ + x.1)
        },
{
    if rlim_ptr == 0 {
        proof { assert(eff@ =~= old(eff)@ + seq![]); }
        return EFAULT;
    }
    let ws: Vec<u64> = match resource {
        7 => vec![8 * 1024 * 1024, 8 * 1024 * 1024],
        8 => vec![u64::MAX, u64::MAX],
        _ => vec![u64::MAX, u64::MAX],
    };
    proof { assert(ws@ =~= rlimit_words(resource)); }
    push_words(eff, rlim_ptr, &ws);
    0
}

/// The uid and gid every app runs as.
pub const APP_UID: i64 = 10000;
/// Longest stretch `getrandom` fills.
pub const RANDOM_MAX: u64 = 256;
/// Offset of each field of `struct utsname`.
pub const UTS_FIELD: u64 = 65;

/// Whether the check passes for an app that needs `needed`: network rights
/// need the network endpoint and a VPN whose kill switch is off, storage
/// needs the app's own storage endpoint, thread creation and the memory
/// rights (allocation, protection) the display endpoint, and debugging is
/// never allowed.
pub open spec fn check_cap_spec(k: KernelModel, app_id: u32, domain_id: u32, needed: u32) -> bool {
    let net = needed & (CAP_NET_SEND | CAP_NET_RECV);
    &&& net != 0 ==> has_capability_spec(k, app_id, NETWORK_ENDPOINT_ID, net) && !kill_switch_active(domain_id)
    &&& needed & CAP_APP_STORAGE != 0 ==> has_capability_spec(
        k,
        app_id,
        vstd::wrapping::u32_specs::wrapping_add(APP_STORAGE_BASE, app_id),
        CAP_APP_STORAGE,
    )
    &&& needed & CAP_THREAD_CREATE != 0 ==> has_capability_spec(k, app_id, DISPLAY_ENDPOINT_ID, CAP_THREAD_CREATE)
    &&& needed & CAP_MEMORY_ALLOC != 0 ==> has_capability_spec(k, app_id, DISPLAY_ENDPOINT_ID, CAP_MEMORY_ALLOC)
    &&& needed & CAP_MEMORY_PROT != 0 ==> has_capability_spec(k, app_id, DISPLAY_ENDPOINT_ID, CAP_MEMORY_PROT)
    &&& needed & CAP_DEBUG == 0
}

/// Checks the capabilities a syscall needs.
fn check_cap(k: &KernelState, app_id: u32, domain_id: u32, needed: u32, nr: u64) -> (ok: bool)
    ensures
        ok == check_cap_spec(k@, app_id, domain_id, needed),
{
    if needed & (CAP_NET_SEND | CAP_NET_RECV) != 0 {
        if !has_capability(k, app_id, NETWORK_ENDPOINT_ID, needed & (CAP_NET_SEND | CAP_NET_RECV)) {
            return false;
        }
        if vpn_kill_switch_active(domain_id) {
            return false;
        }
    }
    if needed & CAP_APP_STORAGE != 0 {
        let ep = APP_STORAGE_BASE.wrapping_add(app_id);
        if !has_capability(k, app_id, ep, CAP_APP_STORAGE) {
            return false;
        }
    }
    if needed & CAP_THREAD_CREATE != 0 {
        if !has_capability(k, app_id, DISPLAY_ENDPOINT_ID, CAP_THREAD_CREATE) {
            return false;
        }
    }
    if needed & CAP_MEMORY_ALLOC != 0 {
        if !has_capability(k, app_id, DISPLAY_ENDPOINT_ID, CAP_MEMORY_ALLOC) {
            return false;
        }
    }
    if needed & CAP_MEMORY_PROT != 0 {
        if !has_capability(k, app_id, DISPLAY_ENDPOINT_ID, CAP_MEMORY_PROT) {
            return false;
        }
    }
    if needed & CAP_DEBUG != 0 {
        return false;
    }
    true
}

/// The five fields of `struct utsname`: "Linux", "ztos-device",
/// "6.1.0-ztos", "#1 ZTOS SMP" and "aarch64", each NUL-terminated.
pub open spec fn uts_sysname() -> Seq<u8> {
    seq![0x4cu8, 0x69, 0x6e, 0x75, 0x78, 0x00]
}

pub open spec fn uts_nodename() -> Seq<u8> {
    seq![0x7au8, 0x74, 0x6f, 0x73, 0x2d, 0x64, 0x65, 0x76, 0x69, 0x63, 0x65, 0x00]
}

pub open spec fn uts_release() -> Seq<u8> {
    seq![0x36u8, 0x2e, 0x31, 0x2e, 0x30, 0x2d, 0x7a, 0x74, 0x6f, 0x73, 0x00]
}

pub open spec fn uts_version() -> Seq<u8> {
    seq![0x23u8, 0x31, 0x20, 0x5a, 0x54, 0x4f, 0x53, 0x20, 0x53, 0x4d, 0x50, 0x00]
}

pub open spec fn uts_machine() -> Seq<u8> {
    seq![0x61u8, 0x61, 0x72, 0x63, 0x68, 0x36, 0x34, 0x00]
}

/// The stores `uname` makes into the `struct utsname` at `p`.
pub open spec fn uname_effects(p: u64) -> Seq<UserEffect> {
    byte_effects(p, uts_sysname())
        + byte_effects(wadd(p, UTS_FIELD), uts_nodename())
        + byte_effects(wadd(p, (2 * UTS_FIELD) as u64), uts_release())
        + byte_effects(wadd(p, (3 * UTS_FIELD) as u64), uts_version())
        + byte_effects(wadd(p, (4 * UTS_FIELD) as u64), uts_machine())
}

/// `uname`: the layer presents itself as Linux 6.1 on AArch64.
pub fn handle_uname(buf_ptr: u64, eff: &mut Vec<UserEffect>) -> (r: i64)
    ensures
        buf_ptr == 0 ==> r == EFAULT && final(eff)@ == old(eff)@,
        buf_ptr != 0 ==> r == 0 && final(eff)@ == old(eff)@ + uname_effects(buf_ptr),
{
    if buf_ptr == 0 {
        return EFAULT;
    }
    let sysname: Vec<u8> = vec![0x4cu8, 0x69, 0x6e, 0x75, 0x78, 0x00];
    let nodename: Vec<u8> = vec![0x7au8, 0x74, 0x6f, 0x73, 0x2d, 0x64, 0x65, 0x76, 0x69, 0x63, 0x65, 0x00];
    let release: Vec<u8> = vec![0x36u8, 0x2e, 0x31, 0x2e, 0x30, 0x2d, 0x7a, 0x74, 0x6f, 0x73, 0x00];
    let version: Vec<u8> = vec![0x23u8, 0x31, 0x20, 0x5a, 0x54, 0x4f, 0x53, 0x20, 0x53, 0x4d, 0x50, 0x00];
    let machine: Vec<u8> = vec![0x61u8, 0x61, 0x72, 0x63, 0x68, 0x36, 0x34, 0x00];
    proof {
        assert(sysname@ =~= uts_sysname());
        assert(nodename@ =~= uts_nodename());
        assert(release@ =~= uts_release());
        assert(version@ =~= uts_version());
        assert(machine@ =~= uts_machine());
    }
    push_bytes(eff, buf_ptr, &sysname);
    push_bytes(eff, buf_ptr.wrapping_add(UTS_FIELD), &nodename);
    push_bytes(eff, buf_ptr.wrapping_add(2 * UTS_FIELD), &release);
    push_bytes(eff, buf_ptr.wrapping_add(3 * UTS_FIELD), &version);
    push_bytes(eff, buf_ptr.wrapping_add(4 * UTS_FIELD), &machine);
    proof { assert(eff@ =~= old(eff)@ + uname_effects(buf_ptr)); }
    0
}

/// What the process-information syscalls answer: the app id is the process
/// id, thread id 100 times it plus one, the parent is init, the uids and
/// gids are 10000, the CPU is 0.
pub open spec fn proc_info_spec(app_id: u32, nr: u64, a0: u64, a1: u64) -> (i64, Seq<UserEffect>) {
    if nr == SYS_GETPID {
        (app_id as i64, seq![])
    } else if nr == SYS_GETTID {
        (vstd::wrapping::u32_specs::wrapping_add(vstd::wrapping::u32_specs::wrapping_mul(app_id, 100), 1) as i64, seq![])
    } else if nr == SYS_GETPPID {
        (1, seq![])
    } else if nr == SYS_GETUID || nr == SYS_GETEUID || nr == SYS_GETGID || nr == SYS_GETEGID {
        (APP_UID, seq![])
    } else if nr == SYS_GETCPU || nr == SYS_SETRLIMIT || nr == SYS_PRCTL {
        (0, seq![])
    } else if nr == SYS_GETRLIMIT {
        getrlimit_spec(a0, a1)
    } else if nr == SYS_UNAME {
        if a0 == 0 { (EFAULT, seq![]) } else { (0, uname_effects(a0)) }
    } else {
        (EINVAL, seq![])
    }
}

fn handle_proc_info(st: &CompatState, nr: u64, a0: u64, a1: u64, a2: u64, eff: &mut Vec<UserEffect>) -> (r: i64)
    ensures
        (r, final(eff)@) == {
            let x = proc_info_spec(st.app_id, nr, a0, a1);
            (x.0, old(eff)@ + x.1)
        },
{
    let app_id = current_app_id(st);
    let r = match nr {
        SYS_GETPID => app_id as i64,
        SYS_GETTID => app_id.wrapping_mul(100).wrapping_add(1) as i64,
        SYS_GETPPID => 1,
        SYS_GETUID => APP_UID,
        SYS_GETEUID => APP_UID,
        SYS_GETGID => APP_UID,
        SYS_GETEGID => APP_UID,
        SYS_GETCPU => 0,
        SYS_GETRLIMIT => handle_getrlimit_pub(a0, a1, eff),
        SYS_SETRLIMIT => 0,
        SYS_PRCTL => handle_prctl_pub(a0, a1, a2, 0, 0),
        SYS_UNAME => handle_uname(a0, eff),
        _ => EINVAL,
    };
    proof { assert(eff@ =~= old(eff)@ + proc_info_spec(st.app_id, nr, a0, a1).1); }
    r
}

/// Byte `i` of what `getrandom` fills in.
pub open spec fn random_byte(i: int) -> u8 {
    (vstd::wrapping::u32_specs::wrapping_mul(i as u32, 0x9e37) ^ 0x5a5au32) as u8
}

/// What the stubbed syscalls answer: `getrandom` fills the first 256 bytes
/// of the buffer with a fixed pattern and reports the whole length; the
/// others succeed.
pub open spec fn stub_spec(nr: u64, a0: u64, a1: u64) -> (i64, Seq<UserEffect>) {
    if nr == SYS_GETRANDOM {
        if a0 == 0 {
            (EFAULT, seq![])
        } else {
            let n = if a1 < RANDOM_MAX { a1 } else { RANDOM_MAX };
            (a1 as i64, byte_effects(a0, Seq::new(n as nat, |i: int| random_byte(i))))
        }
    } else {
        (0, seq![])
    }
}

fn handle_stub(nr: u64, a0: u64, a1: u64, eff: &mut Vec<UserEffect>) -> (r: i64)
    ensures
        (r, final(eff)@) == {
            let x = stub_spec(nr, a0, a1);
            (x.0, old(eff)@ + x.1)
        },
{
    if nr == SYS_GETRANDOM {
        if a0 == 0 {
            proof { assert(eff@ =~= old(eff)@ + seq![]); }
            return EFAULT;
        }
        let n = if a1 < RANDOM_MAX { a1 } else { RANDOM_MAX };
        let ghost want = Seq::new(n as nat, |i: int| random_byte(i));
        let mut bytes: Vec<u8> = Vec::new();
        let mut i: u64 = 0;
        while i < n
            invariant
                n <= RANDOM_MAX,
                i <= n,
                want == Seq::new(n as nat, |j: int| random_byte(j)),
                bytes@ == want.take(i as int),
            decreases n - i,
        {
            let b = ((i as u32).wrapping_mul(0x9e37) ^ 0x5a5a) as u8;
            bytes.push(b);
            i = i + 1;
            proof { assert(bytes@ =~= want.take(i as int)); }
        }
        proof { assert(bytes@ =~= want); }
        push_bytes(eff, a0, &bytes);
        return a1 as i64;
    }
    proof { assert(eff@ =~= old(eff)@ + seq![]); }
    0
}

/// A bridge's step with no read of the caller's memory.
pub open spec fn done_step(s: CompatModel, x: (i64, Seq<UserEffect>)) -> (CompatModel, Reply) {
    (s, Reply::Done(x.0, x.1))
}

/// What the layer does with syscall `nr`: an unknown syscall is not
/// implemented; a syscall whose capabilities the app lacks is refused with
/// nothing changed; every other goes to the bridge of its category, and a
/// debugging syscall is refused there too.
pub open spec fn wrapper_step(s: CompatModel, nr: u64, a0: u64, a1: u64, a2: u64, a3: u64, a4: u64, a5: u64, input: Seq<UserData>)
    -> (CompatModel, Reply)
{
    match syscall_desc(nr) {
        None => (s, Reply::Done(ENOSYS, seq![])),
        Some(d) => if d.cap_needed != 0 && !check_cap_spec(s.kernel, s.app_id, s.domain_id, d.cap_needed) {
            (s, Reply::Done(EPERM, seq![]))
        } else {
            match d.category {
                SyscallCat::Memory => {
                    let x = crate::memory_bridge::memory_step(s, nr, a0, a1, a2, a3, a4, a5);
                    (x.0, Reply::Done(x.1, x.2))
                },
                SyscallCat::Io => crate::io_bridge::io_step(s, nr, a0, a1, a2, a3, a4, a5, input),
                SyscallCat::Thread => crate::thread_bridge::thread_step(s, nr, a0, a1, a2, a3, a4, a5, input),
                SyscallCat::Signal => crate::thread_bridge::signal_step(s, nr, a0, a1, a2, a3, a4, a5, input),
                SyscallCat::Sched => crate::sched_bridge::sched_step(s, nr, a0, a1, a2, a3, a4, a5, input),
                SyscallCat::Net => crate::net_bridge::net_step(s, nr, a0, a1, a2, a3, a4, a5, input),
                SyscallCat::ProcInfo => done_step(s, proc_info_spec(s.app_id, nr, a0, a1)),
                SyscallCat::Debug => (s, Reply::Done(EPERM, seq![])),
                SyscallCat::Noop => (s, Reply::Done(0, seq![])),
                SyscallCat::Stub => done_step(s, stub_spec(nr, a0, a1)),
            }
        },
    }
}

/// The layer's entry point: answers syscall `nr` with arguments `a0` to `a5`
/// for the current app; `input` holds the reads of the caller's memory made
/// so far.
pub fn ztos_syscall_wrapper(
    st: &mut CompatState,
    nr: u64,
    a0: u64,
    a1: u64,
    a2: u64,
    a3: u64,
    a4: u64,
    a5: u64,
    input: &Vec<UserData>,
) -> (out: Outcome)
    requires
        old(st)@.wf(),
    ensures
        final(st)@.wf(),
        (final(st)@, out@) == wrapper_step(old(st)@, nr, a0, a1, a2, a3, a4, a5, input@),
{
    let app_id = current_app_id(st);
    let domain_id = current_domain_id(st);
    let desc = match lookup(nr) {
        Some(d) => d,
        None => { return Outcome::Done(ENOSYS, Vec::new()); },
    };
    if desc.cap_needed != 0 && !check_cap(&st.kernel, app_id, domain_id, desc.cap_needed, nr) {
        return Outcome::Done(EPERM, Vec::new());
    }
    match desc.category {
        SyscallCat::Memory => crate::memory_bridge::handle(st, nr, a0, a1, a2, a3, a4, a5),
        SyscallCat::Io => crate::io_bridge::handle(st, nr, a0, a1, a2, a3, a4, a5, input),
        SyscallCat::Thread => crate::thread_bridge::handle(st, nr, a0, a1, a2, a3, a4, a5, input),
        SyscallCat::Signal => crate::thread_bridge::handle_signal(st, nr, a0, a1, a2, a3, a4, a5, input),
        SyscallCat::Sched => crate::sched_bridge::handle(st, nr, a0, a1, a2, a3, a4, a5, input),
        SyscallCat::Net => crate::net_bridge::handle(st, nr, a0, a1, a2, a3, a4, a5, input),
        SyscallCat::ProcInfo => {
            let mut eff: Vec<UserEffect> = Vec::new();
            let r = handle_proc_info(st, nr, a0, a1, a2, &mut eff);
            proof { assert(eff@ =~= seq![] + eff@); }
            Outcome::Done(r, eff)
        },
        SyscallCat::Debug => Outcome::Done(EPERM, Vec::new()),
        SyscallCat::Noop => Outcome::Done(0, Vec::new()),
        SyscallCat::Stub => {
            let mut eff: Vec<UserEffect> = Vec::new();
            let r = handle_stub(nr, a0, a1, &mut eff);
            proof { assert(eff@ =~= seq![] + eff@); }
            Outcome::Done(r, eff)
        },
    }
}

/// Whether syscall `nr` is a debugging one: `ptrace`, `process_vm_readv`,
/// `process_vm_writev`, `perf_event_open`.
pub open spec fn is_debug_syscall(nr: u64) -> bool {
    syscall_desc(nr) matches Some(d) && d.category == SyscallCat::Debug
}

/// The rights an app needs to run: storage, network, thread creation, memory
/// allocation and memory protection.
pub open spec fn app_rights() -> u32 {
    CAP_APP_STORAGE | CAP_NET_SEND | CAP_NET_RECV | CAP_THREAD_CREATE | CAP_MEMORY_ALLOC | CAP_MEMORY_PROT
}

/// Whether syscall `nr` needs one of the rights an app needs to run.
pub open spec fn needs_app_rights(nr: u64) -> bool {
    syscall_desc(nr) matches Some(d) && d.cap_needed & app_rights() != 0
}

/// Whether the kernel grants the current app nothing: there is no app (app
/// id 0), or the app's capabilities were revoked.
pub open spec fn app_without_rights(s: CompatModel) -> bool {
    s.app_id == 0 || s.kernel.revoked.contains(s.app_id)
}

/// A syscall the table does not know is answered "not implemented", and
/// nothing changes.
pub proof fn law_unknown_syscall(s: CompatModel, nr: u64, a0: u64, a1: u64, a2: u64, a3: u64, a4: u64, a5: u64, input: Seq<UserData>)
    requires
        syscall_desc(nr) is None,
    ensures
        wrapper_step(s, nr, a0, a1, a2, a3, a4, a5, input) == (s, Reply::Done(ENOSYS, seq![])),
{
}

/// Debugging syscalls are refused to every app, whatever its rights, and
/// nothing changes.
pub proof fn law_debug_always_refused(s: CompatModel, nr: u64, a0: u64, a1: u64, a2: u64, a3: u64, a4: u64, a5: u64, input: Seq<UserData>)
    requires
        is_debug_syscall(nr),
    ensures
        wrapper_step(s, nr, a0, a1, a2, a3, a4, a5, input) == (s, Reply::Done(EPERM, seq![])),
{
}

/// Bits of a mask that meets the union of six bits meet one of them.
pub proof fn lemma_mask_meets(x: u32, a: u32, b: u32, c: u32, d: u32, e: u32, f: u32)
    requires
        x & (a | b | c | d | e | f) != 0,
    ensures
        x & a != 0 || x & b != 0 || x & c != 0 || x & d != 0 || x & e != 0 || x & f != 0,
{
    assert(x & (a | b | c | d | e | f) != 0 ==> x & a != 0 || x & b != 0 || x & c != 0 || x & d != 0
        || x & e != 0 || x & f != 0) by (bit_vector);
}

/// An app without rights (no app, or one whose capabilities were revoked)
/// gets nothing through that needs storage, network, thread or memory
/// rights, and nothing changes.
pub proof fn law_no_app_no_rights(s: CompatModel, nr: u64, a0: u64, a1: u64, a2: u64, a3: u64, a4: u64, a5: u64, input: Seq<UserData>)
    requires
        app_without_rights(s),
        needs_app_rights(nr),
    ensures
        wrapper_step(s, nr, a0, a1, a2, a3, a4, a5, input) == (s, Reply::Done(EPERM, seq![])),
{
    let d = syscall_desc(nr)->Some_0;
    let x = d.cap_needed;
    lemma_mask_meets(x, CAP_APP_STORAGE, CAP_NET_SEND, CAP_NET_RECV, CAP_THREAD_CREATE, CAP_MEMORY_ALLOC, CAP_MEMORY_PROT);
    assert(x & CAP_NET_SEND != 0 || x & CAP_NET_RECV != 0 ==> x & (CAP_NET_SEND | CAP_NET_RECV) != 0) by (bit_vector);
    assert(x & (CAP_APP_STORAGE | CAP_NET_SEND | CAP_NET_RECV | CAP_THREAD_CREATE | CAP_MEMORY_ALLOC | CAP_MEMORY_PROT) != 0 ==> x != 0) by (bit_vector);
    assert(!check_cap_spec(s.kernel, s.app_id, s.domain_id, d.cap_needed));
}

/// A syscall that still needs to read the caller's memory has changed
/// nothing yet: reads come before every change.
pub proof fn law_reads_come_first(s: CompatModel, nr: u64, a0: u64, a1: u64, a2: u64, a3: u64, a4: u64, a5: u64, input: Seq<UserData>)
    requires
        wrapper_step(s, nr, a0, a1, a2, a3, a4, a5, input).1 is NeedRead,
    ensures
        wrapper_step(s, nr, a0, a1, a2, a3, a4, a5, input).0 == s,
{
}

/// An app that holds its rights (not app 0, not revoked) gets its network
/// syscalls through: with the compatibility VPN always up, a syscall the
/// table files under the network that needs network rights only is answered
/// by the network bridge, as if there were no check.
pub proof fn law_network_allowed(s: CompatModel, nr: u64, a0: u64, a1: u64, a2: u64, a3: u64, a4: u64, a5: u64, input: Seq<UserData>)
    requires
        s.app_id != 0,
        !s.kernel.revoked.contains(s.app_id),
        syscall_desc(nr) matches Some(d) && d.category == SyscallCat::Net
            && d.cap_needed & !(CAP_NET_SEND | CAP_NET_RECV) == 0,
    ensures
        wrapper_step(s, nr, a0, a1, a2, a3, a4, a5, input)
            == crate::net_bridge::net_step(s, nr, a0, a1, a2, a3, a4, a5, input),
{
    let x = syscall_desc(nr)->Some_0.cap_needed;
    assert(x & !(CAP_NET_SEND | CAP_NET_RECV) == 0 ==> x & CAP_APP_STORAGE == 0 && x & CAP_THREAD_CREATE == 0
        && x & CAP_MEMORY_ALLOC == 0 && x & CAP_MEMORY_PROT == 0 && x & CAP_DEBUG == 0
        && (x & (CAP_NET_SEND | CAP_NET_RECV)) & CAP_DEBUG == 0) by (bit_vector);
    assert(check_cap_spec(s.kernel, s.app_id, s.domain_id, x));
}

} // verus!
