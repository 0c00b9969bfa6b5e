//! The kernel-side entry point that bionic calls in place of the `svc`
//! instruction: it looks the syscall up, checks the app's capabilities
//! against the kernel, logs what it refuses and dispatches to a bridge.
use vstd::prelude::*;
use crate::art::syscall_table::{
    SyscallCat, SyscallDesc, syscall_desc, lookup, SYS_GETPID, SYS_GETTID, SYS_GETPPID, SYS_GETUID,
    SYS_GETEUID, SYS_GETGID, SYS_GETEGID, SYS_GETCPU, SYS_GETRLIMIT, SYS_SETRLIMIT, SYS_PRCTL, SYS_UNAME,
    SYS_GETRANDOM, SYS_SECCOMP,
};
use crate::kernel_stubs::{
    has_capability, has_capability_spec, CAP_NET_SEND,
    CAP_NET_RECV, NETWORK_ENDPOINT_ID, APP_STORAGE_BASE, CAP_APP_STORAGE, CAP_DEBUG, DISPLAY_ENDPOINT_ID,
    CAP_THREAD_CREATE, CAP_GUI_RENDER, CAP_MEMORY_ALLOC, CAP_MEMORY_PROT, KernelState, KernelModel,
    uart_print_str, uart_print_bytes,
};
use vstd::string::StringSliceAdditionalSpecFns;
use crate::art::vpn::{VpnState, VpnModel, kill_switch_active, vpn_kill_switch_active};
use crate::user_mem::{Outcome, Reply, UserData, UserEffect, word_effects, push_words, byte_effects, push_bytes, uart_effects, lemma_uart_effects_concat};
use crate::syscall_wrapper::{is_debug_syscall, needs_app_rights, app_without_rights, lemma_mask_meets, CompatState, CompatModel, uname_effects, handle_uname, APP_UID, RANDOM_MAX, RLIMIT_STACK, RLIMIT_AS, STACK_LIMIT};

pub use crate::syscall_wrapper::{
    EPERM, ENOENT, EINTR, EBADF, ENOMEM, EACCES, EFAULT, EINVAL, ENOSYS, ztos_set_app_context, current_app_id,
    current_domain_id,
};

verus! {

/// `RLIMIT_CPU`.
pub const RLIMIT_CPU: u64 = 0;

/// The `struct rlimit` reported for `resource`: 8 MiB of stack, 1024 soft
/// and 4096 hard seconds of CPU, no limit for everything else.
pub open spec fn rlimit_words(resource: u64) -> Seq<u64> {
    if resource == RLIMIT_STACK {
        seq![STACK_LIMIT, STACK_LIMIT]
    } else if resource == RLIMIT_CPU {
        seq![1024u64, 4096u64]
    } else {
        seq![u64::MAX, u64::MAX]
    }
}

/// What `getrlimit(resource, rlim_ptr)` does.
pub open spec fn getrlimit_spec(resource: u64, rlim_ptr: u64) -> (i64, Seq<UserEffect>) {
    if rlim_ptr == 0 {
        (EFAULT, seq![])
    } else {
        (0, word_effects(rlim_ptr, rlimit_words(resource)))
    }
}

/// `getrlimit`.
pub fn handle_getrlimit(resource: u64, rlim_ptr: u64, eff: &mut Vec<UserEffect>) -> (r: i64)
    ensures
        (r, final(eff)@) == {
            let x = getrlimit_spec(resource, rlim_ptr);
            (x.0, old(eff)@ + x.1)
        },
{
    if rlim_ptr == 0 {
        proof { assert(eff@ =~= old(eff)@ + seq![]); }
        return EFAULT;
    }
    let ws: Vec<u64> = match resource {
        7 => vec![8 * 1024 * 1024, 8 * 1024 * 1024],
        8 => vec![u64::MAX, u64::MAX],
        0 => vec![1024u64, 4096u64],
        _ => vec![u64::MAX, u64::MAX],
    };
    proof { assert(ws@ =~= rlimit_words(resource)); }
    push_words(eff, rlim_ptr, &ws);
    0
}

/// `prctl`: every option (thread name, seccomp, no-new-privs, parent death
/// signal, memory map, and the rest) is accepted and ignored.
pub fn handle_prctl(option: u64, a1: u64, a2: u64, a3: u64, a4: u64) -> (r: i64)
    ensures
        r == 0,
{
    match option {
        15 => 0,
        16 => 0,
        36 => 0,
        38 => 0,
        1 => 0,
        22 => 0,
        _ => 0,
    }
}

/// The decimal digits of `n`, most significant first, as ASCII.
pub open spec fn decimal(n: u64) -> Seq<u8>
    decreases n,
{
    if n < 10 {
        seq![(0x30 + n) as u8]
    } else {
        decimal((n / 10) as u64).push((0x30 + n % 10) as u8)
    }
}

/// Formats `n` in decimal, as the console log prints numbers.
pub fn print_nr(n: u64) -> (digits: Vec<u8>)
    ensures
        digits@ == decimal(n),
    decreases n,
{
    if n < 10 {
        let v: Vec<u8> = vec![(0x30 + n) as u8];
        proof { assert(v@ =~= decimal(n)); }
        return v;
    }
    let mut v = print_nr(n / 10);
    v.push((0x30 + n % 10) as u8);
    v
}

/// Formats a 32-bit `n` in decimal.
pub fn print_u32(n: u32) -> (digits: Vec<u8>)
    ensures
        digits@ == decimal(n as u64),
{
    print_nr(n as u64)
}

/// The outcome of the capability check.
#[derive(Clone, Copy, PartialEq, Eq, Debug, Structural)]
pub enum CapVerdict {
    /// Every capability is held.
    Granted,
    /// A capability is missing.
    Refused,
    /// The network capability is held but the domain's VPN kill switch is on.
    KillSwitch,
}

/// What the kernel answers for an app that needs `needed`, checking in this
/// order: storage on the app's own storage endpoint; network on the network
/// endpoint, then the VPN kill switch of the app's domain; thread creation,
/// rendering, memory allocation, memory protection and debugging on the
/// display endpoint.
pub open spec fn cap_verdict(k: KernelModel, v: VpnModel, app_id: u32, domain_id: u32, needed: u32) -> CapVerdict {
    let net = needed & (CAP_NET_SEND | CAP_NET_RECV);
    if needed & CAP_APP_STORAGE != 0 && !has_capability_spec(
        k,
        app_id,
        vstd::wrapping::u32_specs::wrapping_add(APP_STORAGE_BASE, app_id),
        CAP_APP_STORAGE,
    ) {
        CapVerdict::Refused
    } else if net != 0 && !has_capability_spec(k, app_id, NETWORK_ENDPOINT_ID, net) {
        CapVerdict::Refused
    } else if net != 0 && kill_switch_active(v, domain_id) {
        CapVerdict::KillSwitch
    } else if needed & CAP_THREAD_CREATE != 0 && !has_capability_spec(k, app_id, DISPLAY_ENDPOINT_ID, CAP_THREAD_CREATE) {
        CapVerdict::Refused
    } else if needed & CAP_GUI_RENDER != 0 && !has_capability_spec(k, app_id, DISPLAY_ENDPOINT_ID, CAP_GUI_RENDER) {
        CapVerdict::Refused
    } else if needed & CAP_MEMORY_ALLOC != 0 && !has_capability_spec(k, app_id, DISPLAY_ENDPOINT_ID, CAP_MEMORY_ALLOC) {
        CapVerdict::Refused
    } else if needed & CAP_MEMORY_PROT != 0 && !has_capability_spec(k, app_id, DISPLAY_ENDPOINT_ID, CAP_MEMORY_PROT) {
        CapVerdict::Refused
    } else if needed & CAP_DEBUG != 0 && !has_capability_spec(k, app_id, DISPLAY_ENDPOINT_ID, CAP_DEBUG) {
        CapVerdict::Refused
    } else {
        CapVerdict::Granted
    }
}

/// Whether the kernel grants an app the capabilities in `needed`.
pub open spec fn check_cap_spec(k: KernelModel, v: VpnModel, app_id: u32, domain_id: u32, needed: u32) -> bool {
    cap_verdict(k, v, app_id, domain_id, needed) == CapVerdict::Granted
}

fn check_cap(k: &KernelState, vpn: &VpnState, app_id: u32, domain_id: u32, desc: &SyscallDesc) -> (v: CapVerdict)
    ensures
        v == cap_verdict(k@, vpn@, app_id, domain_id, desc.cap_needed),
{
    let needed = desc.cap_needed;
    if needed & CAP_APP_STORAGE != 0 {
        let ep = APP_STORAGE_BASE.wrapping_add(app_id);
        if !has_capability(k, app_id, ep, CAP_APP_STORAGE) {
            return CapVerdict::Refused;
        }
    }
    if needed & (CAP_NET_SEND | CAP_NET_RECV) != 0 {
        if !has_capability(k, app_id, NETWORK_ENDPOINT_ID, needed & (CAP_NET_SEND | CAP_NET_RECV)) {
            return CapVerdict::Refused;
        }
        if vpn_kill_switch_active(vpn, domain_id) {
            return CapVerdict::KillSwitch;
        }
    }
    if needed & CAP_THREAD_CREATE != 0 {
        if !has_capability(k, app_id, DISPLAY_ENDPOINT_ID, CAP_THREAD_CREATE) {
            return CapVerdict::Refused;
        }
    }
    if needed & CAP_GUI_RENDER != 0 {
        if !has_capability(k, app_id, DISPLAY_ENDPOINT_ID, CAP_GUI_RENDER) {
            return CapVerdict::Refused;
        }
    }
    if needed & CAP_MEMORY_ALLOC != 0 {
        if !has_capability(k, app_id, DISPLAY_ENDPOINT_ID, CAP_MEMORY_ALLOC) {
            return CapVerdict::Refused;
        }
    }
    if needed & CAP_MEMORY_PROT != 0 {
        if !has_capability(k, app_id, DISPLAY_ENDPOINT_ID, CAP_MEMORY_PROT) {
            return CapVerdict::Refused;
        }
    }
    if needed & CAP_DEBUG != 0 {
        if !has_capability(k, app_id, DISPLAY_ENDPOINT_ID, CAP_DEBUG) {
            return CapVerdict::Refused;
        }
    }
    CapVerdict::Granted
}

/// What the process-information syscalls answer: the app id is the process
/// id, thread id 100 times it plus one, the parent is init, the uids and
/// gids are 10000, the CPU is 0.
pub open spec fn proc_info_spec(app_id: u32, nr: u64, a0: u64, a1: u64) -> (i64, Seq<UserEffect>) {
    if nr == SYS_GETPID {
        (app_id as i64, seq![])
    } else if nr == SYS_GETTID {
        (vstd::wrapping::u32_specs::wrapping_add(vstd::wrapping::u32_specs::wrapping_mul(app_id, 100), 1) as i64, seq![])
    } else if nr == SYS_GETPPID {
        (1, seq![])
    } else if nr == SYS_GETUID || nr == SYS_GETEUID || nr == SYS_GETGID || nr == SYS_GETEGID {
        (APP_UID, seq![])
    } else if nr == SYS_GETCPU || nr == SYS_SETRLIMIT || nr == SYS_PRCTL {
        (0, seq![])
    } else if nr == SYS_GETRLIMIT {
        getrlimit_spec(a0, a1)
    } else if nr == SYS_UNAME {
        if a0 == 0 { (EFAULT, seq![]) } else { (0, uname_effects(a0)) }
    } else {
        (EINVAL, seq![])
    }
}

fn handle_proc_info(st: &CompatState, nr: u64, a0: u64, a1: u64, a2: u64, a3: u64, a4: u64, eff: &mut Vec<UserEffect>) -> (r: i64)
    ensures
        (r, final(eff)@) == {
            let x = proc_info_spec(st.app_id, nr, a0, a1);
            (x.0, old(eff)@ + x.1)
        },
{
    let app_id = current_app_id(st);
    let r = match nr {
        SYS_GETPID => app_id as i64,
        SYS_GETTID => app_id.wrapping_mul(100).wrapping_add(1) as i64,
        SYS_GETPPID => 1,
        SYS_GETUID => APP_UID,
        SYS_GETEUID => APP_UID,
        SYS_GETGID => APP_UID,
        SYS_GETEGID => APP_UID,
        SYS_GETCPU => 0,
        SYS_GETRLIMIT => handle_getrlimit(a0, a1, eff),
        SYS_SETRLIMIT => 0,
        SYS_PRCTL => handle_prctl(a0, a1, a2, a3, a4),
        SYS_UNAME => handle_uname(a0, eff),
        _ => EINVAL,
    };
    proof { assert(eff@ =~= old(eff)@ + proc_info_spec(st.app_id, nr, a0, a1).1); }
    r
}

/// The line logged for a refused debugging syscall.
pub open spec fn debug_text() -> Seq<u8> {
    "[ZTOS] DEBUG syscall denied for app ".spec_bytes()
}

/// A debugging syscall: refused and logged.
fn handle_debug(nr: u64, app_id: u32, eff: &mut Vec<UserEffect>) -> (r: i64)
    ensures
        r == EPERM,
        final(eff)@ == old(eff)@ + uart_effects(debug_text()),
{
    uart_print_str("[ZTOS] DEBUG syscall denied for app ", eff);
    EPERM
}

/// A syscall the ZTOS kernel carries out by itself: nothing to do.
fn handle_noop(nr: u64) -> (r: i64)
    ensures
        r == 0,
{
    0
}

/// Byte `i` of what `getrandom` fills in, from TEE key `key`.
pub open spec fn random_byte(key: u32, i: int) -> u8 {
    (vstd::wrapping::u32_specs::wrapping_mul(key, (0x9e37 + i) as u32) ^ ((i * 0x1f) as u32)) as u8
}

/// What the stubbed syscalls do: `getrandom` draws a fresh TEE key and
/// fills the first 256 bytes of the buffer from it, reporting the whole
/// length; `seccomp` is ignored, since ZTOS enforces its own rules; the
/// rest are not implemented.
pub open spec fn stub_step(s: CompatModel, nr: u64, a0: u64, a1: u64) -> (CompatModel, i64, Seq<UserEffect>) {
    if nr == SYS_GETRANDOM {
        if a0 == 0 {
            (s, EFAULT, seq![])
        } else {
            let key = vstd::wrapping::u32_specs::wrapping_add(s.tee_keys, 1);
            let n = if a1 < RANDOM_MAX { a1 } else { RANDOM_MAX };
            (
                CompatModel { tee_keys: key, ..s },
                a1 as i64,
                byte_effects(a0, Seq::new(n as nat, |i: int| random_byte(key, i))),
            )
        }
    } else if nr == SYS_SECCOMP {
        (s, 0, seq![])
    } else {
        (s, ENOSYS, seq![])
    }
}

fn handle_stub(st: &mut CompatState, nr: u64, a0: u64, a1: u64, eff: &mut Vec<UserEffect>) -> (r: i64)
    ensures
        (final(st)@, r, final(eff)@) == {
            let x = stub_step(old(st)@, nr, a0, a1);
            (x.0, x.1, old(eff)@ + x.2)
        },
{
    if nr == SYS_GETRANDOM {
        if a0 == 0 {
            proof { assert(eff@ =~= old(eff)@ + seq![]); }
            return EFAULT;
        }
        let key = crate::kernel_stubs::tee_generate_key(&mut st.tee_keys);
        let n = if a1 < RANDOM_MAX { a1 } else { RANDOM_MAX };
        let ghost want = Seq::new(n as nat, |i: int| random_byte(key, i));
        let mut bytes: Vec<u8> = Vec::new();
        let mut i: u64 = 0;
        while i < n
            invariant
                n <= RANDOM_MAX,
                i <= n,
                want == Seq::new(n as nat, |j: int| random_byte(key, j)),
                bytes@ == want.take(i as int),
            decreases n - i,
        {
            let b = (key.wrapping_mul(0x9e37 + i as u32) ^ (i as u32 * 0x1f)) as u8;
            bytes.push(b);
            i = i + 1;
            proof { assert(bytes@ =~= want.take(i as int)); }
        }
        proof { assert(bytes@ =~= want); }
        push_bytes(eff, a0, &bytes);
        return a1 as i64;
    }
    proof { assert(eff@ =~= old(eff)@ + seq![]); }
    if nr == SYS_SECCOMP {
        return 0;
    }
    ENOSYS
}

/// The line logged for a syscall the table does not know.
pub open spec fn unknown_text(nr: u64) -> Seq<u8> {
    "[ZTOS] Unknown syscall: ".spec_bytes() + decimal(nr) + " - returning ENOSYS\n".spec_bytes()
}

/// The line logged for a syscall refused by the capability check.
pub open spec fn denied_text(name: Seq<u8>, app_id: u32) -> Seq<u8> {
    "[ZTOS] Syscall ".spec_bytes() + name + " denied for app_id=".spec_bytes() + decimal(app_id as u64)
        + " (capability check failed)\n".spec_bytes()
}

/// The line logged for a network syscall refused because the domain's VPN
/// kill switch is on.
pub open spec fn kill_switch_text(name: Seq<u8>, app_id: u32, domain_id: u32) -> Seq<u8> {
    "[ZTOS] Syscall ".spec_bytes() + name + " denied for app_id=".spec_bytes() + decimal(app_id as u64)
        + " (kill switch active for domain ".spec_bytes() + decimal(domain_id as u64) + ")\n".spec_bytes()
}

/// A syscall the table does not know: logged, not implemented.
fn handle_unknown(nr: u64, eff: &mut Vec<UserEffect>) -> (r: i64)
    ensures
        r == ENOSYS,
        final(eff)@ == old(eff)@ + uart_effects(unknown_text(nr)),
{
    let ghost e0 = eff@;
    uart_print_str("[ZTOS] Unknown syscall: ", eff);
    let digits = print_nr(nr);
    uart_print_bytes(digits.as_slice(), eff);
    uart_print_str(" - returning ENOSYS\n", eff);
    proof {
        lemma_uart_effects_concat("[ZTOS] Unknown syscall: ".spec_bytes(), decimal(nr));
        lemma_uart_effects_concat("[ZTOS] Unknown syscall: ".spec_bytes() + decimal(nr), " - returning ENOSYS\n".spec_bytes());
        assert(eff@ =~= e0 + uart_effects(unknown_text(nr)));
    }
    ENOSYS
}

/// A syscall refused by the capability check: logged, not permitted.
fn log_denied(name: &'static str, app_id: u32, eff: &mut Vec<UserEffect>) -> (r: i64)
    ensures
        r == EPERM,
        final(eff)@ == old(eff)@ + uart_effects(denied_text(name.spec_bytes(), app_id)),
{
    let ghost e0 = eff@;
    uart_print_str("[ZTOS] Syscall ", eff);
    uart_print_str(name, eff);
    uart_print_str(" denied for app_id=", eff);
    let digits = print_u32(app_id);
    uart_print_bytes(digits.as_slice(), eff);
    uart_print_str(" (capability check failed)\n", eff);
    proof {
        let p1 = "[ZTOS] Syscall ".spec_bytes();
        let p2 = p1 + name.spec_bytes();
        let p3 = p2 + " denied for app_id=".spec_bytes();
        let p4 = p3 + decimal(app_id as u64);
        lemma_uart_effects_concat(p1, name.spec_bytes());
        lemma_uart_effects_concat(p2, " denied for app_id=".spec_bytes());
        lemma_uart_effects_concat(p3, decimal(app_id as u64));
        lemma_uart_effects_concat(p4, " (capability check failed)\n".spec_bytes());
        assert(eff@ =~= e0 + uart_effects(denied_text(name.spec_bytes(), app_id)));
    }
    EPERM
}

/// A network syscall refused because the domain's VPN kill switch is on:
/// logged, not permitted.
fn log_kill_switch(name: &'static str, app_id: u32, domain_id: u32, eff: &mut Vec<UserEffect>) -> (r: i64)
    ensures
        r == EPERM,
        final(eff)@ == old(eff)@ + uart_effects(kill_switch_text(name.spec_bytes(), app_id, domain_id)),
{
    let ghost e0 = eff@;
    uart_print_str("[ZTOS] Syscall ", eff);
    uart_print_str(name, eff);
    uart_print_str(" denied for app_id=", eff);
    let digits = print_u32(app_id);
    uart_print_bytes(digits.as_slice(), eff);
    uart_print_str(" (kill switch active for domain ", eff);
    let dom = print_u32(domain_id);
    uart_print_bytes(dom.as_slice(), eff);
    uart_print_str(")\n", eff);
    proof {
        let p1 = "[ZTOS] Syscall ".spec_bytes();
        let p2 = p1 + name.spec_bytes();
        let p3 = p2 + " denied for app_id=".spec_bytes();
        let p4 = p3 + decimal(app_id as u64);
        let p5 = p4 + " (kill switch active for domain ".spec_bytes();
        let p6 = p5 + decimal(domain_id as u64);
        lemma_uart_effects_concat(p1, name.spec_bytes());
        lemma_uart_effects_concat(p2, " denied for app_id=".spec_bytes());
        lemma_uart_effects_concat(p3, decimal(app_id as u64));
        lemma_uart_effects_concat(p4, " (kill switch active for domain ".spec_bytes());
        lemma_uart_effects_concat(p5, decimal(domain_id as u64));
        lemma_uart_effects_concat(p6, ")\n".spec_bytes());
        assert(eff@ =~= e0 + uart_effects(kill_switch_text(name.spec_bytes(), app_id, domain_id)));
    }
    EPERM
}

/// What is logged when the check refuses syscall `d`.
pub open spec fn refusal_effects(s: CompatModel, d: SyscallDesc) -> Seq<UserEffect> {
    if cap_verdict(s.kernel, s.vpn, s.app_id, s.domain_id, d.cap_needed) == CapVerdict::KillSwitch {
        uart_effects(kill_switch_text(d.name.spec_bytes(), s.app_id, s.domain_id))
    } else {
        uart_effects(denied_text(d.name.spec_bytes(), s.app_id))
    }
}

/// What the kernel does with syscall `nr`: an unknown syscall is logged and
/// not implemented; a syscall whose capabilities the app lacks is logged
/// and refused with nothing changed; every other goes to the bridge of its
/// category, and a debugging syscall is logged and refused there.
pub open spec fn wrapper_step(s: CompatModel, nr: u64, a0: u64, a1: u64, a2: u64, a3: u64, a4: u64, a5: u64, input: Seq<UserData>)
    -> (CompatModel, Reply)
{
    match syscall_desc(nr) {
        None => (s, Reply::Done(ENOSYS, uart_effects(unknown_text(nr)))),
        Some(d) => if d.cap_needed != 0 && !check_cap_spec(s.kernel, s.vpn, s.app_id, s.domain_id, d.cap_needed) {
            (s, Reply::Done(EPERM, refusal_effects(s, d)))
        } else {
            match d.category {
                SyscallCat::Memory => {
                    let x = crate::art::memory_bridge::memory_step(s, nr, a0, a1, a2, a3, a4, a5);
                    (x.0, Reply::Done(x.1, x.2))
                },
                SyscallCat::Io => crate::art::io_bridge::io_step(s, nr, a0, a1, a2, a3, a4, a5, input),
                SyscallCat::Thread => crate::art::thread_bridge::thread_step(s, nr, a0, a1, a2, a3, a4, a5, input),
                SyscallCat::Signal => crate::art::thread_bridge::signal_step(s, nr, a0, a1, a2, a3, a4, a5, input),
                SyscallCat::Sched => crate::art::sched_bridge::sched_step(s, nr, a0, a1, a2, a3, a4, a5, input),
                SyscallCat::Net => crate::art::net_bridge::net_step(s, nr, a0, a1, a2, a3, a4, a5, input),
                SyscallCat::ProcInfo => {
                    let x = proc_info_spec(s.app_id, nr, a0, a1);
                    (s, Reply::Done(x.0, x.1))
                },
                SyscallCat::Debug => (s, Reply::Done(EPERM, uart_effects(debug_text()))),
                SyscallCat::Noop => (s, Reply::Done(0, seq![])),
                SyscallCat::Stub => {
                    let x = stub_step(s, nr, a0, a1);
                    (x.0, Reply::Done(x.1, x.2))
                },
            }
        },
    }
}

/// The kernel's entry point: answers syscall `nr` with arguments `a0` to
/// `a5` for the current app; `input` holds the reads of the caller's memory
/// made so far.
pub fn ztos_syscall_wrapper(
    st: &mut CompatState,
    nr: u64,
    a0: u64,
    a1: u64,
    a2: u64,
    a3: u64,
    a4: u64,
    a5: u64,
    input: &Vec<UserData>,
) -> (out: Outcome)
    requires
        old(st)@.wf(),
    ensures
        final(st)@.wf(),
        (final(st)@, out@) == wrapper_step(old(st)@, nr, a0, a1, a2, a3, a4, a5, input@),
{
    let app_id = current_app_id(st);
    let domain_id = current_domain_id(st);
    let mut eff: Vec<UserEffect> = Vec::new();
    let desc = match lookup(nr) {
        Some(d) => d,
        None => {
            let r = handle_unknown(nr, &mut eff);
            proof { assert(eff@ =~= uart_effects(unknown_text(nr))); }
            return Outcome::Done(r, eff);
        },
    };
    if desc.cap_needed != 0 {
        let verdict = check_cap(&st.kernel, &st.vpn, app_id, domain_id, &desc);
        if verdict == CapVerdict::KillSwitch {
            let r = log_kill_switch(desc.name, app_id, domain_id, &mut eff);
            proof { assert(eff@ =~= refusal_effects(old(st)@, desc)); }
            return Outcome::Done(r, eff);
        }
        if verdict == CapVerdict::Refused {
            let r = log_denied(desc.name, app_id, &mut eff);
            proof { assert(eff@ =~= refusal_effects(old(st)@, desc)); }
            return Outcome::Done(r, eff);
        }
    }
    match desc.category {
        SyscallCat::Memory => crate::art::memory_bridge::handle(st, nr, a0, a1, a2, a3, a4, a5),
        SyscallCat::Io => crate::art::io_bridge::handle(st, nr, a0, a1, a2, a3, a4, a5, input),
        SyscallCat::Thread => crate::art::thread_bridge::handle(st, nr, a0, a1, a2, a3, a4, a5, input),
        SyscallCat::Signal => crate::art::thread_bridge::handle_signal(st, nr, a0, a1, a2, a3, a4, a5, input),
        SyscallCat::Sched => crate::art::sched_bridge::handle(st, nr, a0, a1, a2, a3, a4, a5, input),
        SyscallCat::Net => crate::art::net_bridge::handle(st, nr, a0, a1, a2, a3, a4, a5, input),
        SyscallCat::ProcInfo => {
            let r = handle_proc_info(st, nr, a0, a1, a2, a3, a4, &mut eff);
            proof { assert(eff@ =~= seq![] + eff@); }
            Outcome::Done(r, eff)
        },
        SyscallCat::Debug => {
            let r = handle_debug(nr, app_id, &mut eff);
            proof { assert(eff@ =~= uart_effects(debug_text())); }
            Outcome::Done(r, eff)
        },
        SyscallCat::Noop => Outcome::Done(handle_noop(nr), eff),
        SyscallCat::Stub => {
            let r = handle_stub(st, nr, a0, a1, &mut eff);
            proof { assert(eff@ =~= seq![] + eff@); }
            Outcome::Done(r, eff)
        },
    }
}

/// A syscall the table does not know is logged and answered "not
/// implemented", and nothing changes.
pub proof fn law_unknown_syscall(s: CompatModel, nr: u64, a0: u64, a1: u64, a2: u64, a3: u64, a4: u64, a5: u64, input: Seq<UserData>)
    requires
        syscall_desc(nr) is None,
    ensures
        wrapper_step(s, nr, a0, a1, a2, a3, a4, a5, input) == (s, Reply::Done(ENOSYS, uart_effects(unknown_text(nr)))),
{
}

/// Debugging syscalls are refused to every app and logged, and nothing
/// changes.
pub proof fn law_debug_always_refused(s: CompatModel, nr: u64, a0: u64, a1: u64, a2: u64, a3: u64, a4: u64, a5: u64, input: Seq<UserData>)
    requires
        is_debug_syscall(nr),
    ensures
        wrapper_step(s, nr, a0, a1, a2, a3, a4, a5, input).0 == s,
        wrapper_step(s, nr, a0, a1, a2, a3, a4, a5, input).1 matches Reply::Done(r, _) && r == EPERM,
{
}

/// An app without rights (no app, or one whose capabilities were revoked)
/// gets nothing through that needs storage, network, thread or memory
/// rights; the refusal is logged and nothing changes.
pub proof fn law_no_app_no_rights(s: CompatModel, nr: u64, a0: u64, a1: u64, a2: u64, a3: u64, a4: u64, a5: u64, input: Seq<UserData>)
    requires
        app_without_rights(s),
        needs_app_rights(nr),
    ensures
        wrapper_step(s, nr, a0, a1, a2, a3, a4, a5, input) == (
            s,
            Reply::Done(EPERM, uart_effects(denied_text(syscall_desc(nr)->Some_0.name.spec_bytes(), s.app_id))),
        ),
{
    let d = syscall_desc(nr)->Some_0;
    let x = d.cap_needed;
    lemma_mask_meets(x, CAP_APP_STORAGE, CAP_NET_SEND, CAP_NET_RECV, CAP_THREAD_CREATE, CAP_MEMORY_ALLOC, CAP_MEMORY_PROT);
    assert(x & CAP_NET_SEND != 0 || x & CAP_NET_RECV != 0 ==> x & (CAP_NET_SEND | CAP_NET_RECV) != 0) by (bit_vector);
    assert(x & (CAP_APP_STORAGE | CAP_NET_SEND | CAP_NET_RECV | CAP_THREAD_CREATE | CAP_MEMORY_ALLOC | CAP_MEMORY_PROT) != 0 ==> x != 0) by (bit_vector);
    assert(cap_verdict(s.kernel, s.vpn, s.app_id, s.domain_id, x) == CapVerdict::Refused);
}

/// A network syscall of an app that holds its network rights is refused
/// while its domain's VPN kill switch is on, the refusal is logged with the
/// domain, and nothing changes.
pub proof fn law_kill_switch_refuses(s: CompatModel, nr: u64, a0: u64, a1: u64, a2: u64, a3: u64, a4: u64, a5: u64, input: Seq<UserData>)
    requires
        syscall_desc(nr) matches Some(d) && d.cap_needed == d.cap_needed & (CAP_NET_SEND | CAP_NET_RECV)
            && d.cap_needed != 0,
        s.app_id > 0,
        !s.kernel.revoked.contains(s.app_id),
        kill_switch_active(s.vpn, s.domain_id),
    ensures
        wrapper_step(s, nr, a0, a1, a2, a3, a4, a5, input) == (
            s,
            Reply::Done(EPERM, uart_effects(kill_switch_text(syscall_desc(nr)->Some_0.name.spec_bytes(), s.app_id, s.domain_id))),
        ),
{
    let d = syscall_desc(nr)->Some_0;
    let x = d.cap_needed;
    assert(x == x & (CAP_NET_SEND | CAP_NET_RECV) ==> x & CAP_APP_STORAGE == 0 && x & CAP_DEBUG == 0) by (bit_vector);
    assert(cap_verdict(s.kernel, s.vpn, s.app_id, s.domain_id, x) == CapVerdict::KillSwitch);
}

/// A syscall that still needs to read the caller's memory has changed
/// nothing yet: reads come before every change.
pub proof fn law_reads_come_first(s: CompatModel, nr: u64, a0: u64, a1: u64, a2: u64, a3: u64, a4: u64, a5: u64, input: Seq<UserData>)
    requires
        wrapper_step(s, nr, a0, a1, a2, a3, a4, a5, input).1 is NeedRead,
    ensures
        wrapper_step(s, nr, a0, a1, a2, a3, a4, a5, input).0 == s,
{
}

/// An app that holds its rights (not app 0, not revoked) whose domain's VPN
/// is up gets its network syscalls through: a syscall the table files under
/// the network that needs network rights only is answered by the network
/// bridge, as if there were no check, and nothing is logged.
pub proof fn law_network_allowed(s: CompatModel, nr: u64, a0: u64, a1: u64, a2: u64, a3: u64, a4: u64, a5: u64, input: Seq<UserData>)
    requires
        s.app_id != 0,
        !s.kernel.revoked.contains(s.app_id),
        !kill_switch_active(s.vpn, s.domain_id),
        syscall_desc(nr) matches Some(d) && d.category == SyscallCat::Net
            && d.cap_needed & !(CAP_NET_SEND | CAP_NET_RECV) == 0,
    ensures
        wrapper_step(s, nr, a0, a1, a2, a3, a4, a5, input)
            == crate::art::net_bridge::net_step(s, nr, a0, a1, a2, a3, a4, a5, input),
{
    let x = syscall_desc(nr)->Some_0.cap_needed;
    assert(x & !(CAP_NET_SEND | CAP_NET_RECV) == 0 ==> x & CAP_APP_STORAGE == 0 && x & CAP_THREAD_CREATE == 0
        && x & CAP_GUI_RENDER == 0 && x & CAP_MEMORY_ALLOC == 0 && x & CAP_MEMORY_PROT == 0 && x & CAP_DEBUG == 0
        && (x & (CAP_NET_SEND | CAP_NET_RECV)) & CAP_DEBUG == 0) by (bit_vector);
    assert(cap_verdict(s.kernel, s.vpn, s.app_id, s.domain_id, x) == CapVerdict::Granted);
}

} // verus!
