//! Thread bridge: `clone`, `futex`, `eventfd2`, `exit`, `wait4`, `prctl`, and
//! the signal syscalls.
use vstd::prelude::*;
use crate::art::syscall_table::{
    SYS_CLONE, SYS_FUTEX, SYS_EVENTFD2, SYS_EXIT, SYS_EXIT_GROUP, SYS_WAIT4, SYS_PRCTL, SYS_RT_SIGACTION,
    SYS_RT_SIGPROCMASK, SYS_RT_SIGSUSPEND, SYS_SIGALTSTACK, SYS_TGKILL, SYS_TKILL, SYS_KILL,
};
use crate::thread_table::{
    ThreadModel, CLONE_THREAD, ECHILD, futex_spec, spawn_spec, sigaction_spec, sigprocmask_spec,
    sigaltstack_spec,
};
use crate::user_mem::{Outcome, Reply, UserData, UserEffect, UserRead, answered_at, int_of};
use crate::syscall_wrapper::{CompatState, CompatModel, EINVAL};
use crate::kernel_stubs::KernelModel;

verus! {

/// What `clone(flags, stack, parent_tid, child_tid, tls)` does: every call
/// registers a thread with the next thread id, which is stored at
/// `child_tid` for a `CLONE_THREAD` call and at `parent_tid`, and returned.
pub open spec fn clone_step(s: CompatModel, flags: u64, stack: u64, parent_tid: u64, child_tid: u64, tls: u64)
    -> (CompatModel, i64, Seq<UserEffect>)
{
    let x = spawn_spec(s.thr, s.app_id, stack, parent_tid, child_tid, tls, flags & CLONE_THREAD != 0);
    (CompatModel { thr: x.0, ..s }, x.1, x.2)
}

/// What the thread bridge does with syscall `nr`.
pub open spec fn thread_step(s: CompatModel, nr: u64, a0: u64, a1: u64, a2: u64, a3: u64, a4: u64, a5: u64, input: Seq<UserData>)
    -> (CompatModel, Reply)
{
    if nr == SYS_CLONE {
        let x = clone_step(s, a0, a1, a2, a3, a4);
        (x.0, Reply::Done(x.1, x.2))
    } else if nr == SYS_FUTEX {
        match futex_spec(a0, a1 as i32, a2 as i32, input, 0) {
            Err(q) => (s, Reply::NeedRead(q)),
            Ok(v) => (s, Reply::Done(v, seq![])),
        }
    } else if nr == SYS_EVENTFD2 {
        (
            CompatModel {
                thr: ThreadModel { next_eventfd: vstd::wrapping::i32_specs::wrapping_add(s.thr.next_eventfd, 1), ..s.thr },
                ..s
            },
            Reply::Done(s.thr.next_eventfd as i64, seq![]),
        )
    } else if nr == SYS_EXIT || nr == SYS_EXIT_GROUP {
        (exit_state(s), Reply::Halt)
    } else if nr == SYS_WAIT4 {
        (s, Reply::Done(ECHILD, seq![]))
    } else if nr == SYS_PRCTL {
        (s, Reply::Done(0, seq![]))
    } else {
        (s, Reply::Done(EINVAL, seq![]))
    }
}

fn sys_clone(st: &mut CompatState, flags: u64, stack: u64, parent_tid: u64, child_tid: u64, tls: u64, eff: &mut Vec<UserEffect>) -> (r: i64)
    requires
        old(st)@.wf(),
    ensures
        final(st)@.wf(),
        (final(st)@, r, final(eff)@) == {
            let x = clone_step(old(st)@, flags, stack, parent_tid, child_tid, tls);
            (x.0, x.1, old(eff)@ + x.2)
        },
{
    let app_id = crate::syscall_wrapper::current_app_id(st);
    crate::thread_table::spawn_thread(&mut st.thr, app_id, stack, parent_tid, child_tid, tls, flags & CLONE_THREAD != 0, eff)
}

/// The state after the current app exits: the kernel has revoked every
/// capability of the app; nothing else changes.
pub open spec fn exit_state(s: CompatModel) -> CompatModel {
    CompatModel { kernel: KernelModel { revoked: s.kernel.revoked.push(s.app_id), ..s.kernel }, ..s }
}

/// `exit` and `exit_group`: the app's capabilities are revoked and the
/// thread never returns.
fn sys_exit(st: &mut CompatState, status: i32) -> (out: Outcome)
    requires
        old(st)@.wf(),
    ensures
        final(st)@.wf(),
        final(st)@ == exit_state(old(st)@),
        out@ == Reply::Halt,
{
    let app_id = crate::syscall_wrapper::current_app_id(st);
    crate::kernel_stubs::revoke_all_for_task(&mut st.kernel, app_id);
    Outcome::Halt
}

/// Answers a thread syscall.
pub fn handle(st: &mut CompatState, nr: u64, a0: u64, a1: u64, a2: u64, a3: u64, a4: u64, a5: u64, input: &Vec<UserData>)
    -> (out: Outcome)
    requires
        old(st)@.wf(),
    ensures
        final(st)@.wf(),
        (final(st)@, out@) == thread_step(old(st)@, nr, a0, a1, a2, a3, a4, a5, input@),
{
    let mut eff: Vec<UserEffect> = Vec::new();
    let r: Result<i64, UserRead> = match nr {
        SYS_CLONE => Ok(sys_clone(st, a0, a1, a2, a3, a4, &mut eff)),
        SYS_FUTEX => crate::thread_table::sys_futex(a0, a1 as i32, a2 as i32, input, 0),
        SYS_EVENTFD2 => Ok(crate::thread_table::sys_eventfd2(&mut st.thr)),
        SYS_EXIT => { return sys_exit(st, a0 as i32); },
        SYS_EXIT_GROUP => { return sys_exit(st, a0 as i32); },
        SYS_WAIT4 => Ok(ECHILD),
        SYS_PRCTL => Ok(crate::syscall_wrapper::handle_prctl_pub(a0, a1, a2, 0, 0)),
        _ => Ok(EINVAL),
    };
    proof { assert(eff@ =~= seq![] + eff@); }
    match r {
        Ok(v) => Outcome::Done(v, eff),
        Err(q) => Outcome::NeedRead(q),
    }
}

/// What the signal half of the bridge does with syscall `nr`: actions, the
/// mask and the alternate stack are kept; sending a signal does nothing.
pub open spec fn signal_step(s: CompatModel, nr: u64, a0: u64, a1: u64, a2: u64, a3: u64, a4: u64, a5: u64, input: Seq<UserData>)
    -> (CompatModel, Reply)
{
    if nr == SYS_RT_SIGACTION {
        match sigaction_spec(s.thr, a0 as i32, a1, a2, false, input, 0) {
            Err(q) => (s, Reply::NeedRead(q)),
            Ok((t, v, e)) => (CompatModel { thr: t, ..s }, Reply::Done(v, e)),
        }
    } else if nr == SYS_RT_SIGPROCMASK {
        match sigprocmask_spec(s.thr.sig_mask, a0 as i32, a1, a2, input, 0) {
            Err(q) => (s, Reply::NeedRead(q)),
            Ok((m, v, e)) => (CompatModel { thr: ThreadModel { sig_mask: m, ..s.thr }, ..s }, Reply::Done(v, e)),
        }
    } else if nr == SYS_SIGALTSTACK {
        match sigaltstack_spec(s.thr.alt_stack, s.thr.alt_stack_size, a0, a1, input, 0) {
            Err(q) => (s, Reply::NeedRead(q)),
            Ok((a, z, e)) => (
                CompatModel { thr: ThreadModel { alt_stack: a, alt_stack_size: z, ..s.thr }, ..s },
                Reply::Done(0, e),
            ),
        }
    } else if nr == SYS_RT_SIGSUSPEND || nr == SYS_TGKILL || nr == SYS_TKILL || nr == SYS_KILL {
        (s, Reply::Done(0, seq![]))
    } else {
        (s, Reply::Done(EINVAL, seq![]))
    }
}

/// `tgkill`, `tkill` and `kill`: signals are not delivered; every call succeeds.
fn sys_tgkill(sig: i32) -> (r: i64)
    ensures
        r == 0,
{
    0
}

/// Answers a signal syscall.
pub fn handle_signal(st: &mut CompatState, nr: u64, a0: u64, a1: u64, a2: u64, a3: u64, a4: u64, a5: u64, input: &Vec<UserData>)
    -> (out: Outcome)
    requires
        old(st)@.wf(),
    ensures
        final(st)@.wf(),
        (final(st)@, out@) == signal_step(old(st)@, nr, a0, a1, a2, a3, a4, a5, input@),
{
    let mut eff: Vec<UserEffect> = Vec::new();
    let r: Result<i64, UserRead> = match nr {
        SYS_RT_SIGACTION => crate::thread_table::sys_rt_sigaction(&mut st.thr, a0 as i32, a1, a2, false, input, 0, &mut eff),
        SYS_RT_SIGPROCMASK => crate::thread_table::sys_rt_sigprocmask(&mut st.thr, a0 as i32, a1, a2, input, 0, &mut eff),
        SYS_RT_SIGSUSPEND => Ok(0),
        SYS_SIGALTSTACK => crate::thread_table::sys_sigaltstack(&mut st.thr, a0, a1, input, 0, &mut eff),
        SYS_TGKILL => Ok(sys_tgkill(a2 as i32)),
        SYS_TKILL => Ok(sys_tgkill(a1 as i32)),
        SYS_KILL => Ok(sys_tgkill(a1 as i32)),
        _ => Ok(EINVAL),
    };
    proof { assert(eff@ =~= seq![] + eff@); }
    match r {
        Ok(v) => Outcome::Done(v, eff),
        Err(q) => Outcome::NeedRead(q),
    }
}

/// A futex wait, plain or with a bitset, private or not (`op` 0, 9, 128 or
/// 137), reads the futex word first and changes nothing; it then answers
/// `EAGAIN` (-11) when the word no longer holds `val` and 0 when it does.
pub proof fn law_futex_wait(s: CompatModel, uaddr: u64, op: u64, val: u64, a3: u64, a4: u64, a5: u64, input: Seq<UserData>)
    requires
        op == 0 || op == 9 || op == 128 || op == 137,
    ensures
        !answered_at(input, 0, UserRead::Int32 { addr: uaddr })
            ==> thread_step(s, SYS_FUTEX, uaddr, op, val, a3, a4, a5, input)
                == (s, Reply::NeedRead(UserRead::Int32 { addr: uaddr })),
        answered_at(input, 0, UserRead::Int32 { addr: uaddr })
            ==> thread_step(s, SYS_FUTEX, uaddr, op, val, a3, a4, a5, input)
                == (s, Reply::Done(if int_of(input[0]) != val as i32 { -11i64 } else { 0i64 }, seq![])),
{
    assert(op == 0 || op == 9 || op == 128 || op == 137 ==> {
        let r = (op as i32) & !128i32;
        r == 0 || r == 9
    }) by (bit_vector);
}

} // verus!
