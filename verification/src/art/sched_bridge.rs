//! Scheduling bridge of the kernel build: the clocks, sleeping, the
//! scheduler syscalls and the resource limits.
use vstd::prelude::*;
use crate::art::syscall_table::{
    SYS_CLOCK_GETTIME, SYS_CLOCK_NANOSLEEP, SYS_NANOSLEEP, SYS_GETTIMEOFDAY, SYS_SCHED_YIELD,
    SYS_SCHED_SETSCHEDULER, SYS_SCHED_GETSCHEDULER, SYS_SCHED_SETAFFINITY, SYS_SCHED_GETAFFINITY,
    SYS_GETRLIMIT, SYS_SETRLIMIT,
};
use crate::clock::{CLOCK_TICK_NS, timespec_words, timeval_words, nanosleep_spec, affinity_spec};
use crate::pool::wadd;
use crate::user_mem::{Outcome, Reply, UserData, UserEffect, UserRead, word_effects};
use crate::art::syscall_wrapper::getrlimit_spec;
use crate::syscall_wrapper::{CompatState, CompatModel, EINVAL, EFAULT};

verus! {

/// No-ops a sleep spins per second (about 1 ms of QEMU time per 500 000).
pub const SLEEP_NOPS_PER_SEC: u64 = 500_000;
/// Nanoseconds of sleep per no-op.
pub const SLEEP_NS_PER_NOP: u64 = 2000;
/// Longest spin of one sleep.
pub const SLEEP_MAX_NOPS: u64 = 50_000_000;

/// `clock_nanosleep`: every clock sleeps like `nanosleep`.
fn sys_clock_nanosleep(
    clockid: i32,
    flags: i32,
    req_ptr: u64,
    rem_ptr: u64,
    input: &Vec<UserData>,
    eff: &mut Vec<UserEffect>,
) -> (r: Result<i64, UserRead>)
    ensures
        match nanosleep_spec(req_ptr, rem_ptr, SLEEP_NOPS_PER_SEC, SLEEP_NS_PER_NOP, SLEEP_MAX_NOPS, input@, 0) {
            Err(q) => r == Err::<i64, UserRead>(q) && final(eff)@ == old(eff)@,
            Ok((v, e)) => r == Ok::<i64, UserRead>(v) && final(eff)@ == old(eff)@ + e,
        },
{
    crate::clock::sys_nanosleep(req_ptr, rem_ptr, SLEEP_NOPS_PER_SEC, SLEEP_NS_PER_NOP, SLEEP_MAX_NOPS, input, 0, eff)
}

/// What the scheduling bridge does with syscall `nr`.
pub open spec fn sched_step(s: CompatModel, nr: u64, a0: u64, a1: u64, a2: u64, a3: u64, a4: u64, a5: u64, input: Seq<UserData>)
    -> (CompatModel, Reply)
{
    if nr == SYS_CLOCK_GETTIME {
        if a1 == 0 {
            (s, Reply::Done(EFAULT, seq![]))
        } else {
            let ns = wadd(s.clock_ns, CLOCK_TICK_NS);
            (CompatModel { clock_ns: ns, ..s }, Reply::Done(0, word_effects(a1, timespec_words(ns))))
        }
    } else if nr == SYS_CLOCK_NANOSLEEP || nr == SYS_NANOSLEEP {
        let (req, rem) = if nr == SYS_NANOSLEEP { (a0, a1) } else { (a2, a3) };
        match nanosleep_spec(req, rem, SLEEP_NOPS_PER_SEC, SLEEP_NS_PER_NOP, SLEEP_MAX_NOPS, input, 0) {
            Err(q) => (s, Reply::NeedRead(q)),
            Ok((v, e)) => (s, Reply::Done(v, e)),
        }
    } else if nr == SYS_GETTIMEOFDAY {
        (s, Reply::Done(0, if a0 == 0 { seq![] } else { word_effects(a0, timeval_words(s.clock_ns)) }))
    } else if nr == SYS_SCHED_GETAFFINITY {
        match affinity_spec(a1, a2) {
            None => (s, Reply::Halt),
            Some((v, e)) => (s, Reply::Done(v, e)),
        }
    } else if nr == SYS_GETRLIMIT {
        (s, Reply::Done(getrlimit_spec(a0, a1).0, getrlimit_spec(a0, a1).1))
    } else if nr == SYS_SCHED_YIELD || nr == SYS_SCHED_SETSCHEDULER || nr == SYS_SCHED_GETSCHEDULER
        || nr == SYS_SCHED_SETAFFINITY || nr == SYS_SETRLIMIT {
        (s, Reply::Done(0, seq![]))
    } else {
        (s, Reply::Done(EINVAL, seq![]))
    }
}

/// Answers a scheduling syscall.
pub fn handle(st: &mut CompatState, nr: u64, a0: u64, a1: u64, a2: u64, a3: u64, a4: u64, a5: u64, input: &Vec<UserData>)
    -> (out: Outcome)
    requires
        old(st)@.wf(),
    ensures
        final(st)@.wf(),
        (final(st)@, out@) == sched_step(old(st)@, nr, a0, a1, a2, a3, a4, a5, input@),
{
    let mut eff: Vec<UserEffect> = Vec::new();
    let r: Result<i64, UserRead> = match nr {
        SYS_CLOCK_GETTIME => Ok(crate::clock::sys_clock_gettime(&mut st.clock_ns, a1, &mut eff)),
        SYS_CLOCK_NANOSLEEP => sys_clock_nanosleep(a0 as i32, a1 as i32, a2, a3, input, &mut eff),
        SYS_NANOSLEEP => crate::clock::sys_nanosleep(
            a0, a1, SLEEP_NOPS_PER_SEC, SLEEP_NS_PER_NOP, SLEEP_MAX_NOPS, input, 0, &mut eff),
        SYS_GETTIMEOFDAY => Ok(crate::clock::sys_gettimeofday(st.clock_ns, a0, &mut eff)),
        SYS_SCHED_YIELD => Ok(0),
        SYS_SCHED_SETSCHEDULER => Ok(0),
        SYS_SCHED_GETSCHEDULER => Ok(0),
        SYS_SCHED_SETAFFINITY => Ok(0),
        SYS_SCHED_GETAFFINITY => match crate::clock::sys_sched_getaffinity(a1, a2, &mut eff) {
            Some(v) => Ok(v),
            None => { return Outcome::Halt; },
        },
        SYS_GETRLIMIT => Ok(crate::art::syscall_wrapper::handle_getrlimit(a0, a1, &mut eff)),
        SYS_SETRLIMIT => Ok(0),
        _ => Ok(EINVAL),
    };
    proof { assert(eff@ =~= seq![] + eff@); }
    match r {
        Ok(v) => Outcome::Done(v, eff),
        Err(q) => Outcome::NeedRead(q),
    }
}

} // verus!
