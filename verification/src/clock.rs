//! The simulated ZTOS clock and the timing operations both scheduling
//! bridges share.
use vstd::prelude::*;
use crate::pool::wadd;
use crate::user_mem::{UserData, UserEffect, UserRead, answered, answered_at, word_at, word_effects, words_of, push_words};
use crate::syscall_wrapper::EFAULT;

verus! {

/// The clock starts at one second.
pub const CLOCK_START_NS: u64 = 1_000_000_000;
/// Every `clock_gettime` advances the clock by one millisecond.
pub const CLOCK_TICK_NS: u64 = 1_000_000;
pub const NS_PER_SEC: u64 = 1_000_000_000;
/// Bytes of a CPU mask the layer fills at most.
pub const AFFINITY_MAX_BYTES: u64 = 8;

/// A `struct timespec` for `ns` nanoseconds.
pub open spec fn timespec_words(ns: u64) -> Seq<u64> {
    seq![(ns / NS_PER_SEC) as u64, (ns % NS_PER_SEC) as u64]
}

/// A `struct timeval` for `ns` nanoseconds.
pub open spec fn timeval_words(ns: u64) -> Seq<u64> {
    seq![(ns / NS_PER_SEC) as u64, ((ns % NS_PER_SEC) / 1000) as u64]
}

/// `clock_gettime`: every clock is the simulated clock, which advances one
/// millisecond per call and is reported after the advance.
pub fn sys_clock_gettime(clock: &mut u64, ts_ptr: u64, eff: &mut Vec<UserEffect>) -> (r: i64)
    ensures
        ts_ptr == 0 ==> r == EFAULT && *final(clock) == *old(clock) && final(eff)@ == old(eff)@,
        ts_ptr != 0 ==> r == 0 && *final(clock) == wadd(*old(clock), CLOCK_TICK_NS)
            && final(eff)@ == old(eff)@ + word_effects(ts_ptr, timespec_words(*final(clock))),
{
    if ts_ptr == 0 {
        return EFAULT;
    }
    *clock = clock.wrapping_add(CLOCK_TICK_NS);
    let ns = *clock;
    let ws: Vec<u64> = vec![ns / NS_PER_SEC, ns % NS_PER_SEC];
    proof { assert(ws@ =~= timespec_words(ns)); }
    push_words(eff, ts_ptr, &ws);
    0
}

/// `gettimeofday`: the simulated clock, without advancing it; a null buffer
/// is not an error.
pub fn sys_gettimeofday(clock: u64, tv_ptr: u64, eff: &mut Vec<UserEffect>) -> (r: i64)
    ensures
        r == 0,
        tv_ptr == 0 ==> final(eff)@ == old(eff)@,
        tv_ptr != 0 ==> final(eff)@ == old(eff)@ + word_effects(tv_ptr, timeval_words(clock)),
{
    if tv_ptr == 0 {
        return 0;
    }
    let ws: Vec<u64> = vec![clock / NS_PER_SEC, (clock % NS_PER_SEC) / 1000];
    proof { assert(ws@ =~= timeval_words(clock)); }
    push_words(eff, tv_ptr, &ws);
    0
}

/// The busy-wait of a sleep of `sec` seconds and `nsec` nanoseconds, at
/// `nops_per_sec` no-ops per second and one no-op per `ns_per_nop`
/// nanoseconds, capped at `max_nops`; the products wrap around.
pub open spec fn spin_count(sec: u64, nsec: u64, nops_per_sec: u64, ns_per_nop: u64, max_nops: u64) -> u64 {
    let n = wadd(vstd::wrapping::u64_specs::wrapping_mul(sec, nops_per_sec), (nsec / ns_per_nop) as u64);
    if n < max_nops { n } else { max_nops }
}

/// What `nanosleep(req_ptr, rem_ptr)` does: it spins for the requested time
/// and reports no time remaining.
pub open spec fn nanosleep_spec(
    req_ptr: u64,
    rem_ptr: u64,
    nops_per_sec: u64,
    ns_per_nop: u64,
    max_nops: u64,
    input: Seq<UserData>,
    k: int,
) -> Result<(i64, Seq<UserEffect>), UserRead> {
    if req_ptr == 0 {
        Ok((EFAULT, seq![]))
    } else if !answered_at(input, k, UserRead::Words { addr: req_ptr, count: 2 }) {
        Err(UserRead::Words { addr: req_ptr, count: 2 })
    } else {
        let req = words_of(input[k]);
        Ok((
            0,
            seq![UserEffect::Spin { count: spin_count(req[0], req[1], nops_per_sec, ns_per_nop, max_nops) }]
                + if rem_ptr != 0 { word_effects(rem_ptr, seq![0u64, 0u64]) } else { seq![] },
        ))
    }
}

/// `nanosleep`, with the request read from entry `k` of the input.
pub fn sys_nanosleep(
    req_ptr: u64,
    rem_ptr: u64,
    nops_per_sec: u64,
    ns_per_nop: u64,
    max_nops: u64,
    input: &Vec<UserData>,
    k: usize,
    eff: &mut Vec<UserEffect>,
) -> (r: Result<i64, UserRead>)
    requires
        ns_per_nop > 0,
    ensures
        match nanosleep_spec(req_ptr, rem_ptr, nops_per_sec, ns_per_nop, max_nops, input@, k as int) {
            Err(q) => r == Err::<i64, UserRead>(q) && final(eff)@ == old(eff)@,
            Ok((v, e)) => r == Ok::<i64, UserRead>(v) && final(eff)@ == old(eff)@ + e,
        },
{
    if req_ptr == 0 {
        proof { assert(eff@ =~= old(eff)@ + seq![]); }
        return Ok(EFAULT);
    }
    let req = UserRead::Words { addr: req_ptr, count: 2 };
    if !answered(input, k, req) {
        return Err(req);
    }
    let sec = word_at(input, k, 0);
    let nsec = word_at(input, k, 1);
    let n = sec.wrapping_mul(nops_per_sec).wrapping_add(nsec / ns_per_nop);
    let nops = if n < max_nops { n } else { max_nops };
    eff.push(UserEffect::Spin { count: nops });
    let ghost mid = eff@;
    if rem_ptr != 0 {
        let ws: Vec<u64> = vec![0u64, 0u64];
        proof { assert(ws@ =~= seq![0u64, 0u64]); }
        push_words(eff, rem_ptr, &ws);
    }
    proof {
        let tail = if rem_ptr != 0 { word_effects(rem_ptr, seq![0u64, 0u64]) } else { seq![] };
        assert(eff@ =~= old(eff)@ + (seq![UserEffect::Spin { count: nops }] + tail));
    }
    Ok(0)
}

/// What `sched_getaffinity(cpusetsize, mask_ptr)` does: the process runs on
/// CPU 0 alone. `None` stands for a mask of no bytes, which stops the core.
pub open spec fn affinity_spec(cpusetsize: u64, mask_ptr: u64) -> Option<(i64, Seq<UserEffect>)> {
    let m = if cpusetsize < AFFINITY_MAX_BYTES { cpusetsize } else { AFFINITY_MAX_BYTES };
    if mask_ptr == 0 {
        Some((EFAULT, seq![]))
    } else if m == 0 {
        None
    } else {
        Some((0, Seq::new(m as nat, |i: int| UserEffect::Byte {
            addr: wadd(mask_ptr, i as u64),
            value: if i == 0 { 1u8 } else { 0u8 },
        })))
    }
}

/// `sched_getaffinity`.
pub fn sys_sched_getaffinity(cpusetsize: u64, mask_ptr: u64, eff: &mut Vec<UserEffect>) -> (r: Option<i64>)
    ensures
        match affinity_spec(cpusetsize, mask_ptr) {
            None => r.is_none() && final(eff)@ == old(eff)@,
            Some((v, e)) => r == Some(v) && final(eff)@ == old(eff)@ + e,
        },
{
    if mask_ptr == 0 {
        proof { assert(eff@ =~= old(eff)@ + seq![]); }
        return Some(EFAULT);
    }
    let m = if cpusetsize < AFFINITY_MAX_BYTES { cpusetsize } else { AFFINITY_MAX_BYTES };
    if m == 0 {
        return None;
    }
    let ghost want = Seq::new(m as nat, |i: int| UserEffect::Byte {
        addr: wadd(mask_ptr, i as u64),
        value: if i == 0 { 1u8 } else { 0u8 },
    });
    let mut i: u64 = 0;
    while i < m
        invariant
            m <= AFFINITY_MAX_BYTES,
            i <= m,
            want == Seq::new(m as nat, |j: int| UserEffect::Byte {
                addr: wadd(mask_ptr, j as u64),
                value: if j == 0 { 1u8 } else { 0u8 },
            }),
            eff@ == old(eff)@ + want.take(i as int),
        decreases m - i,
    {
        let v: u8 = if i == 0 { 1 } else { 0 };
        eff.push(UserEffect::Byte { addr: mask_ptr.wrapping_add(i), value: v });
        i = i + 1;
        proof { assert(want.take(i as int) =~= want.take(i - 1).push(want[i - 1])); }
    }
    proof { assert(want.take(m as int) =~= want); }
    Some(0)
}

/// A `timespec` reports exactly the time it was made from.
pub proof fn law_timespec_exact(ns: u64)
    ensures
        timespec_words(ns)[0] * NS_PER_SEC + timespec_words(ns)[1] == ns,
        timespec_words(ns)[1] < NS_PER_SEC,
{
    vstd::arithmetic::div_mod::lemma_fundamental_div_mod(ns as int, NS_PER_SEC as int);
}

} // verus!
