//! Threads and signals: the thread table that `clone` fills, the signal
//! actions, the blocked-signal mask and the alternate signal stack, and the
//! operations both thread bridges share.
use vstd::prelude::*;
use crate::search::{first_where, lemma_first_where};
use crate::pool::wadd;
use crate::user_mem::{UserData, UserEffect, UserRead, answered, answered_at, int_at, int_of, word_at, word_effects, words_of, push_words};
use crate::syscall_wrapper::EINVAL;

verus! {

/// Number of slots in the thread table.
pub const MAX_THREADS: usize = 64;
/// Number of futex slots.
pub const MAX_FUTEX: usize = 256;
/// Signal numbers run from 1 to 64; slot 0 is unused.
pub const NSIG_SLOTS: usize = 65;
/// First thread id that `clone` hands out.
pub const FIRST_TID: u32 = 100;
/// First descriptor that `eventfd2` hands out.
pub const FIRST_EVENTFD: i32 = 500;

pub const CLONE_THREAD: u64 = 0x0001_0000;
pub const CLONE_CHILD_CLEARTID: u64 = 0x0020_0000;
pub const FUTEX_WAIT: i32 = 0;
pub const FUTEX_WAKE: i32 = 1;
pub const FUTEX_WAIT_BITSET: i32 = 9;
pub const FUTEX_WAKE_BITSET: i32 = 10;
pub const FUTEX_PRIVATE: i32 = 128;
/// `futex` wait on a word that has changed.
pub const EAGAIN: i64 = -11;
/// `wait4` with no child.
pub const ECHILD: i64 = -10;
pub const SIG_BLOCK: i32 = 0;
pub const SIG_UNBLOCK: i32 = 1;
pub const SIG_SETMASK: i32 = 2;
/// `ss_flags` of a disabled alternate stack.
pub const SS_DISABLE: u64 = 2;

/// A thread registered by `clone`.
#[derive(Clone, Copy, PartialEq, Eq, Debug)]
pub struct ThreadEntry {
    pub tid: u32,
    pub func_ptr: u64,
    pub stack_ptr: u64,
    pub tls_ptr: u64,
    pub ctid_ptr: u64,
    pub app_id: u32,
    pub valid: bool,
}

impl ThreadEntry {
    /// A free slot.
    pub fn empty() -> (e: ThreadEntry)
        ensures
            e == ThreadEntry::spec_empty(),
    {
        ThreadEntry { tid: 0, func_ptr: 0, stack_ptr: 0, tls_ptr: 0, ctid_ptr: 0, app_id: 0, valid: false }
    }

    pub open spec fn spec_empty() -> ThreadEntry {
        ThreadEntry { tid: 0, func_ptr: 0, stack_ptr: 0, tls_ptr: 0, ctid_ptr: 0, app_id: 0, valid: false }
    }
}

/// A futex word and its waiters.
#[derive(Clone, Copy, PartialEq, Eq, Debug)]
pub struct FutexEntry {
    pub addr: u64,
    pub waiters: u32,
}

impl FutexEntry {
    /// A free slot.
    pub fn empty() -> (e: FutexEntry)
        ensures
            e == (FutexEntry { addr: 0, waiters: 0 }),
    {
        FutexEntry { addr: 0, waiters: 0 }
    }
}

/// The action installed for one signal.
#[derive(Clone, Copy, PartialEq, Eq, Debug)]
pub struct SigAction {
    pub handler: u64,
    pub flags: u64,
    pub valid: bool,
}

impl SigAction {
    /// No action installed.
    pub fn empty() -> (e: SigAction)
        ensures
            e == SigAction::spec_empty(),
    {
        SigAction { handler: 0, flags: 0, valid: false }
    }

    pub open spec fn spec_empty() -> SigAction {
        SigAction { handler: 0, flags: 0, valid: false }
    }
}

pub struct ThreadState {
    pub threads: Vec<ThreadEntry>,
    pub next_tid: u32,
    pub futexes: Vec<FutexEntry>,
    pub sigs: Vec<SigAction>,
    pub sig_mask: u64,
    pub alt_stack: u64,
    pub alt_stack_size: u64,
    pub next_eventfd: i32,
}

/// The mathematical value of a `ThreadState`.
pub struct ThreadModel {
    pub threads: Seq<ThreadEntry>,
    pub next_tid: u32,
    pub futexes: Seq<FutexEntry>,
    pub sigs: Seq<SigAction>,
    pub sig_mask: u64,
    pub alt_stack: u64,
    pub alt_stack_size: u64,
    pub next_eventfd: i32,
}

impl View for ThreadState {
    type V = ThreadModel;

    open spec fn view(&self) -> ThreadModel {
        ThreadModel {
            threads: self.threads@,
            next_tid: self.next_tid,
            futexes: self.futexes@,
            sigs: self.sigs@,
            sig_mask: self.sig_mask,
            alt_stack: self.alt_stack,
            alt_stack_size: self.alt_stack_size,
            next_eventfd: self.next_eventfd,
        }
    }
}

impl ThreadModel {
    /// The tables have their fixed sizes.
    pub open spec fn wf(self) -> bool {
        &&& self.threads.len() == MAX_THREADS
        &&& self.futexes.len() == MAX_FUTEX
        &&& self.sigs.len() == NSIG_SLOTS
    }
}

/// A free slot of the thread table.
pub open spec fn thread_free() -> spec_fn(ThreadEntry) -> bool {
    |e: ThreadEntry| !e.valid
}

/// The table after registering a thread in the first free slot; unchanged
/// when it is full.
pub open spec fn register_thread_spec(threads: Seq<ThreadEntry>, e: ThreadEntry) -> Seq<ThreadEntry> {
    let i = first_where(threads, thread_free(), 0);
    if i < threads.len() {
        threads.update(i, e)
    } else {
        threads
    }
}

/// Records a thread in the first free slot; does nothing when the table is full.
pub fn register_thread(threads: &mut Vec<ThreadEntry>, e: ThreadEntry)
    ensures
        final(threads)@ == register_thread_spec(old(threads)@, e),
        final(threads)@.len() == old(threads)@.len(),
{
    let ghost p = thread_free();
    let mut i: usize = 0;
    while i < threads.len()
        invariant
            i <= threads@.len(),
            threads@ == old(threads)@,
            p == thread_free(),
            first_where(threads@, p, 0) == first_where(threads@, p, i as int),
        decreases threads@.len() - i,
    {
        if !threads[i].valid {
            threads.set(i, e);
            return;
        }
        i = i + 1;
    }
}

/// What `futex(uaddr, op, val)` answers: a wait returns at once, with
/// `EAGAIN` when the word no longer holds `val`; a wake reports one thread
/// woken at most; every other operation succeeds.
pub open spec fn futex_spec(uaddr: u64, op: i32, val: i32, input: Seq<UserData>, k: int) -> Result<i64, UserRead> {
    let real_op = op & !FUTEX_PRIVATE;
    if real_op == FUTEX_WAIT || real_op == FUTEX_WAIT_BITSET {
        if answered_at(input, k, UserRead::Int32 { addr: uaddr }) {
            Ok(if int_of(input[k]) != val { EAGAIN } else { 0 })
        } else {
            Err(UserRead::Int32 { addr: uaddr })
        }
    } else if real_op == FUTEX_WAKE || real_op == FUTEX_WAKE_BITSET {
        Ok(if val < 1 { val as i64 } else { 1 })
    } else {
        Ok(0)
    }
}

/// `futex`, with the futex word read from entry `k` of the input.
pub fn sys_futex(uaddr: u64, op: i32, val: i32, input: &Vec<UserData>, k: usize) -> (r: Result<i64, UserRead>)
    ensures
        r == futex_spec(uaddr, op, val, input@, k as int),
{
    let real_op = op & !FUTEX_PRIVATE;
    match real_op {
        0 | 9 => {
            let req = UserRead::Int32 { addr: uaddr };
            if !answered(input, k, req) {
                return Err(req);
            }
            let cur = int_at(input, k);
            if cur != val {
                return Ok(EAGAIN);
            }
            Ok(0)
        },
        1 | 10 => Ok(if val < 1 { val as i64 } else { 1 }),
        _ => Ok(0),
    }
}

/// `eventfd2`: a new descriptor from the eventfd counter.
pub fn sys_eventfd2(ts: &mut ThreadState) -> (r: i64)
    ensures
        r == old(ts).next_eventfd as i64,
        final(ts)@ == (ThreadModel {
            next_eventfd: vstd::wrapping::i32_specs::wrapping_add(old(ts).next_eventfd, 1),
            ..old(ts)@
        }),
{
    let fd = ts.next_eventfd;
    ts.next_eventfd = ts.next_eventfd.wrapping_add(1);
    fd as i64
}

/// The mask after `rt_sigprocmask(how, set)`, or `None` for an unknown `how`.
pub open spec fn apply_mask(mask: u64, how: i32, set: u64) -> Option<u64> {
    if how == SIG_BLOCK {
        Some(mask | set)
    } else if how == SIG_UNBLOCK {
        Some(mask & !set)
    } else if how == SIG_SETMASK {
        Some(set)
    } else {
        None
    }
}

/// The word a read at `addr` sees once `ws` (at most four words) were
/// stored from `base` on, as the report of the old value is stored before the
/// new value is read: the stored word that sits exactly at `addr`, or `v`,
/// what the memory held, when none does.
pub open spec fn seen_after(base: u64, ws: Seq<u64>, addr: u64, v: u64) -> u64 {
    if ws.len() > 3 && wadd(base, 24) == addr {
        ws[3]
    } else if ws.len() > 2 && wadd(base, 16) == addr {
        ws[2]
    } else if ws.len() > 1 && wadd(base, 8) == addr {
        ws[1]
    } else if ws.len() > 0 && base == addr {
        ws[0]
    } else {
        v
    }
}

/// Computes `seen_after`.
fn seen_after_exec(base: u64, ws: &Vec<u64>, addr: u64, v: u64) -> (r: u64)
    requires
        ws@.len() <= 4,
    ensures
        r == seen_after(base, ws@, addr, v),
{
    if ws.len() > 3 && base.wrapping_add(24) == addr {
        ws[3]
    } else if ws.len() > 2 && base.wrapping_add(16) == addr {
        ws[2]
    } else if ws.len() > 1 && base.wrapping_add(8) == addr {
        ws[1]
    } else if ws.len() > 0 && base == addr {
        ws[0]
    } else {
        v
    }
}

/// What `rt_sigprocmask(how, set_ptr, oldset_ptr)` does: the old mask is
/// reported first when asked for, then the new set, when given, is read (so
/// a set stored where the old mask went is the old mask) and applied. An
/// unknown `how` fails only once the old mask is reported.
pub open spec fn sigprocmask_spec(mask: u64, how: i32, set_ptr: u64, oldset_ptr: u64, input: Seq<UserData>, k: int)
    -> Result<(u64, i64, Seq<UserEffect>), UserRead>
{
    let old_eff = if oldset_ptr != 0 { seq![UserEffect::Word { addr: oldset_ptr, value: mask }] } else { seq![] };
    if set_ptr == 0 {
        Ok((mask, 0, old_eff))
    } else if !answered_at(input, k, UserRead::Words { addr: set_ptr, count: 1 }) {
        Err(UserRead::Words { addr: set_ptr, count: 1 })
    } else {
        let olds = if oldset_ptr != 0 { seq![mask] } else { seq![] };
        match apply_mask(mask, how, seen_after(oldset_ptr, olds, set_ptr, words_of(input[k])[0])) {
            Some(m) => Ok((m, 0, old_eff)),
            None => Ok((mask, EINVAL, old_eff)),
        }
    }
}

/// `rt_sigprocmask`, with the new set read from entry `k` of the input.
pub fn sys_rt_sigprocmask(
    ts: &mut ThreadState,
    how: i32,
    set_ptr: u64,
    oldset_ptr: u64,
    input: &Vec<UserData>,
    k: usize,
    eff: &mut Vec<UserEffect>,
) -> (r: Result<i64, UserRead>)
    ensures
        match sigprocmask_spec(old(ts).sig_mask, how, set_ptr, oldset_ptr, input@, k as int) {
            Err(q) => r == Err::<i64, UserRead>(q) && final(ts)@ == old(ts)@ && final(eff)@ == old(eff)@,
            Ok((m, v, e)) => r == Ok::<i64, UserRead>(v) && final(ts)@ == (ThreadModel { sig_mask: m, ..old(ts)@ })
                && final(eff)@ == old(eff)@ + e,
        },
{
    let mut new_set: u64 = 0;
    if set_ptr != 0 {
        let req = UserRead::Words { addr: set_ptr, count: 1 };
        if !answered(input, k, req) {
            return Err(req);
        }
        new_set = word_at(input, k, 0);
    }
    let olds: Vec<u64> = if oldset_ptr != 0 { vec![ts.sig_mask] } else { Vec::new() };
    new_set = seen_after_exec(oldset_ptr, &olds, set_ptr, new_set);
    if oldset_ptr != 0 {
        eff.push(UserEffect::Word { addr: oldset_ptr, value: ts.sig_mask });
    }
    proof {
        let old_eff = if oldset_ptr != 0 { seq![UserEffect::Word { addr: oldset_ptr, value: old(ts).sig_mask }] } else { seq![] };
        assert(eff@ =~= old(eff)@ + old_eff);
    }
    if set_ptr != 0 {
        match how {
            0 => { ts.sig_mask = ts.sig_mask | new_set; },
            1 => { ts.sig_mask = ts.sig_mask & !new_set; },
            2 => { ts.sig_mask = new_set; },
            _ => { return Ok(EINVAL); },
        }
    }
    Ok(0)
}

/// The three words of the `stack_t` reported for the alternate stack: its
/// address, `SS_DISABLE` when there is none, its size.
pub open spec fn altstack_words(alt: u64, size: u64) -> Seq<u64> {
    seq![alt, if alt == 0 { SS_DISABLE } else { 0u64 }, size]
}

/// What `sigaltstack(ss_ptr, oss_ptr)` does: the old stack is reported first
/// when asked for, then the new one, when given, is read (seeing what the
/// report stored where the two overlap) and replaces it.
pub open spec fn sigaltstack_spec(alt: u64, size: u64, ss_ptr: u64, oss_ptr: u64, input: Seq<UserData>, k: int)
    -> Result<(u64, u64, Seq<UserEffect>), UserRead>
{
    let old_eff = if oss_ptr != 0 { word_effects(oss_ptr, altstack_words(alt, size)) } else { seq![] };
    if ss_ptr == 0 {
        Ok((alt, size, old_eff))
    } else if !answered_at(input, k, UserRead::Words { addr: ss_ptr, count: 3 }) {
        Err(UserRead::Words { addr: ss_ptr, count: 3 })
    } else {
        let olds = if oss_ptr != 0 { altstack_words(alt, size) } else { seq![] };
        Ok((
            seen_after(oss_ptr, olds, ss_ptr, words_of(input[k])[0]),
            seen_after(oss_ptr, olds, wadd(ss_ptr, 16), words_of(input[k])[2]),
            old_eff,
        ))
    }
}

/// `sigaltstack`, with the new `stack_t` read from entry `k` of the input.
pub fn sys_sigaltstack(
    ts: &mut ThreadState,
    ss_ptr: u64,
    oss_ptr: u64,
    input: &Vec<UserData>,
    k: usize,
    eff: &mut Vec<UserEffect>,
) -> (r: Result<i64, UserRead>)
    ensures
        match sigaltstack_spec(old(ts).alt_stack, old(ts).alt_stack_size, ss_ptr, oss_ptr, input@, k as int) {
            Err(q) => r == Err::<i64, UserRead>(q) && final(ts)@ == old(ts)@ && final(eff)@ == old(eff)@,
            Ok((a, s, e)) => r == Ok::<i64, UserRead>(0)
                && final(ts)@ == (ThreadModel { alt_stack: a, alt_stack_size: s, ..old(ts)@ })
                && final(eff)@ == old(eff)@ + e,
        },
{
    let mut new_alt: u64 = 0;
    let mut new_size: u64 = 0;
    if ss_ptr != 0 {
        let req = UserRead::Words { addr: ss_ptr, count: 3 };
        if !answered(input, k, req) {
            return Err(req);
        }
        new_alt = word_at(input, k, 0);
        new_size = word_at(input, k, 2);
    }
    let flags: u64 = if ts.alt_stack == 0 { SS_DISABLE } else { 0 };
    let ws: Vec<u64> = if oss_ptr != 0 { vec![ts.alt_stack, flags, ts.alt_stack_size] } else { Vec::new() };
    proof {
        if oss_ptr != 0 {
            assert(ws@ =~= altstack_words(ts.alt_stack, ts.alt_stack_size));
        } else {
            assert(ws@ =~= seq![]);
        }
    }
    new_alt = seen_after_exec(oss_ptr, &ws, ss_ptr, new_alt);
    new_size = seen_after_exec(oss_ptr, &ws, ss_ptr.wrapping_add(16), new_size);
    if oss_ptr != 0 {
        push_words(eff, oss_ptr, &ws);
    } else {
        proof { assert(eff@ =~= old(eff)@ + seq![]); }
    }
    if ss_ptr != 0 {
        ts.alt_stack = new_alt;
        ts.alt_stack_size = new_size;
    }
    Ok(0)
}

/// The action for `signum` after `rt_sigaction` installs `act`.
pub open spec fn install_action(sigs: Seq<SigAction>, signum: i32, handler: u64, flags: u64) -> Seq<SigAction> {
    sigs.update(signum as int, SigAction { handler, flags, valid: true })
}

/// Installs an action for a signal number from 1 to 64.
pub fn set_action(ts: &mut ThreadState, signum: i32, handler: u64, flags: u64)
    requires
        old(ts)@.wf(),
        1 <= signum <= 64,
    ensures
        final(ts)@ == (ThreadModel { sigs: install_action(old(ts)@.sigs, signum, handler, flags), ..old(ts)@ }),
        final(ts)@.wf(),
{
    ts.sigs.set(signum as usize, SigAction { handler, flags, valid: true });
}

/// The words reported for the old action of a signal: handler and flags,
/// followed, when `with_mask` holds, by an empty two-word `sa_mask`.
pub open spec fn old_action_words(a: SigAction, with_mask: bool) -> Seq<u64> {
    if with_mask {
        seq![a.handler, a.flags, 0u64, 0u64]
    } else {
        seq![a.handler, a.flags]
    }
}

/// What `rt_sigaction(signum, act_ptr, oldact_ptr)` does for a signal from 1
/// to 64: the installed action, if any, is reported first when asked for,
/// then the new handler and flags, when given, are read (seeing what the
/// report stored where the two overlap) and installed.
pub open spec fn sigaction_spec(
    t: ThreadModel,
    signum: i32,
    act_ptr: u64,
    oldact_ptr: u64,
    with_mask: bool,
    input: Seq<UserData>,
    k: int,
) -> Result<(ThreadModel, i64, Seq<UserEffect>), UserRead> {
    if signum < 1 || signum > 64 {
        Ok((t, EINVAL, seq![]))
    } else {
        let cur = t.sigs[signum as int];
        let old_eff = if oldact_ptr != 0 && cur.valid {
            word_effects(oldact_ptr, old_action_words(cur, with_mask))
        } else {
            seq![]
        };
        if act_ptr == 0 {
            Ok((t, 0, old_eff))
        } else if !answered_at(input, k, UserRead::Words { addr: act_ptr, count: 2 }) {
            Err(UserRead::Words { addr: act_ptr, count: 2 })
        } else {
            let w = words_of(input[k]);
            let olds = if oldact_ptr != 0 && cur.valid { old_action_words(cur, with_mask) } else { seq![] };
            let handler = seen_after(oldact_ptr, olds, act_ptr, w[0]);
            let flags = seen_after(oldact_ptr, olds, wadd(act_ptr, 8), w[1]);
            Ok((ThreadModel { sigs: install_action(t.sigs, signum, handler, flags), ..t }, 0, old_eff))
        }
    }
}

/// `rt_sigaction`, with the new action read from entry `k` of the input.
pub fn sys_rt_sigaction(
    ts: &mut ThreadState,
    signum: i32,
    act_ptr: u64,
    oldact_ptr: u64,
    with_mask: bool,
    input: &Vec<UserData>,
    k: usize,
    eff: &mut Vec<UserEffect>,
) -> (r: Result<i64, UserRead>)
    requires
        old(ts)@.wf(),
    ensures
        final(ts)@.wf(),
        match sigaction_spec(old(ts)@, signum, act_ptr, oldact_ptr, with_mask, input@, k as int) {
            Err(q) => r == Err::<i64, UserRead>(q) && final(ts)@ == old(ts)@ && final(eff)@ == old(eff)@,
            Ok((t, v, e)) => r == Ok::<i64, UserRead>(v) && final(ts)@ == t && final(eff)@ == old(eff)@ + e,
        },
{
    if signum < 1 || signum > 64 {
        proof { assert(eff@ =~= old(eff)@ + seq![]); }
        return Ok(EINVAL);
    }
    let mut handler: u64 = 0;
    let mut flags: u64 = 0;
    if act_ptr != 0 {
        let req = UserRead::Words { addr: act_ptr, count: 2 };
        if !answered(input, k, req) {
            return Err(req);
        }
        handler = word_at(input, k, 0);
        flags = word_at(input, k, 1);
    }
    let cur = ts.sigs[signum as usize];
    let ws: Vec<u64> = if oldact_ptr != 0 && cur.valid {
        if with_mask {
            vec![cur.handler, cur.flags, 0u64, 0u64]
        } else {
            vec![cur.handler, cur.flags]
        }
    } else {
        Vec::new()
    };
    proof {
        if oldact_ptr != 0 && cur.valid {
            assert(ws@ =~= old_action_words(cur, with_mask));
        } else {
            assert(ws@ =~= seq![]);
        }
    }
    handler = seen_after_exec(oldact_ptr, &ws, act_ptr, handler);
    flags = seen_after_exec(oldact_ptr, &ws, act_ptr.wrapping_add(8), flags);
    if oldact_ptr != 0 && cur.valid {
        push_words(eff, oldact_ptr, &ws);
    } else {
        proof { assert(eff@ =~= old(eff)@ + seq![]); }
    }
    if act_ptr != 0 {
        set_action(ts, signum, handler, flags);
    }
    Ok(0)
}

/// What `clone` records and reports for a new thread `tid` of app `app_id`:
/// the thread in the first free slot of the table, and `tid` stored at
/// `child_tid` (when `set_child` holds and it is not null) and at
/// `parent_tid` (when it is not null).
pub open spec fn spawn_spec(t: ThreadModel, app_id: u32, stack: u64, parent_tid: u64, child_tid: u64, tls: u64, set_child: bool)
    -> (ThreadModel, i64, Seq<UserEffect>)
{
    let tid = t.next_tid;
    let e = ThreadEntry { tid, func_ptr: 0, stack_ptr: stack, tls_ptr: tls, ctid_ptr: child_tid, app_id, valid: true };
    (
        ThreadModel {
            threads: register_thread_spec(t.threads, e),
            next_tid: vstd::wrapping::u32_specs::wrapping_add(tid, 1),
            ..t
        },
        tid as i64,
        (if child_tid != 0 && set_child { seq![UserEffect::Word32 { addr: child_tid, value: tid }] } else { seq![] })
            + (if parent_tid != 0 { seq![UserEffect::Word32 { addr: parent_tid, value: tid }] } else { seq![] }),
    )
}

/// Registers a new thread, as `clone` does.
pub fn spawn_thread(
    ts: &mut ThreadState,
    app_id: u32,
    stack: u64,
    parent_tid: u64,
    child_tid: u64,
    tls: u64,
    set_child: bool,
    eff: &mut Vec<UserEffect>,
) -> (r: i64)
    requires
        old(ts)@.wf(),
    ensures
        final(ts)@.wf(),
        (final(ts)@, r, final(eff)@) == {
            let x = spawn_spec(old(ts)@, app_id, stack, parent_tid, child_tid, tls, set_child);
            (x.0, x.1, old(eff)@ + x.2)
        },
{
    let tid = ts.next_tid;
    ts.next_tid = ts.next_tid.wrapping_add(1);
    let e = ThreadEntry { tid, func_ptr: 0, stack_ptr: stack, tls_ptr: tls, ctid_ptr: child_tid, app_id, valid: true };
    register_thread(&mut ts.threads, e);
    if child_tid != 0 && set_child {
        eff.push(UserEffect::Word32 { addr: child_tid, value: tid });
    }
    if parent_tid != 0 {
        eff.push(UserEffect::Word32 { addr: parent_tid, value: tid });
    }
    proof {
        assert(eff@ =~= old(eff)@ + spawn_spec(old(ts)@, app_id, stack, parent_tid, child_tid, tls, set_child).2);
    }
    tid as i64
}

/// The mask a call sets is the mask the next call reports: after
/// `SIG_SETMASK` with `x`, asking for the old mask gives `x`.
pub proof fn law_mask_reported(mask: u64, x: u64, set_ptr: u64, oldset_ptr: u64, how: i32, input: Seq<UserData>)
    requires
        set_ptr != 0,
        oldset_ptr != 0,
        answered_at(input, 0, UserRead::Words { addr: set_ptr, count: 1 }),
        words_of(input[0]) == seq![x],
    ensures
        ({
            let first = sigprocmask_spec(mask, SIG_SETMASK, set_ptr, 0, input, 0);
            &&& first matches Ok((m, v, e)) && m == x && v == 0 && e == Seq::<UserEffect>::empty()
            &&& sigprocmask_spec(x, how, 0, oldset_ptr, Seq::empty(), 0)
                == Ok::<(u64, i64, Seq<UserEffect>), UserRead>((x, 0, seq![UserEffect::Word { addr: oldset_ptr, value: x }]))
        }),
{
}

/// Blocking a set of signals and unblocking it again leaves the mask as it
/// was, but for the signals of the set, which end up unblocked.
pub proof fn law_block_then_unblock(mask: u64, x: u64)
    ensures
        apply_mask(mask, SIG_BLOCK, x) matches Some(m1) && apply_mask(m1, SIG_UNBLOCK, x) == Some(mask & !x),
        mask & x == 0 ==> (apply_mask(mask, SIG_BLOCK, x) matches Some(m1) && apply_mask(m1, SIG_UNBLOCK, x) == Some(mask)),
{
    assert((mask | x) & !x == mask & !x) by (bit_vector);
    assert(mask & x == 0 ==> mask & !x == mask) by (bit_vector);
}

/// The action a call installs is the action the next call reports.
pub proof fn law_action_reported(
    t: ThreadModel,
    signum: i32,
    act_ptr: u64,
    oldact_ptr: u64,
    handler: u64,
    flags: u64,
    with_mask: bool,
    input: Seq<UserData>,
)
    requires
        t.wf(),
        1 <= signum <= 64,
        act_ptr != 0,
        oldact_ptr != 0,
        answered_at(input, 0, UserRead::Words { addr: act_ptr, count: 2 }),
        words_of(input[0]) == seq![handler, flags],
    ensures
        sigaction_spec(t, signum, act_ptr, 0, with_mask, input, 0) matches Ok((t1, v, e))
            && v == 0
            && sigaction_spec(t1, signum, 0, oldact_ptr, with_mask, Seq::empty(), 0)
                == Ok::<(ThreadModel, i64, Seq<UserEffect>), UserRead>((
                    t1,
                    0,
                    word_effects(oldact_ptr, old_action_words(SigAction { handler, flags, valid: true }, with_mask)),
                )),
{
}

/// The mask follows the calls made on it: after `SIG_SETMASK` with `v` the
/// mask reported is `v`; blocking `w` and then unblocking `w` leaves
/// `v & !w`, which is what is reported next.
pub proof fn law_mask_sequence(mask: u64, v: u64, w: u64, pv: u64, pw: u64, o: u64, iv: Seq<UserData>, iw: Seq<UserData>)
    requires
        pv != 0,
        pw != 0,
        o != 0,
        answered_at(iv, 0, UserRead::Words { addr: pv, count: 1 }),
        words_of(iv[0]) == seq![v],
        answered_at(iw, 0, UserRead::Words { addr: pw, count: 1 }),
        words_of(iw[0]) == seq![w],
    ensures
        sigprocmask_spec(mask, SIG_SETMASK, pv, 0, iv, 0) == Ok::<(u64, i64, Seq<UserEffect>), UserRead>((v, 0, seq![])),
        sigprocmask_spec(v, SIG_BLOCK, 0, o, Seq::empty(), 0)
            == Ok::<(u64, i64, Seq<UserEffect>), UserRead>((v, 0, seq![UserEffect::Word { addr: o, value: v }])),
        sigprocmask_spec(v, SIG_BLOCK, pw, 0, iw, 0) == Ok::<(u64, i64, Seq<UserEffect>), UserRead>((v | w, 0, seq![])),
        sigprocmask_spec(v | w, SIG_UNBLOCK, pw, 0, iw, 0) == Ok::<(u64, i64, Seq<UserEffect>), UserRead>((v & !w, 0, seq![])),
        sigprocmask_spec(v & !w, SIG_BLOCK, 0, o, Seq::empty(), 0)
            == Ok::<(u64, i64, Seq<UserEffect>), UserRead>((v & !w, 0, seq![UserEffect::Word { addr: o, value: v & !w }])),
{
    assert((v | w) & !w == v & !w) by (bit_vector);
}

/// Replacing an action reports the one it replaces: with an action
/// (`h1`, `f1`) installed for `signum`, a call with a new action (`h2`, `f2`)
/// and a buffer for the old one that does not overlap it (neither running
/// past the end of the address space) stores
/// `h1, f1, 0, 0` in the buffer and installs the new action, which the next
/// call reports.
pub proof fn law_action_replaced(
    t: ThreadModel,
    signum: i32,
    act_ptr: u64,
    oldact_ptr: u64,
    old2_ptr: u64,
    h1: u64,
    f1: u64,
    h2: u64,
    f2: u64,
    input: Seq<UserData>,
)
    requires
        t.wf(),
        1 <= signum <= 64,
        t.sigs[signum as int] == (SigAction { handler: h1, flags: f1, valid: true }),
        act_ptr != 0,
        oldact_ptr != 0,
        old2_ptr != 0,
        oldact_ptr + 32 <= u64::MAX,
        act_ptr + 16 <= u64::MAX,
        oldact_ptr + 32 <= act_ptr || act_ptr + 16 <= oldact_ptr,
        answered_at(input, 0, UserRead::Words { addr: act_ptr, count: 2 }),
        words_of(input[0]) == seq![h2, f2],
    ensures
        ({
            let t1 = ThreadModel { sigs: install_action(t.sigs, signum, h2, f2), ..t };
            &&& sigaction_spec(t, signum, act_ptr, oldact_ptr, true, input, 0)
                == Ok::<(ThreadModel, i64, Seq<UserEffect>), UserRead>((t1, 0, word_effects(oldact_ptr, seq![h1, f1, 0, 0])))
            &&& sigaction_spec(t1, signum, 0, old2_ptr, true, Seq::empty(), 0)
                == Ok::<(ThreadModel, i64, Seq<UserEffect>), UserRead>((t1, 0, word_effects(old2_ptr, seq![h2, f2, 0, 0])))
        }),
{
    assert(wadd(act_ptr, 8) == act_ptr + 8);
    assert(wadd(oldact_ptr, 8) == oldact_ptr + 8);
    assert(wadd(oldact_ptr, 16) == oldact_ptr + 16);
    assert(wadd(oldact_ptr, 24) == oldact_ptr + 24);
    assert(old_action_words(SigAction { handler: h1, flags: f1, valid: true }, true) == seq![h1, f1, 0u64, 0u64]);
}

/// When the buffer for the old action is the new action's own buffer, the
/// old action is stored there first and then read back as the new one: the
/// installed action stays as it was.
pub proof fn law_action_aliased(t: ThreadModel, signum: i32, ptr: u64, h1: u64, f1: u64, input: Seq<UserData>)
    requires
        t.wf(),
        1 <= signum <= 64,
        t.sigs[signum as int] == (SigAction { handler: h1, flags: f1, valid: true }),
        ptr != 0,
        answered_at(input, 0, UserRead::Words { addr: ptr, count: 2 }),
    ensures
        sigaction_spec(t, signum, ptr, ptr, true, input, 0)
            == Ok::<(ThreadModel, i64, Seq<UserEffect>), UserRead>((
                ThreadModel { sigs: install_action(t.sigs, signum, h1, f1), ..t },
                0,
                word_effects(ptr, seq![h1, f1, 0, 0]),
            )),
{
    assert(wadd(ptr, 8) != ptr) by (bit_vector);
    assert(wadd(ptr, 16) != wadd(ptr, 8)) by (bit_vector);
    assert(wadd(ptr, 24) != wadd(ptr, 8)) by (bit_vector);
    assert(wadd(ptr, 24) != ptr) by (bit_vector);
    assert(wadd(ptr, 16) != ptr) by (bit_vector);
    assert(old_action_words(SigAction { handler: h1, flags: f1, valid: true }, true) == seq![h1, f1, 0u64, 0u64]);
}

/// The alternate stack a call sets is the one the next call reports, as
/// `[sp, SS_DISABLE when sp is 0 and 0 otherwise, size]`; when both buffers
/// are given in one call and do not overlap (neither running past the end of
/// the address space), the report is of the stack from before the call.
pub proof fn law_altstack_reported(
    alt: u64,
    size: u64,
    ss_ptr: u64,
    oss_ptr: u64,
    sp: u64,
    fl: u64,
    sz: u64,
    input: Seq<UserData>,
)
    requires
        ss_ptr != 0,
        oss_ptr != 0,
        answered_at(input, 0, UserRead::Words { addr: ss_ptr, count: 3 }),
        words_of(input[0]) == seq![sp, fl, sz],
    ensures
        altstack_words(sp, sz) == seq![sp, if sp == 0 { 2u64 } else { 0u64 }, sz],
        sigaltstack_spec(alt, size, ss_ptr, 0, input, 0)
            == Ok::<(u64, u64, Seq<UserEffect>), UserRead>((sp, sz, seq![])),
        sigaltstack_spec(sp, sz, 0, oss_ptr, Seq::empty(), 0)
            == Ok::<(u64, u64, Seq<UserEffect>), UserRead>((sp, sz, word_effects(oss_ptr, altstack_words(sp, sz)))),
        oss_ptr + 24 <= u64::MAX && ss_ptr + 24 <= u64::MAX && (oss_ptr + 24 <= ss_ptr || ss_ptr + 24 <= oss_ptr)
            ==> sigaltstack_spec(alt, size, ss_ptr, oss_ptr, input, 0)
            == Ok::<(u64, u64, Seq<UserEffect>), UserRead>((sp, sz, word_effects(oss_ptr, altstack_words(alt, size)))),
{
    if oss_ptr + 24 <= u64::MAX && ss_ptr + 24 <= u64::MAX {
        assert(wadd(ss_ptr, 16) == ss_ptr + 16);
        assert(wadd(oss_ptr, 8) == oss_ptr + 8);
        assert(wadd(oss_ptr, 16) == oss_ptr + 16);
    }
}

/// Two threads created one after the other get consecutive, hence different,
/// thread ids.
pub proof fn law_tids_distinct(t: ThreadModel, app_id: u32, stack: u64, ptid: u64, ctid: u64, tls: u64, set_child: bool)
    ensures
        ({
            let first = spawn_spec(t, app_id, stack, ptid, ctid, tls, set_child);
            let second = spawn_spec(first.0, app_id, stack, ptid, ctid, tls, set_child);
            &&& second.1 == vstd::wrapping::u32_specs::wrapping_add(t.next_tid, 1) as i64
            &&& first.1 != second.1
        }),
{
}

} // verus!
