use ztos_compat::art::syscall_table::{
    SYS_CLONE, SYS_FUTEX, SYS_EVENTFD2, SYS_EXIT, SYS_EXIT_GROUP, SYS_WAIT4, SYS_PRCTL, SYS_RT_SIGACTION,
    SYS_RT_SIGPROCMASK, SYS_SIGALTSTACK, SYS_TGKILL, SYS_KILL, SYS_RT_SIGSUSPEND,
};
use ztos_compat::thread_bridge::{handle, handle_signal};
use ztos_compat::syscall_wrapper::{handle_prctl_pub, ztos_set_app_context, CompatState, EINVAL};
use ztos_compat::user_mem::{Outcome, UserData, UserEffect, UserRead};

const POOL: u64 = 0x4000_0000;

fn state() -> CompatState {
    let mut st = CompatState::new(POOL);
    ztos_set_app_context(&mut st, 101, 20);
    st
}

fn thr(st: &mut CompatState, nr: u64, a: [u64; 6], input: &Vec<UserData>) -> Outcome {
    handle(st, nr, a[0], a[1], a[2], a[3], a[4], a[5], input)
}

fn sig(st: &mut CompatState, nr: u64, a: [u64; 6], input: &Vec<UserData>) -> Outcome {
    handle_signal(st, nr, a[0], a[1], a[2], a[3], a[4], a[5], input)
}

#[test]
fn clone_registers_threads_with_fresh_ids() {
    let mut st = state();
    let flags = 0x0001_0000u64;
    assert_eq!(
        thr(&mut st, SYS_CLONE, [flags, 0x1000, 0x2000, 0x3000, 0x4000, 0], &vec![]),
        Outcome::Done(100, vec![
            UserEffect::Word32 { addr: 0x3000, value: 100 },
            UserEffect::Word32 { addr: 0x2000, value: 100 },
        ])
    );
    let t = st.thr.threads[0];
    assert_eq!((t.tid, t.stack_ptr, t.tls_ptr, t.ctid_ptr, t.app_id, t.valid), (100, 0x1000, 0x4000, 0x3000, 101, true));
    // Without CLONE_THREAD the child id is not stored; the thread is still registered.
    assert_eq!(
        thr(&mut st, SYS_CLONE, [0, 0x1000, 0x2000, 0x3000, 0x4000, 0], &vec![]),
        Outcome::Done(101, vec![UserEffect::Word32 { addr: 0x2000, value: 101 }])
    );
    assert_eq!(st.thr.threads[1].tid, 101);
    assert_eq!(thr(&mut st, SYS_CLONE, [flags, 0, 0, 0, 0, 0], &vec![]), Outcome::Done(102, vec![]));
}

#[test]
fn futex_wait_and_wake() {
    let mut st = state();
    assert_eq!(thr(&mut st, SYS_FUTEX, [0x500, 0, 7, 0, 0, 0], &vec![]), Outcome::NeedRead(UserRead::Int32 { addr: 0x500 }));
    assert_eq!(thr(&mut st, SYS_FUTEX, [0x500, 128, 7, 0, 0, 0], &vec![UserData::Int32(6)]), Outcome::Done(-11, vec![]));
    assert_eq!(thr(&mut st, SYS_FUTEX, [0x500, 9, 7, 0, 0, 0], &vec![UserData::Int32(7)]), Outcome::Done(0, vec![]));
    assert_eq!(thr(&mut st, SYS_FUTEX, [0x500, 1, 5, 0, 0, 0], &vec![]), Outcome::Done(1, vec![]));
    assert_eq!(thr(&mut st, SYS_FUTEX, [0x500, 129, 0, 0, 0, 0], &vec![]), Outcome::Done(0, vec![]));
    assert_eq!(thr(&mut st, SYS_FUTEX, [0x500, 3, 0, 0, 0, 0], &vec![]), Outcome::Done(0, vec![]));
}

#[test]
fn eventfd_wait4_prctl_exit() {
    let mut st = state();
    assert_eq!(thr(&mut st, SYS_EVENTFD2, [0; 6], &vec![]), Outcome::Done(500, vec![]));
    assert_eq!(thr(&mut st, SYS_EVENTFD2, [0; 6], &vec![]), Outcome::Done(501, vec![]));
    assert_eq!(thr(&mut st, SYS_WAIT4, [0; 6], &vec![]), Outcome::Done(-10, vec![]));
    assert_eq!(thr(&mut st, SYS_PRCTL, [15, 0, 0, 0, 0, 0], &vec![]), Outcome::Done(0, vec![]));
    assert_eq!(thr(&mut st, SYS_EXIT, [0; 6], &vec![]), Outcome::Halt);
    assert_eq!(thr(&mut st, SYS_EXIT_GROUP, [0; 6], &vec![]), Outcome::Halt);
    assert_eq!(thr(&mut st, 9999, [0; 6], &vec![]), Outcome::Done(EINVAL, vec![]));
    assert_eq!(handle_prctl_pub(99, 0, 0, 0, 0), 0);
}

#[test]
fn sigaction_installs_and_reports() {
    let mut st = state();
    assert_eq!(sig(&mut st, SYS_RT_SIGACTION, [0, 0, 0, 0, 0, 0], &vec![]), Outcome::Done(EINVAL, vec![]));
    assert_eq!(sig(&mut st, SYS_RT_SIGACTION, [65, 0, 0, 0, 0, 0], &vec![]), Outcome::Done(EINVAL, vec![]));
    assert_eq!(
        sig(&mut st, SYS_RT_SIGACTION, [11, 0x100, 0x200, 0, 0, 0], &vec![]),
        Outcome::NeedRead(UserRead::Words { addr: 0x100, count: 2 })
    );
    // No old action yet: nothing reported.
    assert_eq!(
        sig(&mut st, SYS_RT_SIGACTION, [11, 0x100, 0x200, 0, 0, 0], &vec![UserData::Words(vec![0xdead, 4])]),
        Outcome::Done(0, vec![])
    );
    assert_eq!(
        sig(&mut st, SYS_RT_SIGACTION, [11, 0, 0x200, 0, 0, 0], &vec![]),
        Outcome::Done(0, vec![
            UserEffect::Word { addr: 0x200, value: 0xdead },
            UserEffect::Word { addr: 0x208, value: 4 },
        ])
    );
}

#[test]
fn sigprocmask_blocks_and_unblocks() {
    let mut st = state();
    let set = |x: u64| vec![UserData::Words(vec![x])];
    assert_eq!(sig(&mut st, SYS_RT_SIGPROCMASK, [0, 0x100, 0, 0, 0, 0], &set(0b1010)), Outcome::Done(0, vec![]));
    assert_eq!(st.thr.sig_mask, 0b1010);
    assert_eq!(
        sig(&mut st, SYS_RT_SIGPROCMASK, [1, 0x100, 0x300, 0, 0, 0], &set(0b0010)),
        Outcome::Done(0, vec![UserEffect::Word { addr: 0x300, value: 0b1010 }])
    );
    assert_eq!(st.thr.sig_mask, 0b1000);
    assert_eq!(sig(&mut st, SYS_RT_SIGPROCMASK, [2, 0x100, 0, 0, 0, 0], &set(7)), Outcome::Done(0, vec![]));
    assert_eq!(st.thr.sig_mask, 7);
    // An unknown `how` fails after reporting the old mask.
    assert_eq!(
        sig(&mut st, SYS_RT_SIGPROCMASK, [9, 0x100, 0x300, 0, 0, 0], &set(1)),
        Outcome::Done(EINVAL, vec![UserEffect::Word { addr: 0x300, value: 7 }])
    );
    assert_eq!(st.thr.sig_mask, 7);
}

#[test]
fn sigaltstack_replaces_and_reports() {
    let mut st = state();
    assert_eq!(
        sig(&mut st, SYS_SIGALTSTACK, [0, 0x400, 0, 0, 0, 0], &vec![]),
        Outcome::Done(0, vec![
            UserEffect::Word { addr: 0x400, value: 0 },
            UserEffect::Word { addr: 0x408, value: 2 },
            UserEffect::Word { addr: 0x410, value: 0 },
        ])
    );
    assert_eq!(
        sig(&mut st, SYS_SIGALTSTACK, [0x500, 0, 0, 0, 0, 0], &vec![UserData::Words(vec![0x9000, 0, 0x4000])]),
        Outcome::Done(0, vec![])
    );
    assert_eq!((st.thr.alt_stack, st.thr.alt_stack_size), (0x9000, 0x4000));
    assert_eq!(
        sig(&mut st, SYS_SIGALTSTACK, [0, 0x400, 0, 0, 0, 0], &vec![]),
        Outcome::Done(0, vec![
            UserEffect::Word { addr: 0x400, value: 0x9000 },
            UserEffect::Word { addr: 0x408, value: 0 },
            UserEffect::Word { addr: 0x410, value: 0x4000 },
        ])
    );
}

#[test]
fn signals_are_not_delivered() {
    let mut st = state();
    assert_eq!(sig(&mut st, SYS_TGKILL, [1, 2, 11, 0, 0, 0], &vec![]), Outcome::Done(0, vec![]));
    assert_eq!(sig(&mut st, SYS_KILL, [1, 9, 0, 0, 0, 0], &vec![]), Outcome::Done(0, vec![]));
    assert_eq!(sig(&mut st, SYS_RT_SIGSUSPEND, [0; 6], &vec![]), Outcome::Done(0, vec![]));
    assert_eq!(sig(&mut st, 9999, [0; 6], &vec![]), Outcome::Done(EINVAL, vec![]));
}

#[test]
fn aliased_pointers_see_the_old_value_first() {
    let mut st = state();
    let one = |w: u64| vec![UserData::Words(vec![w])];
    // The old mask is stored at 0x100 before the new set is read from there.
    assert_eq!(sig(&mut st, SYS_RT_SIGPROCMASK, [2, 0x100, 0, 0, 0, 0], &one(0b1100)), Outcome::Done(0, vec![]));
    assert_eq!(
        sig(&mut st, SYS_RT_SIGPROCMASK, [2, 0x100, 0x100, 0, 0, 0], &one(0b0001)),
        Outcome::Done(0, vec![UserEffect::Word { addr: 0x100, value: 0b1100 }])
    );
    assert_eq!(st.thr.sig_mask, 0b1100);
    // sigaction with act == oldact keeps the installed action.
    sig(&mut st, SYS_RT_SIGACTION, [11, 0x200, 0, 0, 0, 0], &vec![UserData::Words(vec![0xaa, 1])]);
    sig(&mut st, SYS_RT_SIGACTION, [11, 0x200, 0x200, 0, 0, 0], &vec![UserData::Words(vec![0xbb, 2])]);
    assert_eq!((st.thr.sigs[11].handler, st.thr.sigs[11].flags), (0xaa, 1));
    // sigaltstack with ss == oss keeps the old stack.
    sig(&mut st, SYS_SIGALTSTACK, [0x300, 0, 0, 0, 0, 0], &vec![UserData::Words(vec![0x9000, 0, 0x2000])]);
    sig(&mut st, SYS_SIGALTSTACK, [0x300, 0x300, 0, 0, 0, 0], &vec![UserData::Words(vec![0x7000, 0, 0x1000])]);
    assert_eq!((st.thr.alt_stack, st.thr.alt_stack_size), (0x9000, 0x2000));
}

#[test]
fn law_mask_sequence_holds() {
    let mut st = state();
    let one = |w: u64| vec![UserData::Words(vec![w])];
    assert_eq!(sig(&mut st, SYS_RT_SIGPROCMASK, [2, 0x100, 0, 8, 0, 0], &one(0b1110)), Outcome::Done(0, vec![]));
    assert_eq!(
        sig(&mut st, SYS_RT_SIGPROCMASK, [0, 0, 0x300, 8, 0, 0], &vec![]),
        Outcome::Done(0, vec![UserEffect::Word { addr: 0x300, value: 0b1110 }])
    );
    sig(&mut st, SYS_RT_SIGPROCMASK, [0, 0x200, 0, 8, 0, 0], &one(0b0011));
    sig(&mut st, SYS_RT_SIGPROCMASK, [1, 0x200, 0, 8, 0, 0], &one(0b0011));
    assert_eq!(
        sig(&mut st, SYS_RT_SIGPROCMASK, [0, 0, 0x300, 8, 0, 0], &vec![]),
        Outcome::Done(0, vec![UserEffect::Word { addr: 0x300, value: 0b1100 }])
    );
}

#[test]
fn law_action_replaced_holds() {
    let mut st = state();
    sig(&mut st, SYS_RT_SIGACTION, [11, 0x100, 0, 8, 0, 0], &vec![UserData::Words(vec![0xa1, 1])]);
    assert_eq!(
        sig(&mut st, SYS_RT_SIGACTION, [11, 0x200, 0x400, 8, 0, 0], &vec![UserData::Words(vec![0xb2, 2])]),
        Outcome::Done(0, vec![
            UserEffect::Word { addr: 0x400, value: 0xa1 },
            UserEffect::Word { addr: 0x408, value: 1 },
        ])
    );
    assert_eq!((st.thr.sigs[11].handler, st.thr.sigs[11].flags), (0xb2, 2));
}

#[test]
fn law_altstack_reported_holds() {
    let mut st = state();
    assert_eq!(sig(&mut st, SYS_SIGALTSTACK, [0x100, 0, 0, 0, 0, 0], &vec![UserData::Words(vec![0x9000, 0, 0x2000])]), Outcome::Done(0, vec![]));
    assert_eq!(
        sig(&mut st, SYS_SIGALTSTACK, [0, 0x300, 0, 0, 0, 0], &vec![]),
        Outcome::Done(0, vec![
            UserEffect::Word { addr: 0x300, value: 0x9000 },
            UserEffect::Word { addr: 0x308, value: 0 },
            UserEffect::Word { addr: 0x310, value: 0x2000 },
        ])
    );
    assert_eq!(
        sig(&mut st, SYS_SIGALTSTACK, [0x100, 0x300, 0, 0, 0, 0], &vec![UserData::Words(vec![0, 0, 0])]),
        Outcome::Done(0, vec![
            UserEffect::Word { addr: 0x300, value: 0x9000 },
            UserEffect::Word { addr: 0x308, value: 0 },
            UserEffect::Word { addr: 0x310, value: 0x2000 },
        ])
    );
    assert_eq!(
        sig(&mut st, SYS_SIGALTSTACK, [0, 0x300, 0, 0, 0, 0], &vec![]),
        Outcome::Done(0, vec![
            UserEffect::Word { addr: 0x300, value: 0 },
            UserEffect::Word { addr: 0x308, value: 2 },
            UserEffect::Word { addr: 0x310, value: 0 },
        ])
    );
}
