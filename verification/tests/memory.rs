use ztos_compat::art::syscall_table::{
    SYS_MMAP, SYS_MUNMAP, SYS_MPROTECT, SYS_MADVISE, SYS_MREMAP, SYS_MINCORE, SYS_MEMFD_CREATE, SYS_BRK,
    SYS_FTRUNCATE, SYS_MSYNC,
};
use ztos_compat::memory_bridge::{alloc_bytes, handle};
use ztos_compat::pool::{align_up, PAGE_SIZE, POOL_SIZE};
use ztos_compat::syscall_wrapper::{
    check_pool_base, ztos_set_app_context, ztos_syscall_wrapper, CompatState, EINVAL, ENOMEM, EFAULT,
};
use ztos_compat::user_mem::{Outcome, UserEffect};

const POOL: u64 = 0x4000_0000;

fn state() -> CompatState {
    let mut st = CompatState::new(POOL);
    ztos_set_app_context(&mut st, 101, 20);
    st
}

fn mem(st: &mut CompatState, nr: u64, a: [u64; 6]) -> Outcome {
    handle(st, nr, a[0], a[1], a[2], a[3], a[4], a[5])
}

#[test]
fn align_up_rounds_to_pages() {
    assert_eq!(align_up(0, PAGE_SIZE), 0);
    assert_eq!(align_up(1, PAGE_SIZE), 4096);
    assert_eq!(align_up(4096, PAGE_SIZE), 4096);
    assert_eq!(align_up(4097, PAGE_SIZE), 8192);
    // Wraps around, as the release build does.
    assert_eq!(align_up(u64::MAX, PAGE_SIZE), 0);
}

#[test]
fn pool_base_rules() {
    assert!(check_pool_base(POOL));
    assert!(!check_pool_base(0));
    assert!(!check_pool_base(POOL + 1));
    assert!(!check_pool_base(u64::MAX - 4095));
}

#[test]
fn anonymous_mmaps_are_fresh_pages() {
    let mut st = state();
    let anon = 0x22u64;
    assert_eq!(mem(&mut st, SYS_MMAP, [0, 100, 3, anon, u64::MAX, 0]), Outcome::Done(POOL as i64, vec![]));
    assert_eq!(mem(&mut st, SYS_MMAP, [0, 5000, 3, anon, u64::MAX, 0]), Outcome::Done((POOL + 4096) as i64, vec![]));
    assert_eq!(mem(&mut st, SYS_MMAP, [0, 1, 3, anon, u64::MAX, 0]), Outcome::Done((POOL + 3 * 4096) as i64, vec![]));
    let e = st.mem.maps[0];
    assert!(e.valid);
    assert_eq!((e.addr, e.size, e.prot, e.flags, e.fd), (POOL, 4096, 3, 0x22, -1));
    assert_eq!(st.mem.maps[1].size, 8192);
}

#[test]
fn mmap_of_nothing_is_invalid() {
    let mut st = state();
    assert_eq!(mem(&mut st, SYS_MMAP, [0, 0, 3, 0x22, u64::MAX, 0]), Outcome::Done(EINVAL, vec![]));
}

#[test]
fn mmap_beyond_the_pool_is_out_of_memory() {
    let mut st = state();
    assert_eq!(mem(&mut st, SYS_MMAP, [0, POOL_SIZE + 1, 3, 0x22, u64::MAX, 0]), Outcome::Done(ENOMEM, vec![]));
    assert_eq!(st.mem.bump, 0);
    assert_eq!(mem(&mut st, SYS_MMAP, [0, POOL_SIZE, 3, 0x22, u64::MAX, 0]), Outcome::Done(POOL as i64, vec![]));
    assert_eq!(mem(&mut st, SYS_MMAP, [0, 1, 3, 0x22, u64::MAX, 0]), Outcome::Done(ENOMEM, vec![]));
}

#[test]
fn munmap_and_mprotect_update_the_table() {
    let mut st = state();
    mem(&mut st, SYS_MMAP, [0, 10, 1, 0x22, u64::MAX, 0]);
    assert_eq!(mem(&mut st, SYS_MPROTECT, [POOL, 10, 5, 0, 0, 0]), Outcome::Done(0, vec![]));
    assert_eq!(st.mem.maps[0].prot, 5);
    assert_eq!(mem(&mut st, SYS_MUNMAP, [POOL, 10, 0, 0, 0, 0]), Outcome::Done(0, vec![]));
    assert!(!st.mem.maps[0].valid);
    // Unknown addresses succeed too.
    assert_eq!(mem(&mut st, SYS_MUNMAP, [123, 10, 0, 0, 0, 0]), Outcome::Done(0, vec![]));
}

#[test]
fn madvise_clears_at_most_sixteen_pages() {
    let mut st = state();
    assert_eq!(
        mem(&mut st, SYS_MADVISE, [0x5000, 1 << 20, 4, 0, 0, 0]),
        Outcome::Done(0, vec![UserEffect::Fill { dst: 0x5000, len: 0x1_0000, value: 0 }])
    );
    assert_eq!(
        mem(&mut st, SYS_MADVISE, [0x5000, 100, 8, 0, 0, 0]),
        Outcome::Done(0, vec![UserEffect::Fill { dst: 0x5000, len: 100, value: 0 }])
    );
    assert_eq!(mem(&mut st, SYS_MADVISE, [0x5000, 100, 3, 0, 0, 0]), Outcome::Done(0, vec![]));
    assert_eq!(mem(&mut st, SYS_MADVISE, [0, 100, 4, 0, 0, 0]), Outcome::Done(0, vec![]));
}

#[test]
fn mremap_grows_by_copying() {
    let mut st = state();
    mem(&mut st, SYS_MMAP, [0, 4096, 3, 0x22, u64::MAX, 0]);
    assert_eq!(mem(&mut st, SYS_MREMAP, [POOL, 4096, 100, 0, 0, 0]), Outcome::Done(POOL as i64, vec![]));
    assert_eq!(
        mem(&mut st, SYS_MREMAP, [POOL, 4096, 8192, 0, 0, 0]),
        Outcome::Done(
            (POOL + 4096) as i64,
            vec![UserEffect::CopyBytes { dst: POOL + 4096, src: POOL, len: 4096 }]
        )
    );
    assert_eq!((st.mem.maps[0].addr, st.mem.maps[0].size), (POOL + 4096, 8192));
}

#[test]
fn mincore_reports_every_page_resident() {
    let mut st = state();
    assert_eq!(
        mem(&mut st, SYS_MINCORE, [POOL, 8193, 0x9000, 0, 0, 0]),
        Outcome::Done(0, vec![UserEffect::Fill { dst: 0x9000, len: 3, value: 1 }])
    );
    assert_eq!(mem(&mut st, SYS_MINCORE, [POOL, 8193, 0, 0, 0, 0]), Outcome::Done(EFAULT, vec![]));
}

#[test]
fn memfd_descriptors_count_from_1000() {
    let mut st = state();
    assert_eq!(mem(&mut st, SYS_MEMFD_CREATE, [0; 6]), Outcome::Done(1000, vec![]));
    assert_eq!(mem(&mut st, SYS_MEMFD_CREATE, [0; 6]), Outcome::Done(1001, vec![]));
}

#[test]
fn brk_sets_up_and_moves_the_heap() {
    let mut st = state();
    assert_eq!(mem(&mut st, SYS_BRK, [0; 6]), Outcome::Done(POOL as i64, vec![]));
    assert_eq!(st.mem.bump, 0x1_0000);
    let target = POOL + 0x2_0000;
    assert_eq!(mem(&mut st, SYS_BRK, [target, 0, 0, 0, 0, 0]), Outcome::Done(target as i64, vec![]));
    assert_eq!(mem(&mut st, SYS_BRK, [0; 6]), Outcome::Done(target as i64, vec![]));
    assert_eq!(st.mem.bump, 0x3_0000);
    // A lower address leaves the break.
    assert_eq!(mem(&mut st, SYS_BRK, [POOL, 0, 0, 0, 0, 0]), Outcome::Done(target as i64, vec![]));
}

#[test]
fn noop_memory_syscalls_succeed() {
    let mut st = state();
    assert_eq!(mem(&mut st, SYS_MSYNC, [0; 6]), Outcome::Done(0, vec![]));
    assert_eq!(mem(&mut st, 9999, [0; 6]), Outcome::Done(EINVAL, vec![]));
}

#[test]
fn ftruncate_sets_a_file_size() {
    let mut st = state();
    assert_eq!(mem(&mut st, SYS_FTRUNCATE, [12, 777, 0, 0, 0, 0]), Outcome::Done(0, vec![]));
    assert_eq!(st.fds[12].size, 777);
    assert_eq!(mem(&mut st, SYS_FTRUNCATE, [300, 777, 0, 0, 0, 0]), Outcome::Done(-9, vec![]));
}

#[test]
fn alloc_bytes_takes_from_the_pool() {
    let mut st = state();
    assert_eq!(alloc_bytes(&mut st, 10), POOL);
    assert_eq!(alloc_bytes(&mut st, 10), POOL + 4096);
}

#[test]
fn mmap_goes_through_the_wrapper() {
    let mut st = state();
    let out = ztos_syscall_wrapper(&mut st, SYS_MMAP, 0, 4096, 3, 0x22, u64::MAX, 0, &vec![]);
    assert_eq!(out, Outcome::Done(POOL as i64, vec![]));
}

#[test]
fn mprotect_exec_needs_the_jit_capability() {
    let mut st = state();
    mem(&mut st, SYS_MMAP, [0, 10, 1, 0x22, u64::MAX, 0]);
    ztos_set_app_context(&mut st, 0, 20);
    assert_eq!(mem(&mut st, SYS_MPROTECT, [POOL, 10, 5, 0, 0, 0]), Outcome::Done(-1, vec![]));
    assert_eq!(st.mem.maps[0].prot, 1);
    assert_eq!(mem(&mut st, SYS_MPROTECT, [POOL, 10, 3, 0, 0, 0]), Outcome::Done(0, vec![]));
    assert_eq!(st.mem.maps[0].prot, 3);
}

#[test]
fn huge_lengths_are_refused_not_wrapped() {
    let mut st = state();
    assert_eq!(mem(&mut st, SYS_MMAP, [0, u64::MAX, 3, 0x22, u64::MAX, 0]), Outcome::Done(-12, vec![]));
    assert_eq!(mem(&mut st, SYS_MMAP, [0, u64::MAX - 4094, 3, 0x22, u64::MAX, 0]), Outcome::Done(-12, vec![]));
    assert_eq!(st.mem.bump, 0);
}

#[test]
fn law_new_block_past_mappings_holds() {
    let mut st = state();
    mem(&mut st, SYS_MMAP, [0, 5000, 3, 0x22, u64::MAX, 0]);
    let p = alloc_bytes(&mut st, 10);
    assert_eq!(p, POOL + 8192);
    match mem(&mut st, SYS_MMAP, [0, 1, 3, 0x22, u64::MAX, 0]) {
        Outcome::Done(q, _) => assert_eq!(q as u64, POOL + 12288),
        other => panic!("{:?}", other),
    }
    for e in st.mem.maps.iter().filter(|e| e.valid) {
        assert!(e.addr >= POOL && e.addr + e.size <= POOL + st.mem.bump);
    }
}
