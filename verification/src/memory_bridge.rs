//! Memory bridge: `mmap`, `munmap`, `mprotect`, `madvise`, `mremap`, `brk`
//! and their kin, answered from the ZTOS pool since there is no Linux kernel
//! underneath.
use vstd::prelude::*;
use crate::art::syscall_table::{
    SYS_MMAP, SYS_MUNMAP, SYS_MPROTECT, SYS_MADVISE, SYS_MREMAP, SYS_MSYNC, SYS_MINCORE, SYS_MEMFD_CREATE,
    SYS_MEMBARRIER, SYS_BRK, SYS_MLOCK, SYS_MUNLOCK, SYS_FALLOCATE, SYS_FTRUNCATE,
};
use crate::pool::{
    MemoryModel, bump_alloc, bump_alloc_spec, align_up, align_up_spec, page_round, page_round_spec, register_map, register_map_spec, wadd,
    MapEntry, PAGE_SIZE, MAP_ANON, BRK_INITIAL, PROT_EXEC, lemma_bump_alloc_nonzero, lemma_update_in_pool, lemma_register_in_pool, memfd_create_spec, unmap_spec, protect_spec,
    madvise_effects, mremap_spec, page_count, POOL_SIZE, lemma_align_up_page, lemma_bump_alloc_fresh, lemma_register_map_len, lemma_bump_alloc_fresh_aligned,
};
use crate::fd_table::pread_spec;
use crate::user_mem::{Outcome, Reply, UserEffect};
use crate::syscall_wrapper::{CompatState, CompatModel, EINVAL, ENOMEM, EFAULT, EPERM};
use crate::kernel_stubs::{has_capability, has_capability_spec, DISPLAY_ENDPOINT_ID, CAP_JIT_EXEC};

verus! {

/// What `mprotect(addr, length, prot)` does: making pages executable needs
/// the JIT capability on the display endpoint, and without it the call is
/// refused with nothing changed; otherwise the new protection is recorded
/// for the mapping that starts at `addr`.
pub open spec fn mprotect_step(s: CompatModel, addr: u64, prot: u32) -> (CompatModel, i64) {
    if prot & PROT_EXEC != 0 && !has_capability_spec(s.kernel, s.app_id, DISPLAY_ENDPOINT_ID, CAP_JIT_EXEC) {
        (s, EPERM)
    } else {
        (CompatModel { mem: MemoryModel { maps: protect_spec(s.mem.maps, addr, prot), ..s.mem }, ..s }, 0)
    }
}

/// `mprotect`, as `mprotect_step` says.
pub(crate) fn sys_mprotect(st: &mut CompatState, addr: u64, prot: u32) -> (r: i64)
    requires
        old(st)@.wf(),
    ensures
        final(st)@.wf(),
        (final(st)@, r) == mprotect_step(old(st)@, addr, prot),
{
    if prot & PROT_EXEC != 0 {
        let app_id = crate::syscall_wrapper::current_app_id(st);
        if !has_capability(&st.kernel, app_id, DISPLAY_ENDPOINT_ID, CAP_JIT_EXEC) {
            return EPERM;
        }
    }
    proof { lemma_update_in_pool(st.mem.maps@, st.mem.pool_base, st.mem.bump, addr, prot, 0, 0); }
    crate::pool::sys_mprotect(&mut st.mem.maps, addr, prot)
}

/// What `mmap(addr, length, prot, flags, fd, offset)` does: `length` rounds
/// up to whole pages; a file mapping is filled from the file; an anonymous
/// one comes fresh from the pool; either is recorded in the mapping table.
pub open spec fn mmap_step(s: CompatModel, length: u64, prot: u32, flags: u32, fd: i32, offset: u64)
    -> (CompatModel, i64, Seq<UserEffect>)
{
    if length == 0 {
        (s, EINVAL, seq![])
    } else {
        let size = page_round_spec(length);
        if fd >= 0 && flags & MAP_ANON == 0 {
            map_file_step(s, fd, offset, size, prot)
        } else {
            let (m1, ptr) = bump_alloc_spec(s.mem, size);
            if ptr == 0 {
                (s, ENOMEM, seq![])
            } else {
                (
                    CompatModel {
                        mem: MemoryModel {
                            maps: register_map_spec(m1.maps, MapEntry { addr: ptr, size, prot, flags, fd, valid: true }),
                            ..m1
                        },
                        ..s
                    },
                    ptr as i64,
                    seq![],
                )
            }
        }
    }
}

/// What mapping `size` bytes of file `fd` from `offset` does: a block of the
/// pool receives the file's bytes, and the mapping is recorded with no flags.
pub open spec fn map_file_step(s: CompatModel, fd: i32, offset: u64, size: u64, prot: u32) -> (CompatModel, i64, Seq<UserEffect>) {
    let (m1, ptr) = bump_alloc_spec(s.mem, size);
    if ptr == 0 {
        (s, ENOMEM, seq![])
    } else {
        (
            CompatModel {
                mem: MemoryModel {
                    maps: register_map_spec(m1.maps, MapEntry { addr: ptr, size, prot, flags: 0, fd, valid: true }),
                    ..m1
                },
                ..s
            },
            ptr as i64,
            pread_spec(s.fds, fd, ptr, size, offset).1,
        )
    }
}

fn sys_mmap(st: &mut CompatState, length: u64, prot: u32, flags: u32, fd: i32, offset: u64, eff: &mut Vec<UserEffect>) -> (r: i64)
    requires
        old(st)@.wf(),
    ensures
        final(st)@.wf(),
        (final(st)@, r, final(eff)@) == {
            let x = mmap_step(old(st)@, length, prot, flags, fd, offset);
            (x.0, x.1, old(eff)@ + x.2)
        },
{
    if length == 0 {
        proof { assert(eff@ =~= old(eff)@ + seq![]); }
        return EINVAL;
    }
    let size = page_round(length);
    if fd >= 0 && flags & MAP_ANON == 0 {
        return map_file(st, fd, offset, size, prot, eff);
    }
    proof { lemma_bump_alloc_nonzero(st.mem@, size); }
    let ptr = bump_alloc(&mut st.mem, size);
    if ptr == 0 {
        proof { assert(eff@ =~= old(eff)@ + seq![]); }
        return ENOMEM;
    }
    crate::pool::register_block(&mut st.mem, ptr, size, prot, flags, fd);
    proof { assert(eff@ =~= old(eff)@ + seq![]); }
    ptr as i64
}

fn map_file(st: &mut CompatState, fd: i32, offset: u64, size: u64, prot: u32, eff: &mut Vec<UserEffect>) -> (r: i64)
    requires
        old(st)@.wf(),
    ensures
        final(st)@.wf(),
        (final(st)@, r, final(eff)@) == {
            let x = map_file_step(old(st)@, fd, offset, size, prot);
            (x.0, x.1, old(eff)@ + x.2)
        },
{
    proof { lemma_bump_alloc_nonzero(st.mem@, size); }
    let ptr = bump_alloc(&mut st.mem, size);
    if ptr == 0 {
        proof { assert(eff@ =~= old(eff)@ + seq![]); }
        return ENOMEM;
    }
    crate::io_bridge::read_fd(st, fd, offset, ptr, size, eff);
    crate::pool::register_block(&mut st.mem, ptr, size, prot, 0, fd);
    ptr as i64
}

/// What `brk(addr)` does: the first call sets up a 64 KiB heap; 0 asks for
/// the current break; a higher address moves the break there, taking the
/// extra pages from the pool, even when the pool cannot give them.
pub open spec fn brk_step(m: MemoryModel, addr: u64) -> (MemoryModel, i64) {
    let (m1, b) = if m.brk == 0 {
        let (mm, p) = bump_alloc_spec(m, BRK_INITIAL);
        (MemoryModel { brk: p, ..mm }, p)
    } else {
        (m, m.brk)
    };
    if addr == 0 {
        (m1, b as i64)
    } else if addr > b {
        let (m2, _) = bump_alloc_spec(m1, page_round_spec((addr - b) as u64));
        (MemoryModel { brk: addr, ..m2 }, addr as i64)
    } else {
        (m1, b as i64)
    }
}

fn sys_brk(st: &mut CompatState, addr: u64) -> (r: i64)
    requires
        old(st)@.wf(),
    ensures
        final(st)@.wf(),
        final(st)@ == (CompatModel { mem: brk_step(old(st)@.mem, addr).0, ..old(st)@ }),
        r == brk_step(old(st)@.mem, addr).1,
{
    if st.mem.brk == 0 {
        let p = bump_alloc(&mut st.mem, BRK_INITIAL);
        st.mem.brk = p;
    }
    if addr == 0 {
        return st.mem.brk as i64;
    }
    if addr > st.mem.brk {
        let extra = page_round(addr - st.mem.brk);
        let _ = bump_alloc(&mut st.mem, extra);
        st.mem.brk = addr;
    }
    st.mem.brk as i64
}

/// Takes `size` bytes from the pool; 0 when it cannot hold them.
pub fn alloc_bytes(st: &mut CompatState, size: u64) -> (ptr: u64)
    requires
        old(st)@.wf(),
    ensures
        final(st)@.wf(),
        (final(st)@.mem, ptr) == bump_alloc_spec(old(st)@.mem, size),
        final(st)@ == (CompatModel { mem: final(st)@.mem, ..old(st)@ }),
{
    bump_alloc(&mut st.mem, size)
}

/// What the memory bridge does with syscall `nr` and its arguments.
pub open spec fn memory_step(s: CompatModel, nr: u64, a0: u64, a1: u64, a2: u64, a3: u64, a4: u64, a5: u64)
    -> (CompatModel, i64, Seq<UserEffect>)
{
    if nr == SYS_MMAP {
        mmap_step(s, a1, a2 as u32, a3 as u32, a4 as i32, a5)
    } else if nr == SYS_MUNMAP {
        (CompatModel { mem: MemoryModel { maps: unmap_spec(s.mem.maps, a0), ..s.mem }, ..s }, 0, seq![])
    } else if nr == SYS_MPROTECT {
        let x = mprotect_step(s, a0, a2 as u32);
        (x.0, x.1, seq![])
    } else if nr == SYS_MADVISE {
        (s, 0, madvise_effects(a0, a1, a2 as i32))
    } else if nr == SYS_MREMAP {
        let x = mremap_spec(s.mem, a0, a1, a2);
        (CompatModel { mem: x.0, ..s }, x.1, x.2)
    } else if nr == SYS_MINCORE {
        if a2 == 0 {
            (s, EFAULT, seq![])
        } else {
            (s, 0, seq![UserEffect::Fill { dst: a2, len: page_count(a1), value: 1 }])
        }
    } else if nr == SYS_MEMFD_CREATE {
        let x = memfd_create_spec(s.mem);
        (CompatModel { mem: x.0, ..s }, x.1, seq![])
    } else if nr == SYS_BRK {
        (CompatModel { mem: brk_step(s.mem, a0).0, ..s }, brk_step(s.mem, a0).1, seq![])
    } else if nr == SYS_FTRUNCATE {
        let x = crate::fd_table::ftruncate_spec(s.fds, a0 as i32, a1);
        (CompatModel { fds: x.0, ..s }, x.1, seq![])
    } else if nr == SYS_MSYNC || nr == SYS_MEMBARRIER || nr == SYS_MLOCK || nr == SYS_MUNLOCK
        || nr == SYS_FALLOCATE {
        (s, 0, seq![])
    } else {
        (s, EINVAL, seq![])
    }
}

/// Answers a memory syscall.
pub fn handle(st: &mut CompatState, nr: u64, a0: u64, a1: u64, a2: u64, a3: u64, a4: u64, a5: u64) -> (out: Outcome)
    requires
        old(st)@.wf(),
    ensures
        final(st)@.wf(),
        final(st)@ == memory_step(old(st)@, nr, a0, a1, a2, a3, a4, a5).0,
        out@ == Reply::Done(
            memory_step(old(st)@, nr, a0, a1, a2, a3, a4, a5).1,
            memory_step(old(st)@, nr, a0, a1, a2, a3, a4, a5).2,
        ),
{
    let mut eff: Vec<UserEffect> = Vec::new();
    let r = match nr {
        SYS_MMAP => sys_mmap(st, a1, a2 as u32, a3 as u32, a4 as i32, a5, &mut eff),
        SYS_MUNMAP => {
            proof { lemma_update_in_pool(st.mem.maps@, st.mem.pool_base, st.mem.bump, a0, 0, 0, 0); }
            crate::pool::sys_munmap(&mut st.mem.maps, a0)
        },
        SYS_MPROTECT => sys_mprotect(st, a0, a2 as u32),
        SYS_MADVISE => crate::pool::sys_madvise(a0, a1, a2 as i32, &mut eff),
        SYS_MREMAP => crate::pool::sys_mremap(&mut st.mem, a0, a1, a2, &mut eff),
        SYS_MSYNC => 0,
        SYS_MINCORE => crate::pool::sys_mincore(a1, a2, &mut eff),
        SYS_MEMFD_CREATE => crate::pool::sys_memfd_create(&mut st.mem),
        SYS_MEMBARRIER => 0,
        SYS_BRK => sys_brk(st, a0),
        SYS_MLOCK => 0,
        SYS_MUNLOCK => 0,
        SYS_FALLOCATE => 0,
        SYS_FTRUNCATE => crate::io_bridge::ftruncate(st, a0 as i32, a1),
        _ => EINVAL,
    };
    proof { assert(eff@ =~= seq![] + eff@); }
    Outcome::Done(r, eff)
}

/// Whether `mmap` with these flags and descriptor maps anonymous memory.
pub open spec fn is_anonymous(flags: u32, fd: i32) -> bool {
    !(fd >= 0 && flags & MAP_ANON == 0)
}

/// An anonymous mapping that succeeds starts on a page inside the pool, past
/// everything handed out before, and the pool moves past its end.
pub proof fn law_mmap_fresh(s: CompatModel, length: u64, prot: u32, flags: u32, fd: i32, offset: u64)
    requires
        s.wf(),
        0 < length,
        is_anonymous(flags, fd),
        mmap_step(s, length, prot, flags, fd, offset).1 != ENOMEM,
    ensures
        ({
            let r = mmap_step(s, length, prot, flags, fd, offset).1 as u64;
            let t = mmap_step(s, length, prot, flags, fd, offset).0;
            &&& r % PAGE_SIZE == 0
            &&& s.mem.pool_base + s.mem.bump <= r
            &&& r + length <= s.mem.pool_base + POOL_SIZE
            &&& r + length <= t.mem.pool_base + t.mem.bump
            &&& t.wf()
        }),
{
    lemma_align_up_page(s.mem.bump);
    assert(align_up_spec(s.mem.bump, PAGE_SIZE) <= POOL_SIZE) by {
        assert(align_up_spec(s.mem.bump, PAGE_SIZE) % 4096 == 0);
        assert(align_up_spec(s.mem.bump, PAGE_SIZE) < s.mem.bump + 4096);
    }
    if length > POOL_SIZE {
        assert(bump_alloc_spec(s.mem, length).1 == 0);
        assert(false);
    }
    let size = align_up_spec(length, PAGE_SIZE);
    lemma_align_up_page(length);
    lemma_bump_alloc_nonzero(s.mem, size);
    let p = bump_alloc_spec(s.mem, size).1;
    assert(POOL_SIZE % PAGE_SIZE == 0);
    assert(size <= POOL_SIZE) by {
        assert(size % 4096 == 0);
        assert(size < length + 4096);
    }
    assert(align_up_spec(s.mem.bump, PAGE_SIZE) <= POOL_SIZE) by {
        assert(align_up_spec(s.mem.bump, PAGE_SIZE) % 4096 == 0);
        assert(align_up_spec(s.mem.bump, PAGE_SIZE) < s.mem.bump + 4096);
    }
    assert(p != 0);
    lemma_bump_alloc_fresh(s.mem, size);
    let m1 = bump_alloc_spec(s.mem, size).0;
    lemma_register_map_len(m1.maps, MapEntry { addr: p, size, prot, flags, fd, valid: true });
    lemma_register_in_pool(m1.maps, m1.pool_base, m1.bump, MapEntry { addr: p, size, prot, flags, fd, valid: true });
    assert(((p as i64) as u64) == p) by (bit_vector);
}

/// Two anonymous mappings in a row do not overlap: the second starts past
/// the end of the first.
pub proof fn law_mmaps_disjoint(
    s: CompatModel,
    l1: u64,
    l2: u64,
    prot: u32,
    flags: u32,
    fd: i32,
    offset: u64,
)
    requires
        s.wf(),
        0 < l1,
        0 < l2,
        is_anonymous(flags, fd),
        mmap_step(s, l1, prot, flags, fd, offset).1 != ENOMEM,
        mmap_step(mmap_step(s, l1, prot, flags, fd, offset).0, l2, prot, flags, fd, offset).1 != ENOMEM,
    ensures
        mmap_step(s, l1, prot, flags, fd, offset).1 as u64 + l1
            <= mmap_step(mmap_step(s, l1, prot, flags, fd, offset).0, l2, prot, flags, fd, offset).1 as u64,
{
    law_mmap_fresh(s, l1, prot, flags, fd, offset);
    let t = mmap_step(s, l1, prot, flags, fd, offset).0;
    law_mmap_fresh(t, l2, prot, flags, fd, offset);
}

/// A failed mapping changes nothing.
pub proof fn law_mmap_failure_changes_nothing(s: CompatModel, length: u64, prot: u32, flags: u32, fd: i32, offset: u64)
    requires
        s.wf(),
        is_anonymous(flags, fd),
        mmap_step(s, length, prot, flags, fd, offset).1 == ENOMEM
            || mmap_step(s, length, prot, flags, fd, offset).1 == EINVAL,
    ensures
        mmap_step(s, length, prot, flags, fd, offset).0 == s,
{
    if length > 0 {
        let size = page_round_spec(length);
        lemma_bump_alloc_nonzero(s.mem, size);
        let p = bump_alloc_spec(s.mem, size).1;
        if p != 0 {
            lemma_bump_alloc_fresh_aligned(s.mem, size);
            assert(p % 4096 == 0 ==> (p as i64) != -12i64 && (p as i64) != -22i64) by (bit_vector);
        }
    }
}

/// The break a call moves to is the break the next query reports.
pub proof fn law_brk_reported(m: MemoryModel, addr: u64)
    requires
        m.wf(),
        m.brk != 0,
        addr > m.brk,
    ensures
        brk_step(brk_step(m, addr).0, 0) == (brk_step(m, addr).0, addr as i64),
{
}

/// A file mapping holds the file's bytes: when the pool can give the block
/// for `length` bytes rounded up to pages, mapping `fd` from `offset`
/// answers the block's address and has exactly the effects of `pread` of
/// that many bytes of `fd` from `offset` into the block; for a file with a
/// buffer that holds them all, that is one copy of them from the file's
/// buffer at `offset`.
pub proof fn law_file_mapping_reads_file(s: CompatModel, length: u64, prot: u32, flags: u32, fd: i32, offset: u64)
    requires
        s.wf(),
        length > 0,
        !is_anonymous(flags, fd),
        bump_alloc_spec(s.mem, page_round_spec(length)).1 != 0,
    ensures
        ({
            let n = page_round_spec(length);
            let p = bump_alloc_spec(s.mem, n).1;
            let (t, r, e) = mmap_step(s, length, prot, flags, fd, offset);
            &&& r as u64 == p
            &&& e == pread_spec(s.fds, fd, p, n, offset).1
            &&& (0 <= fd < 256 && s.fds[fd as int].valid && s.fds[fd as int].data_ptr != 0
                && offset + n <= s.fds[fd as int].size)
                ==> e == seq![UserEffect::CopyBytes { dst: p, src: wadd(s.fds[fd as int].data_ptr, offset), len: n }]
        }),
{
    let p = bump_alloc_spec(s.mem, page_round_spec(length)).1;
    assert(((p as i64) as u64) == p) by (bit_vector);
    if length <= POOL_SIZE {
        lemma_align_up_page(length);
    }
    assert(page_round_spec(length) > 0);
}

} // verus!
