//! The memory pool that backs every anonymous mapping, file mapping, `brk`
//! heap and virtual file buffer: a bump allocator over a fixed 256 MiB region,
//! and the table of the mappings handed out from it.
use vstd::prelude::*;
use crate::search::{first_where, lemma_first_where};
use crate::user_mem::UserEffect;

verus! {

/// Size of the pool, 256 MiB.
pub const POOL_SIZE: u64 = 0x1000_0000;
/// Page size; every allocation starts on a page boundary.
pub const PAGE_SIZE: u64 = 4096;
/// Number of slots in the mapping table.
pub const MAX_MAPS: usize = 1024;
/// Initial `brk` heap, 64 KiB.
pub const BRK_INITIAL: u64 = 0x1_0000;
/// First file descriptor that `memfd_create` hands out.
pub const FIRST_MEMFD: i32 = 1000;
/// `madvise` clears at most this many bytes (16 pages).
pub const MADVISE_CLEAR_MAX: u64 = 0x1_0000;

pub const PROT_EXEC: u32 = 4;
pub const MAP_SHARED: u32 = 0x01;
pub const MAP_ANON: u32 = 0x20;
pub const MADV_DONTNEED: i32 = 4;
pub const MADV_FREE: i32 = 8;

/// `x + y` on 64 bits, wrapping around.
pub open spec fn wadd(x: u64, y: u64) -> u64 {
    vstd::wrapping::u64_specs::wrapping_add(x, y)
}

/// One mapping handed out by `mmap`.
#[derive(Clone, Copy, PartialEq, Eq, Debug)]
pub struct MapEntry {
    pub addr: u64,
    pub size: u64,
    pub prot: u32,
    pub flags: u32,
    pub fd: i32,
    pub valid: bool,
}

impl MapEntry {
    /// A free slot.
    pub fn empty() -> (e: MapEntry)
        ensures
            e == MapEntry::spec_empty(),
    {
        MapEntry { addr: 0, size: 0, prot: 0, flags: 0, fd: -1, valid: false }
    }

    pub open spec fn spec_empty() -> MapEntry {
        MapEntry { addr: 0, size: 0, prot: 0, flags: 0, fd: -1i32, valid: false }
    }
}

/// The pool's allocator state, the `brk` heap, the mapping table and the
/// `memfd` counter.
pub struct MemoryState {
    /// Address of the first byte of the pool.
    pub pool_base: u64,
    /// Offset of the first unused byte.
    pub bump: u64,
    /// Current program break, 0 until the first `brk`.
    pub brk: u64,
    pub maps: Vec<MapEntry>,
    pub next_memfd: i32,
}

/// The mathematical value of a `MemoryState`.
pub struct MemoryModel {
    pub pool_base: u64,
    pub bump: u64,
    pub brk: u64,
    pub maps: Seq<MapEntry>,
    pub next_memfd: i32,
}

impl View for MemoryState {
    type V = MemoryModel;

    open spec fn view(&self) -> MemoryModel {
        MemoryModel {
            pool_base: self.pool_base,
            bump: self.bump,
            brk: self.brk,
            maps: self.maps@,
            next_memfd: self.next_memfd,
        }
    }
}

impl MemoryModel {
    /// The pool lies in the address space, starts on a page and is not at
    /// address 0; the allocator never runs past its end; the table has its
    /// fixed number of slots; `memfd` descriptors start at 1000; every live
    /// mapping lies in the part of the pool handed out so far.
    pub open spec fn wf(self) -> bool {
        &&& 0 < self.pool_base
        &&& self.pool_base % PAGE_SIZE == 0
        &&& self.pool_base + POOL_SIZE <= u64::MAX
        &&& self.bump <= POOL_SIZE
        &&& self.maps.len() == MAX_MAPS
        &&& self.next_memfd >= FIRST_MEMFD
        &&& maps_in_pool(self.maps, self.pool_base, self.bump)
    }
}

/// Every live mapping of `maps` lies between `base` and `base + bump`.
pub open spec fn maps_in_pool(maps: Seq<MapEntry>, base: u64, bump: u64) -> bool {
    forall|i: int| 0 <= i < maps.len() && #[trigger] maps[i].valid
        ==> base <= maps[i].addr && maps[i].addr + maps[i].size <= base + bump
}

/// `n` rounded up to a multiple of `align`, wrapping around on overflow.
pub open spec fn align_up_spec(n: u64, align: u64) -> u64 {
    wadd(n, (align - 1) as u64) & !((align - 1) as u64)
}

/// Rounds `n` up to a multiple of `align`, which must not be 0.
pub fn align_up(n: u64, align: u64) -> (r: u64)
    requires
        align > 0,
    ensures
        r == align_up_spec(n, align),
{
    n.wrapping_add(align - 1) & !(align - 1)
}

/// Rounding up to a page, where it does not overflow, gives the least page
/// multiple at or above `n`.
pub proof fn lemma_align_up_page(n: u64)
    requires
        n + PAGE_SIZE - 1 <= u64::MAX,
    ensures
        align_up_spec(n, PAGE_SIZE) % PAGE_SIZE == 0,
        n <= align_up_spec(n, PAGE_SIZE),
        align_up_spec(n, PAGE_SIZE) < n + PAGE_SIZE,
{
    let x = (n + 4095) as u64;
    assert(wadd(n, 4095u64) == x);
    assert(x & !4095u64 == x - x % 4096) by (bit_vector);
}

/// A page multiple is its own rounding.
pub proof fn lemma_align_up_aligned(n: u64)
    requires
        n % PAGE_SIZE == 0,
        n + PAGE_SIZE - 1 <= u64::MAX,
    ensures
        align_up_spec(n, PAGE_SIZE) == n,
{
    lemma_align_up_page(n);
}

/// What the bump allocator hands out for `size` bytes: the address and the
/// allocator afterwards; address 0, with nothing taken, when the pool cannot
/// hold them.
pub open spec fn bump_alloc_spec(m: MemoryModel, size: u64) -> (MemoryModel, u64) {
    let aligned = align_up_spec(m.bump, PAGE_SIZE);
    if aligned + size > POOL_SIZE {
        (m, 0)
    } else {
        (MemoryModel { bump: (aligned + size) as u64, ..m }, (m.pool_base + aligned) as u64)
    }
}

/// `n` rounded up to whole pages where it fits in the pool; a length beyond
/// the pool, which no allocation can hold, is left as it is.
pub open spec fn page_round_spec(n: u64) -> u64 {
    if n <= POOL_SIZE { align_up_spec(n, PAGE_SIZE) } else { n }
}

/// Rounds `n` up to whole pages where it fits in the pool.
pub fn page_round(n: u64) -> (r: u64)
    ensures
        r == page_round_spec(n),
{
    if n <= POOL_SIZE { align_up(n, PAGE_SIZE) } else { n }
}

/// Takes `size` bytes from the pool, starting on a page boundary; returns 0
/// when the pool cannot hold them.
pub fn bump_alloc(mem: &mut MemoryState, size: u64) -> (ptr: u64)
    requires
        old(mem)@.wf(),
    ensures
        (final(mem)@, ptr) == bump_alloc_spec(old(mem)@, size),
        final(mem)@.wf(),
        ptr != 0 ==> old(mem)@.pool_base + old(mem)@.bump <= ptr
            && ptr + size == final(mem)@.pool_base + final(mem)@.bump,
{
    proof {
        lemma_align_up_page(mem.bump);
        assert(POOL_SIZE % PAGE_SIZE == 0);
    }
    let aligned = align_up(mem.bump, PAGE_SIZE);
    proof {
        assert(aligned <= POOL_SIZE) by {
            assert(aligned % 4096 == 0);
            assert(aligned < mem.bump + 4096);
        }
    }
    if size > POOL_SIZE - aligned {
        return 0;
    }
    let ptr = mem.pool_base + aligned;
    mem.bump = aligned + size;
    ptr
}

/// An allocation that succeeds lies in the pool, on a page, past every
/// earlier allocation; the allocator moves past it.
pub proof fn lemma_bump_alloc_fresh(m: MemoryModel, size: u64)
    requires
        m.wf(),
        bump_alloc_spec(m, size).1 != 0,
    ensures
        bump_alloc_spec(m, size).1 % PAGE_SIZE == 0,
        m.pool_base + m.bump <= bump_alloc_spec(m, size).1,
        bump_alloc_spec(m, size).1 + size <= m.pool_base + POOL_SIZE,
        bump_alloc_spec(m, size).0.pool_base + bump_alloc_spec(m, size).0.bump
            == bump_alloc_spec(m, size).1 + size,
{
    lemma_align_up_page(m.bump);
    let aligned = align_up_spec(m.bump, PAGE_SIZE);
    assert((m.pool_base + aligned) % (PAGE_SIZE as int) == 0) by {
        vstd::arithmetic::div_mod::lemma_mod_adds(m.pool_base as int, aligned as int, PAGE_SIZE as int);
    }
}

/// Blocks never overlap: a block the pool hands out starts past the end of
/// everything handed out before (the part below the bump pointer), hence
/// past every live mapping, and the bump pointer moves to its end.
pub proof fn law_new_block_past_mappings(m: MemoryModel, size: u64)
    requires
        m.wf(),
        bump_alloc_spec(m, size).1 != 0,
    ensures
        m.pool_base + m.bump <= bump_alloc_spec(m, size).1,
        bump_alloc_spec(m, size).1 + size == bump_alloc_spec(m, size).0.pool_base + bump_alloc_spec(m, size).0.bump,
        forall|i: int| 0 <= i < m.maps.len() && #[trigger] m.maps[i].valid
            ==> m.maps[i].addr + m.maps[i].size <= bump_alloc_spec(m, size).1,
        bump_alloc_spec(m, size).0.wf(),
{
    lemma_bump_alloc_fresh(m, size);
    lemma_bump_alloc_nonzero(m, size);
}

/// A free slot of the mapping table.
pub open spec fn map_free() -> spec_fn(MapEntry) -> bool {
    |e: MapEntry| !e.valid
}

/// A live mapping that starts at `addr`.
pub open spec fn map_at(addr: u64) -> spec_fn(MapEntry) -> bool {
    |e: MapEntry| e.valid && e.addr == addr
}

/// A successful allocation is never address 0, so 0 can report failure.
pub proof fn lemma_bump_alloc_nonzero(m: MemoryModel, size: u64)
    requires
        m.wf(),
    ensures
        bump_alloc_spec(m, size).1 == 0 ==> bump_alloc_spec(m, size).0 == m,
        bump_alloc_spec(m, size).0.wf(),
{
    lemma_align_up_page(m.bump);
    assert(POOL_SIZE % PAGE_SIZE == 0);
    let aligned = align_up_spec(m.bump, PAGE_SIZE);
    assert(aligned <= POOL_SIZE) by {
        assert(aligned % 4096 == 0);
        assert(aligned < m.bump + 4096);
    }
}

/// A successful allocation starts on a page, whatever its size.
pub proof fn lemma_bump_alloc_fresh_aligned(m: MemoryModel, size: u64)
    requires
        m.wf(),
        bump_alloc_spec(m, size).1 != 0,
    ensures
        bump_alloc_spec(m, size).1 % PAGE_SIZE == 0,
{
    lemma_align_up_page(m.bump);
    let aligned = align_up_spec(m.bump, PAGE_SIZE);
    assert((m.pool_base + aligned) % (PAGE_SIZE as int) == 0) by {
        vstd::arithmetic::div_mod::lemma_mod_adds(m.pool_base as int, aligned as int, PAGE_SIZE as int);
    }
}

/// The slot `mmap` registers a new mapping in: the first free one.
pub open spec fn free_map_slot(maps: Seq<MapEntry>) -> int {
    first_where(maps, map_free(), 0)
}

/// The slot of the mapping that starts at `addr`: the first live one.
pub open spec fn map_slot_at(maps: Seq<MapEntry>, addr: u64) -> int {
    first_where(maps, map_at(addr), 0)
}

/// The table after registering a mapping; unchanged when it is full.
pub open spec fn register_map_spec(maps: Seq<MapEntry>, e: MapEntry) -> Seq<MapEntry> {
    let i = free_map_slot(maps);
    if i < maps.len() {
        maps.update(i, e)
    } else {
        maps
    }
}

/// Registering keeps the table's size.
pub proof fn lemma_register_map_len(maps: Seq<MapEntry>, e: MapEntry)
    ensures
        register_map_spec(maps, e).len() == maps.len(),
{
    lemma_first_where(maps, map_free(), 0);
}

/// Registering a mapping that lies in the handed-out part of the pool keeps
/// every live mapping there.
pub proof fn lemma_register_in_pool(maps: Seq<MapEntry>, base: u64, bump: u64, e: MapEntry)
    requires
        maps_in_pool(maps, base, bump),
        base <= e.addr,
        e.addr + e.size <= base + bump,
    ensures
        maps_in_pool(register_map_spec(maps, e), base, bump),
{
    lemma_first_where(maps, map_free(), 0);
}

/// Records a mapping of a block already handed out, in the first free slot;
/// does nothing when the table is full.
pub fn register_block(mem: &mut MemoryState, addr: u64, size: u64, prot: u32, flags: u32, fd: i32)
    requires
        old(mem)@.wf(),
        old(mem)@.pool_base <= addr,
        addr + size <= old(mem)@.pool_base + old(mem)@.bump,
    ensures
        final(mem)@.wf(),
        final(mem)@ == (MemoryModel {
            maps: register_map_spec(old(mem)@.maps, MapEntry { addr, size, prot, flags, fd, valid: true }),
            ..old(mem)@
        }),
{
    proof {
        let e = MapEntry { addr, size, prot, flags, fd, valid: true };
        lemma_register_in_pool(mem@.maps, mem@.pool_base, mem@.bump, e);
        lemma_register_map_len(mem@.maps, e);
    }
    register_map(&mut mem.maps, addr, size, prot, flags, fd);
}

/// Freeing, re-protecting or moving (within the handed-out part) the mapping
/// at `addr` keeps every live mapping in the handed-out part of the pool.
pub proof fn lemma_update_in_pool(maps: Seq<MapEntry>, base: u64, bump: u64, addr: u64, prot: u32, new_addr: u64, new_size: u64)
    requires
        maps_in_pool(maps, base, bump),
    ensures
        maps_in_pool(unmap_spec(maps, addr), base, bump),
        maps_in_pool(protect_spec(maps, addr, prot), base, bump),
        base <= new_addr && new_addr + new_size <= base + bump
            ==> maps_in_pool(relocate_spec(maps, addr, new_addr, new_size), base, bump),
{
    lemma_first_where(maps, map_at(addr), 0);
}

/// Records a mapping in the first free slot; does nothing when the table is full.
pub fn register_map(maps: &mut Vec<MapEntry>, addr: u64, size: u64, prot: u32, flags: u32, fd: i32)
    ensures
        final(maps)@.len() == old(maps)@.len(),
        final(maps)@ == register_map_spec(
            old(maps)@,
            MapEntry { addr, size, prot, flags, fd, valid: true },
        ),
{
    let ghost p = map_free();
    let mut i: usize = 0;
    while i < maps.len()
        invariant
            p == map_free(),
            i <= maps@.len(),
            maps@ == old(maps)@,
            first_where(maps@, p, 0) == first_where(maps@, p, i as int),
        decreases maps@.len() - i,
    {
        if !maps[i].valid {
            maps.set(i, MapEntry { addr, size, prot, flags, fd, valid: true });
            return;
        }
        i = i + 1;
    }
}

/// The table after `munmap(addr)`: the first live mapping at `addr` is freed.
pub open spec fn unmap_spec(maps: Seq<MapEntry>, addr: u64) -> Seq<MapEntry> {
    let i = map_slot_at(maps, addr);
    if i < maps.len() {
        maps.update(i, MapEntry { valid: false, ..maps[i] })
    } else {
        maps
    }
}

/// `munmap`: forgets the mapping that starts at `addr`; succeeds whether or
/// not there is one.
pub fn sys_munmap(maps: &mut Vec<MapEntry>, addr: u64) -> (r: i64)
    ensures
        final(maps)@.len() == old(maps)@.len(),
        final(maps)@ == unmap_spec(old(maps)@, addr),
        r == 0,
{
    let ghost p = map_at(addr);
    let mut i: usize = 0;
    while i < maps.len()
        invariant
            p == map_at(addr),
            i <= maps@.len(),
            maps@ == old(maps)@,
            first_where(maps@, p, 0) == first_where(maps@, p, i as int),
        decreases maps@.len() - i,
    {
        let e = maps[i];
        if e.valid && e.addr == addr {
            maps.set(i, MapEntry { valid: false, ..e });
            return 0;
        }
        i = i + 1;
    }
    0
}

/// The table after `mprotect(addr, _, prot)`.
pub open spec fn protect_spec(maps: Seq<MapEntry>, addr: u64, prot: u32) -> Seq<MapEntry> {
    let i = map_slot_at(maps, addr);
    if i < maps.len() {
        maps.update(i, MapEntry { prot, ..maps[i] })
    } else {
        maps
    }
}

/// `mprotect`: records the new protection of the mapping that starts at
/// `addr`; succeeds whether or not there is one (the pool has no MMU to
/// enforce it, executable pages included).
pub fn sys_mprotect(maps: &mut Vec<MapEntry>, addr: u64, prot: u32) -> (r: i64)
    ensures
        final(maps)@.len() == old(maps)@.len(),
        final(maps)@ == protect_spec(old(maps)@, addr, prot),
        r == 0,
{
    let ghost p = map_at(addr);
    let mut i: usize = 0;
    while i < maps.len()
        invariant
            p == map_at(addr),
            i <= maps@.len(),
            maps@ == old(maps)@,
            first_where(maps@, p, 0) == first_where(maps@, p, i as int),
        decreases maps@.len() - i,
    {
        let e = maps[i];
        if e.valid && e.addr == addr {
            maps.set(i, MapEntry { prot, ..e });
            return 0;
        }
        i = i + 1;
    }
    0
}

/// The table after a mapping at `old_addr` moved to `new_addr` with `new_size`.
pub open spec fn relocate_spec(maps: Seq<MapEntry>, old_addr: u64, new_addr: u64, new_size: u64) -> Seq<MapEntry> {
    let i = map_slot_at(maps, old_addr);
    if i < maps.len() {
        maps.update(i, MapEntry { addr: new_addr, size: new_size, ..maps[i] })
    } else {
        maps
    }
}

/// Moves the record of the mapping at `old_addr`; nothing when there is none.
pub fn relocate_map(maps: &mut Vec<MapEntry>, old_addr: u64, new_addr: u64, new_size: u64)
    ensures
        final(maps)@.len() == old(maps)@.len(),
        final(maps)@ == relocate_spec(old(maps)@, old_addr, new_addr, new_size),
{
    let ghost p = map_at(old_addr);
    let mut i: usize = 0;
    while i < maps.len()
        invariant
            p == map_at(old_addr),
            i <= maps@.len(),
            maps@ == old(maps)@,
            first_where(maps@, p, 0) == first_where(maps@, p, i as int),
        decreases maps@.len() - i,
    {
        let e = maps[i];
        if e.valid && e.addr == old_addr {
            maps.set(i, MapEntry { addr: new_addr, size: new_size, ..e });
            return;
        }
        i = i + 1;
    }
}

/// What `madvise` does: `MADV_DONTNEED` and `MADV_FREE` on a non-null,
/// non-empty range clear its first 64 KiB at most; every call succeeds.
pub open spec fn madvise_effects(addr: u64, length: u64, advice: i32) -> Seq<UserEffect> {
    if (advice == MADV_DONTNEED || advice == MADV_FREE) && addr != 0 && length > 0 {
        seq![UserEffect::Fill {
            dst: addr,
            len: if length < MADVISE_CLEAR_MAX { length } else { MADVISE_CLEAR_MAX },
            value: 0,
        }]
    } else {
        seq![]
    }
}

/// `madvise`.
pub fn sys_madvise(addr: u64, length: u64, advice: i32, eff: &mut Vec<UserEffect>) -> (r: i64)
    ensures
        r == 0,
        final(eff)@ == old(eff)@ + madvise_effects(addr, length, advice),
{
    if (advice == MADV_DONTNEED || advice == MADV_FREE) && addr != 0 && length > 0 {
        let n = if length < MADVISE_CLEAR_MAX { length } else { MADVISE_CLEAR_MAX };
        eff.push(UserEffect::Fill { dst: addr, len: n, value: 0 });
    }
    proof {
        assert(final(eff)@ =~= old(eff)@ + madvise_effects(addr, length, advice));
    }
    0
}

/// What `mremap` does: a shrink keeps the mapping where it is; a growth takes a
/// fresh block for the new size, copies the old bytes and moves the record.
pub open spec fn mremap_spec(m: MemoryModel, old_addr: u64, old_size: u64, new_size: u64)
    -> (MemoryModel, i64, Seq<UserEffect>)
{
    if new_size <= old_size {
        (m, old_addr as i64, seq![])
    } else {
        let (m1, p) = bump_alloc_spec(m, page_round_spec(new_size));
        if p == 0 {
            (m, crate::syscall_wrapper::ENOMEM, seq![])
        } else {
            (
                MemoryModel { maps: relocate_spec(m1.maps, old_addr, p, new_size), ..m1 },
                p as i64,
                seq![UserEffect::CopyBytes { dst: p, src: old_addr, len: old_size }],
            )
        }
    }
}

/// `mremap`.
pub fn sys_mremap(mem: &mut MemoryState, old_addr: u64, old_size: u64, new_size: u64, eff: &mut Vec<UserEffect>) -> (r: i64)
    requires
        old(mem)@.wf(),
    ensures
        final(mem)@.wf(),
        (final(mem)@, r, final(eff)@) == {
            let s = mremap_spec(old(mem)@, old_addr, old_size, new_size);
            (s.0, s.1, old(eff)@ + s.2)
        },
{
    if new_size <= old_size {
        proof { assert(eff@ =~= old(eff)@ + seq![]); }
        return old_addr as i64;
    }
    let size = page_round(new_size);
    proof { lemma_bump_alloc_nonzero(mem@, size); }
    let p = bump_alloc(mem, size);
    if p == 0 {
        proof { assert(eff@ =~= old(eff)@ + seq![]); }
        return crate::syscall_wrapper::ENOMEM;
    }
    eff.push(UserEffect::CopyBytes { dst: p, src: old_addr, len: old_size });
    proof {
        if new_size <= POOL_SIZE {
            lemma_align_up_page(new_size);
        }
        assert(new_size <= size);
        lemma_update_in_pool(mem@.maps, mem@.pool_base, mem@.bump, old_addr, 0, p, new_size);
    }
    relocate_map(&mut mem.maps, old_addr, p, new_size);
    proof {
        assert(mem.maps@.len() == MAX_MAPS);
        assert(eff@ =~= old(eff)@ + seq![UserEffect::CopyBytes { dst: p, src: old_addr, len: old_size }]);
    }
    p as i64
}

/// Number of pages that `length` bytes touch, rounding up, wrapping around
/// on overflow.
pub open spec fn page_count(length: u64) -> u64 {
    (wadd(length, (PAGE_SIZE - 1) as u64) / PAGE_SIZE) as u64
}

/// `mincore`: every page of the pool is resident, so the vector is all ones.
pub fn sys_mincore(length: u64, vec_ptr: u64, eff: &mut Vec<UserEffect>) -> (r: i64)
    ensures
        vec_ptr == 0 ==> r == crate::syscall_wrapper::EFAULT && final(eff)@ == old(eff)@,
        vec_ptr != 0 ==> r == 0 && final(eff)@ == old(eff)@.push(
            UserEffect::Fill { dst: vec_ptr, len: page_count(length), value: 1 },
        ),
{
    if vec_ptr == 0 {
        return crate::syscall_wrapper::EFAULT;
    }
    let pages = length.wrapping_add(PAGE_SIZE - 1) / PAGE_SIZE;
    eff.push(UserEffect::Fill { dst: vec_ptr, len: pages, value: 1 });
    0
}

/// `EMFILE`: no descriptor left.
pub const EMFILE: i64 = -24;

/// What `memfd_create` does: a new descriptor from the `memfd` counter, which
/// moves on by one; once the counter has reached the largest descriptor, the
/// call fails with `EMFILE` and nothing changes.
pub open spec fn memfd_create_spec(m: MemoryModel) -> (MemoryModel, i64) {
    if m.next_memfd == i32::MAX {
        (m, EMFILE)
    } else {
        (MemoryModel { next_memfd: (m.next_memfd + 1) as i32, ..m }, m.next_memfd as i64)
    }
}

/// `memfd_create`.
pub fn sys_memfd_create(mem: &mut MemoryState) -> (r: i64)
    requires
        old(mem)@.wf(),
    ensures
        final(mem)@.wf(),
        (final(mem)@, r) == memfd_create_spec(old(mem)@),
{
    if mem.next_memfd == i32::MAX {
        return EMFILE;
    }
    let fd = mem.next_memfd;
    mem.next_memfd = mem.next_memfd + 1;
    fd as i64
}

} // verus!
