//! The table of virtual file descriptors behind the I/O bridges, and the
//! operations both bridges share.
use vstd::prelude::*;
use crate::search::{first_where, lemma_first_where};
use crate::pool::wadd;
use crate::user_mem::{UserData, UserEffect, UserRead, answered, answered_at, byte_at, bytes_of, data_len, push_bytes, push_words, byte_effects, word_effects};
use crate::syscall_wrapper::{EBADF, EFAULT, EINVAL};

verus! {

/// Number of descriptors in the table.
pub const MAX_FDS: usize = 256;
/// Descriptors 0 to 9 are never handed out by `openat` or `pipe2`.
pub const FIRST_FD: usize = 10;
/// `ASHMEM_SET_SIZE`.
pub const ASHMEM_SET_SIZE: u64 = 0x4008_7703;
/// `ASHMEM_GET_SIZE`.
pub const ASHMEM_GET_SIZE: u64 = 0x0000_7704;
/// `ASHMEM_SET_NAME`.
pub const ASHMEM_SET_NAME: u64 = 0x4100_7701;
/// Longest path read from the caller.
pub const PATH_MAX: u64 = 4096;

/// What a descriptor refers to.
#[derive(Clone, Copy, PartialEq, Eq, Debug)]
pub enum FdKind {
    Stdout,
    Stderr,
    StorageFile,
    MemFd,
    PipeRead,
    PipeWrite,
}

/// One descriptor: a file of `size` bytes, read and written at `offset`,
/// whose bytes live at `data_ptr` in the pool when that is not 0.
#[derive(Clone, Copy, PartialEq, Eq, Debug)]
pub struct FdEntry {
    pub kind: FdKind,
    pub offset: u64,
    pub size: u64,
    pub data_ptr: u64,
    pub valid: bool,
}

impl FdEntry {
    /// A closed descriptor.
    pub fn empty() -> (e: FdEntry)
        ensures
            e == FdEntry::spec_empty(),
    {
        FdEntry { kind: FdKind::Stdout, offset: 0, size: 0, data_ptr: 0, valid: false }
    }

    pub open spec fn spec_empty() -> FdEntry {
        FdEntry { kind: FdKind::Stdout, offset: 0, size: 0, data_ptr: 0, valid: false }
    }

    /// An open descriptor of `kind` with no data.
    pub open spec fn fresh(kind: FdKind) -> FdEntry {
        FdEntry { kind, offset: 0, size: 0, data_ptr: 0, valid: true }
    }
}

/// A table of the right size.
pub open spec fn fds_wf(fds: Seq<FdEntry>) -> bool {
    fds.len() == MAX_FDS
}

/// Whether `fd` indexes the table.
pub open spec fn in_table(fd: i32) -> bool {
    0 <= fd < MAX_FDS
}

/// A closed descriptor.
pub open spec fn fd_free() -> spec_fn(FdEntry) -> bool {
    |e: FdEntry| !e.valid
}

/// The descriptor the next `openat` gets: the first closed one from 10 on,
/// or -1 when all are open.
pub open spec fn alloc_fd_spec(fds: Seq<FdEntry>) -> i32 {
    let i = first_where(fds, fd_free(), FIRST_FD as int);
    if i < fds.len() {
        i as i32
    } else {
        -1i32
    }
}

/// Finds the first closed descriptor from 10 on; -1 when there is none.
pub fn alloc_fd(fds: &Vec<FdEntry>) -> (fd: i32)
    requires
        fds_wf(fds@),
    ensures
        fd == alloc_fd_spec(fds@),
        fd == -1 || (FIRST_FD <= fd < MAX_FDS && !fds@[fd as int].valid),
{
    proof { lemma_first_where(fds@, fd_free(), FIRST_FD as int); }
    let ghost p = fd_free();
    let mut i: usize = FIRST_FD;
    while i < fds.len()
        invariant
            FIRST_FD <= i <= fds@.len() == MAX_FDS,
            p == fd_free(),
            first_where(fds@, p, FIRST_FD as int) == first_where(fds@, p, i as int),
        decreases fds@.len() - i,
    {
        if !fds[i].valid {
            return i as i32;
        }
        i = i + 1;
    }
    -1
}

/// What `close(fd)` does: descriptors from 3 on are closed; 0, 1 and 2 stay.
pub open spec fn close_spec(fds: Seq<FdEntry>, fd: i32) -> (Seq<FdEntry>, i64) {
    if !in_table(fd) {
        (fds, EBADF)
    } else if fd >= 3 {
        (fds.update(fd as int, FdEntry { valid: false, ..fds[fd as int] }), 0)
    } else {
        (fds, 0)
    }
}

/// `close`.
pub fn sys_close(fds: &mut Vec<FdEntry>, fd: i32) -> (r: i64)
    requires
        fds_wf(old(fds)@),
    ensures
        (final(fds)@, r) == close_spec(old(fds)@, fd),
{
    if fd < 0 || fd as usize >= MAX_FDS {
        return EBADF;
    }
    if fd >= 3 {
        let e = fds[fd as usize];
        fds.set(fd as usize, FdEntry { valid: false, ..e });
    }
    0
}

/// `x - y`, or 0 when `y` is larger.
pub open spec fn sat_sub(x: u64, y: u64) -> u64 {
    if x >= y {
        (x - y) as u64
    } else {
        0
    }
}

pub open spec fn min_u64(x: u64, y: u64) -> u64 {
    if x < y {
        x
    } else {
        y
    }
}

/// What `read(fd, buf, len)` does: descriptor 0 is at end of file; a file
/// gives the bytes between its offset and its size, at most `len`, and its
/// offset moves past them.
pub open spec fn read_spec(fds: Seq<FdEntry>, fd: i32, buf: u64, len: u64)
    -> (Seq<FdEntry>, i64, Seq<UserEffect>)
{
    if fd == 0 {
        (fds, 0, seq![])
    } else if !in_table(fd) || !fds[fd as int].valid {
        (fds, EBADF, seq![])
    } else {
        let e = fds[fd as int];
        let n = min_u64(len, sat_sub(e.size, e.offset));
        if n > 0 && e.data_ptr != 0 {
            (
                fds.update(fd as int, FdEntry { offset: wadd(e.offset, n), ..e }),
                n as i64,
                seq![UserEffect::CopyBytes { dst: buf, src: wadd(e.data_ptr, e.offset), len: n }],
            )
        } else {
            (fds, n as i64, seq![])
        }
    }
}

/// `read`.
pub fn sys_read(fds: &mut Vec<FdEntry>, fd: i32, buf: u64, len: u64, eff: &mut Vec<UserEffect>) -> (r: i64)
    requires
        fds_wf(old(fds)@),
    ensures
        fds_wf(final(fds)@),
        (final(fds)@, r, final(eff)@) == {
            let s = read_spec(old(fds)@, fd, buf, len);
            (s.0, s.1, old(eff)@ + s.2)
        },
{
    if fd == 0 {
        proof { assert(eff@ =~= old(eff)@ + seq![]); }
        return 0;
    }
    if fd < 0 || fd as usize >= MAX_FDS {
        proof { assert(eff@ =~= old(eff)@ + seq![]); }
        return EBADF;
    }
    let e = fds[fd as usize];
    if !e.valid {
        proof { assert(eff@ =~= old(eff)@ + seq![]); }
        return EBADF;
    }
    let avail = e.size.saturating_sub(e.offset);
    let n = if len < avail { len } else { avail };
    if n > 0 && e.data_ptr != 0 {
        eff.push(UserEffect::CopyBytes { dst: buf, src: e.data_ptr.wrapping_add(e.offset), len: n });
        fds.set(fd as usize, FdEntry { offset: e.offset.wrapping_add(n), ..e });
        proof {
            assert(eff@ =~= old(eff)@ + seq![UserEffect::CopyBytes {
                dst: buf, src: wadd(e.data_ptr, e.offset), len: n }]);
        }
    } else {
        proof { assert(eff@ =~= old(eff)@ + seq![]); }
    }
    n as i64
}

/// What writing `len` bytes to a file descriptor (not the console) does: the
/// bytes go to the file's buffer at its offset, when it has one; the offset
/// moves past them and the size grows to the offset.
pub open spec fn write_file_spec(fds: Seq<FdEntry>, fd: i32, buf: u64, len: u64)
    -> (Seq<FdEntry>, i64, Seq<UserEffect>)
{
    if !in_table(fd) || !fds[fd as int].valid {
        (fds, EBADF, seq![])
    } else {
        let e = fds[fd as int];
        if e.data_ptr != 0 {
            let off = wadd(e.offset, len);
            (
                fds.update(fd as int, FdEntry { offset: off, size: if off > e.size { off } else { e.size }, ..e }),
                len as i64,
                seq![UserEffect::CopyBytes { dst: wadd(e.data_ptr, e.offset), src: buf, len }],
            )
        } else {
            (fds, len as i64, seq![])
        }
    }
}

/// `write` to a file descriptor other than the console.
pub fn sys_write_file(fds: &mut Vec<FdEntry>, fd: i32, buf: u64, len: u64, eff: &mut Vec<UserEffect>) -> (r: i64)
    requires
        fds_wf(old(fds)@),
    ensures
        fds_wf(final(fds)@),
        (final(fds)@, r, final(eff)@) == {
            let s = write_file_spec(old(fds)@, fd, buf, len);
            (s.0, s.1, old(eff)@ + s.2)
        },
{
    if fd < 0 || fd as usize >= MAX_FDS {
        proof { assert(eff@ =~= old(eff)@ + seq![]); }
        return EBADF;
    }
    let e = fds[fd as usize];
    if !e.valid {
        proof { assert(eff@ =~= old(eff)@ + seq![]); }
        return EBADF;
    }
    if e.data_ptr != 0 {
        eff.push(UserEffect::CopyBytes { dst: e.data_ptr.wrapping_add(e.offset), src: buf, len });
        let off = e.offset.wrapping_add(len);
        let size = if off > e.size { off } else { e.size };
        fds.set(fd as usize, FdEntry { offset: off, size, ..e });
        proof {
            assert(eff@ =~= old(eff)@ + seq![UserEffect::CopyBytes {
                dst: wadd(e.data_ptr, e.offset), src: buf, len }]);
        }
    } else {
        proof { assert(eff@ =~= old(eff)@ + seq![]); }
    }
    len as i64
}

/// What `pread64(fd, buf, len, offset)` does: like `read` from `offset`,
/// without moving the file's offset; a closed descriptor or one without data
/// reads nothing.
pub open spec fn pread_spec(fds: Seq<FdEntry>, fd: i32, buf: u64, len: u64, offset: u64) -> (i64, Seq<UserEffect>) {
    if !in_table(fd) {
        (EBADF, seq![])
    } else if !fds[fd as int].valid || fds[fd as int].data_ptr == 0 {
        (0, seq![])
    } else {
        let e = fds[fd as int];
        let n = min_u64(len, sat_sub(e.size, offset));
        if n > 0 {
            (n as i64, seq![UserEffect::CopyBytes { dst: buf, src: wadd(e.data_ptr, offset), len: n }])
        } else {
            (n as i64, seq![])
        }
    }
}

/// `pread64`.
pub fn sys_pread64(fds: &Vec<FdEntry>, fd: i32, buf: u64, len: u64, offset: u64, eff: &mut Vec<UserEffect>) -> (r: i64)
    requires
        fds_wf(fds@),
    ensures
        (r, final(eff)@) == {
            let s = pread_spec(fds@, fd, buf, len, offset);
            (s.0, old(eff)@ + s.1)
        },
{
    if fd < 0 || fd as usize >= MAX_FDS {
        proof { assert(eff@ =~= old(eff)@ + seq![]); }
        return EBADF;
    }
    let e = fds[fd as usize];
    if !e.valid || e.data_ptr == 0 {
        proof { assert(eff@ =~= old(eff)@ + seq![]); }
        return 0;
    }
    let avail = e.size.saturating_sub(offset);
    let n = if len < avail { len } else { avail };
    if n > 0 {
        eff.push(UserEffect::CopyBytes { dst: buf, src: e.data_ptr.wrapping_add(offset), len: n });
        proof {
            assert(eff@ =~= old(eff)@ + seq![UserEffect::CopyBytes {
                dst: buf, src: wadd(e.data_ptr, offset), len: n }]);
        }
    } else {
        proof { assert(eff@ =~= old(eff)@ + seq![]); }
    }
    n as i64
}

/// The first ten words of the `struct stat` reported for descriptor `fd`: a
/// regular file with mode 0644, owned by uid and gid 10000, of the entry's
/// size in 4 KiB blocks, counted in 512-byte blocks.
pub open spec fn stat_words(fd: i32, size: u64) -> Seq<u64> {
    seq![
        0x0001_0001u64,
        (fd as u64 + 0x1000) as u64,
        0o100644u64,
        1u64,
        10000u64,
        10000u64,
        0u64,
        size,
        4096u64,
        (wadd(size, 511) / 512) as u64,
    ]
}

/// What `fstat(fd, stat_ptr)` does. The entry is reported whether it is
/// open or not.
pub open spec fn fstat_spec(fds: Seq<FdEntry>, fd: i32, stat_ptr: u64) -> (i64, Seq<UserEffect>) {
    if stat_ptr == 0 {
        (EFAULT, seq![])
    } else if !in_table(fd) {
        (EBADF, seq![])
    } else {
        (0, word_effects(stat_ptr, stat_words(fd, fds[fd as int].size)))
    }
}

/// `fstat`.
pub fn sys_fstat(fds: &Vec<FdEntry>, fd: i32, stat_ptr: u64, eff: &mut Vec<UserEffect>) -> (r: i64)
    requires
        fds_wf(fds@),
    ensures
        (r, final(eff)@) == {
            let s = fstat_spec(fds@, fd, stat_ptr);
            (s.0, old(eff)@ + s.1)
        },
{
    if stat_ptr == 0 {
        proof { assert(eff@ =~= old(eff)@ + seq![]); }
        return EFAULT;
    }
    if fd < 0 || fd as usize >= MAX_FDS {
        proof { assert(eff@ =~= old(eff)@ + seq![]); }
        return EBADF;
    }
    let size = fds[fd as usize].size;
    let ws: Vec<u64> = vec![
        0x0001_0001u64,
        fd as u64 + 0x1000,
        0o100644u64,
        1u64,
        10000u64,
        10000u64,
        0u64,
        size,
        4096u64,
        size.wrapping_add(511) / 512,
    ];
    proof { assert(ws@ =~= stat_words(fd, size)); }
    push_words(eff, stat_ptr, &ws);
    0
}

/// What `fcntl(fd, cmd)` answers: the descriptor itself for the duplication
/// commands, `O_RDWR` for `F_GETFL`, 0 otherwise.
pub open spec fn fcntl_spec(fd: i32, cmd: i32) -> i64 {
    if cmd == 0 || cmd == 1 {
        fd as i64
    } else if cmd == 4 {
        2
    } else {
        0
    }
}

/// `fcntl`.
pub fn sys_fcntl(fd: i32, cmd: i32) -> (r: i64)
    ensures
        r == fcntl_spec(fd, cmd),
{
    match cmd {
        0 => fd as i64,
        1 => fd as i64,
        2 => 0,
        3 => 0,
        4 => 0o2,
        5 => 0,
        _ => 0,
    }
}

/// What `ioctl(fd, request)` answers: a 4 MiB ashmem region for
/// `ASHMEM_GET_SIZE`, 0 for everything else.
pub open spec fn ioctl_spec(request: u64) -> i64 {
    if request == ASHMEM_GET_SIZE {
        0x40_0000
    } else {
        0
    }
}

/// `ioctl`.
pub fn sys_ioctl(request: u64) -> (r: i64)
    ensures
        r == ioctl_spec(request),
{
    match request {
        ASHMEM_SET_SIZE => 0,
        ASHMEM_GET_SIZE => 4 * 1024 * 1024,
        ASHMEM_SET_NAME => 0,
        _ => 0,
    }
}

/// What `dup3(oldfd, newfd)` does: `newfd` becomes a copy of `oldfd`'s entry.
pub open spec fn dup3_spec(fds: Seq<FdEntry>, oldfd: i32, newfd: i32) -> (Seq<FdEntry>, i64) {
    if !in_table(oldfd) || !in_table(newfd) {
        (fds, EBADF)
    } else {
        (fds.update(newfd as int, fds[oldfd as int]), newfd as i64)
    }
}

/// `dup3`.
pub fn sys_dup3(fds: &mut Vec<FdEntry>, oldfd: i32, newfd: i32) -> (r: i64)
    requires
        fds_wf(old(fds)@),
    ensures
        fds_wf(final(fds)@),
        (final(fds)@, r) == dup3_spec(old(fds)@, oldfd, newfd),
{
    if oldfd < 0 || oldfd as usize >= MAX_FDS || newfd < 0 || newfd as usize >= MAX_FDS {
        return EBADF;
    }
    let e = fds[oldfd as usize];
    fds.set(newfd as usize, e);
    newfd as i64
}

/// What `pipe2(fds_ptr)` does. Both ends are looked up before either is
/// taken, so they share one descriptor, which ends up the write end; the
/// caller receives that descriptor twice.
pub open spec fn pipe2_spec(fds: Seq<FdEntry>, fds_ptr: u64) -> (Seq<FdEntry>, i64, Seq<UserEffect>) {
    let r = alloc_fd_spec(fds);
    if r < 0 {
        (fds, EBADF, seq![])
    } else {
        (
            fds.update(r as int, FdEntry::fresh(FdKind::PipeRead)).update(r as int, FdEntry::fresh(FdKind::PipeWrite)),
            0,
            seq![
                UserEffect::Int32 { addr: fds_ptr, value: r },
                UserEffect::Int32 { addr: wadd(fds_ptr, 4), value: r },
            ],
        )
    }
}

/// `pipe2`.
pub fn sys_pipe2(fds: &mut Vec<FdEntry>, fds_ptr: u64, eff: &mut Vec<UserEffect>) -> (r: i64)
    requires
        fds_wf(old(fds)@),
    ensures
        fds_wf(final(fds)@),
        (final(fds)@, r, final(eff)@) == {
            let s = pipe2_spec(old(fds)@, fds_ptr);
            (s.0, s.1, old(eff)@ + s.2)
        },
{
    let rfd = alloc_fd(fds);
    let wfd = alloc_fd(fds);
    if rfd < 0 || wfd < 0 {
        proof { assert(eff@ =~= old(eff)@ + seq![]); }
        return EBADF;
    }
    fds.set(rfd as usize, FdEntry { kind: FdKind::PipeRead, offset: 0, size: 0, data_ptr: 0, valid: true });
    fds.set(wfd as usize, FdEntry { kind: FdKind::PipeWrite, offset: 0, size: 0, data_ptr: 0, valid: true });
    eff.push(UserEffect::Int32 { addr: fds_ptr, value: rfd });
    eff.push(UserEffect::Int32 { addr: fds_ptr.wrapping_add(4), value: wfd });
    proof {
        assert(eff@ =~= old(eff)@ + seq![
            UserEffect::Int32 { addr: fds_ptr, value: rfd },
            UserEffect::Int32 { addr: wadd(fds_ptr, 4), value: rfd },
        ]);
    }
    0
}

/// The first five words of the `struct statfs` reported for every path: an
/// ext4 file system of 4 GiB in 4 KiB blocks, half of them free.
pub open spec fn statfs_words() -> Seq<u64> {
    seq![0xEF53u64, 4096u64, 0x10_0000u64, 0x8_0000u64, 0x8_0000u64]
}

/// `statfs`: fills the caller's buffer at `buf_ptr`.
pub fn sys_statfs(buf_ptr: u64, eff: &mut Vec<UserEffect>) -> (r: i64)
    ensures
        buf_ptr == 0 ==> r == EFAULT && final(eff)@ == old(eff)@,
        buf_ptr != 0 ==> r == 0 && final(eff)@ == old(eff)@ + word_effects(buf_ptr, statfs_words()),
{
    if buf_ptr == 0 {
        return EFAULT;
    }
    let ws: Vec<u64> = vec![0xEF53u64, 4096u64, 1024 * 1024, 512 * 1024, 512 * 1024];
    proof { assert(ws@ =~= statfs_words()); }
    push_words(eff, buf_ptr, &ws);
    0
}

/// What `ftruncate(fd, length)` does: the entry's size becomes `length`,
/// whether it is open or not.
pub open spec fn ftruncate_spec(fds: Seq<FdEntry>, fd: i32, length: u64) -> (Seq<FdEntry>, i64) {
    if !in_table(fd) {
        (fds, EBADF)
    } else {
        (fds.update(fd as int, FdEntry { size: length, ..fds[fd as int] }), 0)
    }
}

/// Sets a descriptor's size.
pub fn set_size(fds: &mut Vec<FdEntry>, fd: i32, length: u64) -> (r: i64)
    requires
        fds_wf(old(fds)@),
    ensures
        fds_wf(final(fds)@),
        (final(fds)@, r) == ftruncate_spec(old(fds)@, fd, length),
{
    if fd < 0 || fd as usize >= MAX_FDS {
        return EBADF;
    }
    let e = fds[fd as usize];
    fds.set(fd as usize, FdEntry { size: length, ..e });
    0
}

/// The one link the layer knows: "/proc/self/exe".
pub open spec fn self_exe_path() -> Seq<u8> {
    seq![
        0x2fu8, 0x70, 0x72, 0x6f, 0x63, 0x2f, 0x73, 0x65, 0x6c, 0x66, 0x2f, 0x65, 0x78, 0x65,
    ]
}

/// Its target: "/system/bin/app_process64".
pub open spec fn app_process_path() -> Seq<u8> {
    seq![
        0x2fu8, 0x73, 0x79, 0x73, 0x74, 0x65, 0x6d, 0x2f, 0x62, 0x69, 0x6e, 0x2f, 0x61, 0x70,
        0x70, 0x5f, 0x70, 0x72, 0x6f, 0x63, 0x65, 0x73, 0x73, 0x36, 0x34,
    ]
}

fn self_exe_bytes() -> (v: Vec<u8>)
    ensures
        v@ == self_exe_path(),
{
    let v: Vec<u8> = vec![
        0x2fu8, 0x70, 0x72, 0x6f, 0x63, 0x2f, 0x73, 0x65, 0x6c, 0x66, 0x2f, 0x65, 0x78, 0x65,
    ];
    proof { assert(v@ =~= self_exe_path()); }
    v
}

fn app_process_bytes() -> (v: Vec<u8>)
    ensures
        v@ == app_process_path(),
{
    let v: Vec<u8> = vec![
        0x2fu8, 0x73, 0x79, 0x73, 0x74, 0x65, 0x6d, 0x2f, 0x62, 0x69, 0x6e, 0x2f, 0x61, 0x70,
        0x70, 0x5f, 0x70, 0x72, 0x6f, 0x63, 0x65, 0x73, 0x73, 0x36, 0x34,
    ];
    proof { assert(v@ =~= app_process_path()); }
    v
}

/// The path argument at `path_ptr`: the empty path for a null pointer, else
/// the string in entry `k` of the input, or the read it takes.
pub open spec fn path_arg(input: Seq<UserData>, k: int, path_ptr: u64) -> Result<Seq<u8>, UserRead> {
    if path_ptr == 0 {
        Ok(Seq::empty())
    } else if answered_at(input, k, UserRead::CString { addr: path_ptr, max: PATH_MAX }) {
        Ok(bytes_of(input[k]))
    } else {
        Err(UserRead::CString { addr: path_ptr, max: PATH_MAX })
    }
}

/// Reads the path argument at `path_ptr`.
pub fn read_path(input: &Vec<UserData>, k: usize, path_ptr: u64) -> (r: Result<Vec<u8>, UserRead>)
    ensures
        match (r, path_arg(input@, k as int, path_ptr)) {
            (Ok(v), Ok(p)) => v@ == p,
            (Err(q), Err(p)) => q == p,
            _ => false,
        },
{
    if path_ptr == 0 {
        return Ok(Vec::new());
    }
    let req = UserRead::CString { addr: path_ptr, max: PATH_MAX };
    if !answered(input, k, req) {
        return Err(req);
    }
    let n = data_len(input, k);
    let mut v: Vec<u8> = Vec::new();
    let mut i: usize = 0;
    while i < n
        invariant
            k < input@.len(),
            n == bytes_of(input@[k as int]).len(),
            input@[k as int] is Bytes,
            i <= n,
            v@ == bytes_of(input@[k as int]).take(i as int),
        decreases n - i,
    {
        v.push(byte_at(input, k, i));
        i = i + 1;
        proof { assert(v@ =~= bytes_of(input@[k as int]).take(i as int)); }
    }
    proof { assert(v@ =~= bytes_of(input@[k as int])); }
    Ok(v)
}

/// Whether `a` and `b` hold the same bytes.
pub fn same_bytes(a: &Vec<u8>, b: &Vec<u8>) -> (r: bool)
    ensures
        r == (a@ == b@),
{
    if a.len() != b.len() {
        return false;
    }
    let mut i: usize = 0;
    while i < a.len()
        invariant
            a@.len() == b@.len(),
            i <= a@.len(),
            forall|j: int| 0 <= j < i ==> a@[j] == b@[j],
        decreases a@.len() - i,
    {
        if a[i] != b[i] {
            return false;
        }
        i = i + 1;
    }
    proof { assert(a@ =~= b@); }
    true
}

/// Whether `suffix` ends `s`.
pub fn ends_with(s: &Vec<u8>, suffix: &Vec<u8>) -> (r: bool)
    ensures
        r == suffix@.is_suffix_of(s@),
{
    if suffix.len() > s.len() {
        return false;
    }
    let d = s.len() - suffix.len();
    let mut i: usize = 0;
    while i < suffix.len()
        invariant
            d + suffix@.len() == s@.len(),
            d + suffix.len() == s.len(),
            i <= suffix@.len(),
            forall|j: int| 0 <= j < i ==> suffix@[j] == s@[d + j],
        decreases suffix@.len() - i,
    {
        if suffix[i] != s[d + i] {
            proof {
                assert(s@.subrange(d as int, s@.len() as int)[i as int] == s@[d + i]);
            }
            return false;
        }
        i = i + 1;
    }
    proof { assert(suffix@ =~= s@.subrange(d as int, s@.len() as int)); }
    true
}

/// Whether `prefix` starts `s`.
pub fn starts_with(s: &Vec<u8>, prefix: &Vec<u8>) -> (r: bool)
    ensures
        r == prefix@.is_prefix_of(s@),
{
    if prefix.len() > s.len() {
        return false;
    }
    let mut i: usize = 0;
    while i < prefix.len()
        invariant
            prefix@.len() <= s@.len(),
            i <= prefix@.len(),
            forall|j: int| 0 <= j < i ==> prefix@[j] == s@[j],
        decreases prefix@.len() - i,
    {
        if prefix[i] != s[i] {
            proof {
                assert(s@.subrange(0, prefix@.len() as int)[i as int] == s@[i as int]);
            }
            return false;
        }
        i = i + 1;
    }
    proof { assert(prefix@ =~= s@.subrange(0, prefix@.len() as int)); }
    true
}

/// What `readlinkat` answers once the path is known: "/proc/self/exe" links
/// to the app process binary, whose name is copied to `buf_ptr`, cut at
/// `buf_size` bytes; every other path is not a link.
pub open spec fn readlink_spec(path: Seq<u8>, buf_ptr: u64, buf_size: u64) -> (i64, Seq<UserEffect>) {
    if path == self_exe_path() {
        let n = min_u64(25, buf_size);
        (n as i64, byte_effects(buf_ptr, app_process_path().take(n as int)))
    } else {
        (EINVAL, seq![])
    }
}

/// `readlinkat`, with the path read from entry `k` of the input.
pub fn sys_readlinkat(
    input: &Vec<UserData>,
    k: usize,
    path_ptr: u64,
    buf_ptr: u64,
    buf_size: u64,
    eff: &mut Vec<UserEffect>,
) -> (r: Result<i64, UserRead>)
    ensures
        match path_arg(input@, k as int, path_ptr) {
            Err(q) => r == Err::<i64, UserRead>(q) && final(eff)@ == old(eff)@,
            Ok(p) => r == Ok::<i64, UserRead>(readlink_spec(p, buf_ptr, buf_size).0)
                && final(eff)@ == old(eff)@ + readlink_spec(p, buf_ptr, buf_size).1,
        },
{
    let path = match read_path(input, k, path_ptr) {
        Ok(p) => p,
        Err(q) => return Err(q),
    };
    let exe = self_exe_bytes();
    if !same_bytes(&path, &exe) {
        proof { assert(eff@ =~= old(eff)@ + seq![]); }
        return Ok(EINVAL);
    }
    let target = app_process_bytes();
    let n: u64 = if buf_size < 25 { buf_size } else { 25 };
    let mut out: Vec<u8> = Vec::new();
    let mut i: usize = 0;
    while (i as u64) < n
        invariant
            n <= 25,
            target@ == app_process_path(),
            i <= n,
            out@ == app_process_path().take(i as int),
        decreases n - i,
    {
        out.push(target[i]);
        i = i + 1;
        proof { assert(out@ =~= app_process_path().take(i as int)); }
    }
    push_bytes(eff, buf_ptr, &out);
    Ok(n as i64)
}

/// The DEX file magic, "dex\n035\0".
pub open spec fn dex_magic() -> Seq<u8> {
    seq![0x64u8, 0x65, 0x78, 0x0a, 0x30, 0x33, 0x35, 0x00]
}

/// The DEX file magic, "dex\n035\0".
pub fn dex_magic_bytes() -> (v: Vec<u8>)
    ensures
        v@ == dex_magic(),
{
    let v: Vec<u8> = vec![0x64u8, 0x65, 0x78, 0x0a, 0x30, 0x33, 0x35, 0x00];
    proof { assert(v@ =~= dex_magic()); }
    v
}

/// 4096 as four little-endian bytes: the `file_size` of the virtual DEX header.
pub open spec fn file_size_4k() -> Seq<u8> {
    seq![0x00u8, 0x10, 0x00, 0x00]
}

/// 4096 as four little-endian bytes: the `file_size` of the virtual DEX header.
pub fn file_size_4k_bytes() -> (v: Vec<u8>)
    ensures
        v@ == file_size_4k(),
{
    let v: Vec<u8> = vec![0x00u8, 0x10, 0x00, 0x00];
    proof { assert(v@ =~= file_size_4k()); }
    v
}

/// ".apk".
pub open spec fn suffix_apk() -> Seq<u8> {
    seq![0x2eu8, 0x61, 0x70, 0x6b]
}

/// ".apk".
pub fn suffix_apk_bytes() -> (v: Vec<u8>)
    ensures
        v@ == suffix_apk(),
{
    let v: Vec<u8> = vec![0x2eu8, 0x61, 0x70, 0x6b];
    proof { assert(v@ =~= suffix_apk()); }
    v
}

/// ".dex".
pub open spec fn suffix_dex() -> Seq<u8> {
    seq![0x2eu8, 0x64, 0x65, 0x78]
}

/// ".dex".
pub fn suffix_dex_bytes() -> (v: Vec<u8>)
    ensures
        v@ == suffix_dex(),
{
    let v: Vec<u8> = vec![0x2eu8, 0x64, 0x65, 0x78];
    proof { assert(v@ =~= suffix_dex()); }
    v
}

/// ".odex".
pub open spec fn suffix_odex() -> Seq<u8> {
    seq![0x2eu8, 0x6f, 0x64, 0x65, 0x78]
}

/// ".odex".
pub fn suffix_odex_bytes() -> (v: Vec<u8>)
    ensures
        v@ == suffix_odex(),
{
    let v: Vec<u8> = vec![0x2eu8, 0x6f, 0x64, 0x65, 0x78];
    proof { assert(v@ =~= suffix_odex()); }
    v
}

/// ".vdex".
pub open spec fn suffix_vdex() -> Seq<u8> {
    seq![0x2eu8, 0x76, 0x64, 0x65, 0x78]
}

/// ".vdex".
pub fn suffix_vdex_bytes() -> (v: Vec<u8>)
    ensures
        v@ == suffix_vdex(),
{
    let v: Vec<u8> = vec![0x2eu8, 0x76, 0x64, 0x65, 0x78];
    proof { assert(v@ =~= suffix_vdex()); }
    v
}

/// ".oat".
pub open spec fn suffix_oat() -> Seq<u8> {
    seq![0x2eu8, 0x6f, 0x61, 0x74]
}

/// ".oat".
pub fn suffix_oat_bytes() -> (v: Vec<u8>)
    ensures
        v@ == suffix_oat(),
{
    let v: Vec<u8> = vec![0x2eu8, 0x6f, 0x61, 0x74];
    proof { assert(v@ =~= suffix_oat()); }
    v
}

/// "/dev/".
pub open spec fn prefix_dev() -> Seq<u8> {
    seq![0x2fu8, 0x64, 0x65, 0x76, 0x2f]
}

/// "/dev/".
pub fn prefix_dev_bytes() -> (v: Vec<u8>)
    ensures
        v@ == prefix_dev(),
{
    let v: Vec<u8> = vec![0x2fu8, 0x64, 0x65, 0x76, 0x2f];
    proof { assert(v@ =~= prefix_dev()); }
    v
}

/// "/dev/ashmem".
pub open spec fn prefix_dev_ashmem() -> Seq<u8> {
    seq![0x2fu8, 0x64, 0x65, 0x76, 0x2f, 0x61, 0x73, 0x68, 0x6d, 0x65, 0x6d]
}

/// "/dev/ashmem".
pub fn prefix_dev_ashmem_bytes() -> (v: Vec<u8>)
    ensures
        v@ == prefix_dev_ashmem(),
{
    let v: Vec<u8> = vec![0x2fu8, 0x64, 0x65, 0x76, 0x2f, 0x61, 0x73, 0x68, 0x6d, 0x65, 0x6d];
    proof { assert(v@ =~= prefix_dev_ashmem()); }
    v
}

/// "/proc/".
pub open spec fn prefix_proc() -> Seq<u8> {
    seq![0x2fu8, 0x70, 0x72, 0x6f, 0x63, 0x2f]
}

/// "/proc/".
pub fn prefix_proc_bytes() -> (v: Vec<u8>)
    ensures
        v@ == prefix_proc(),
{
    let v: Vec<u8> = vec![0x2fu8, 0x70, 0x72, 0x6f, 0x63, 0x2f];
    proof { assert(v@ =~= prefix_proc()); }
    v
}

/// "/sys/".
pub open spec fn prefix_sys() -> Seq<u8> {
    seq![0x2fu8, 0x73, 0x79, 0x73, 0x2f]
}

/// "/sys/".
pub fn prefix_sys_bytes() -> (v: Vec<u8>)
    ensures
        v@ == prefix_sys(),
{
    let v: Vec<u8> = vec![0x2fu8, 0x73, 0x79, 0x73, 0x2f];
    proof { assert(v@ =~= prefix_sys()); }
    v
}

/// "/data/".
pub open spec fn prefix_data() -> Seq<u8> {
    seq![0x2fu8, 0x64, 0x61, 0x74, 0x61, 0x2f]
}

/// "/data/".
pub fn prefix_data_bytes() -> (v: Vec<u8>)
    ensures
        v@ == prefix_data(),
{
    let v: Vec<u8> = vec![0x2fu8, 0x64, 0x61, 0x74, 0x61, 0x2f];
    proof { assert(v@ =~= prefix_data()); }
    v
}

/// A write never shrinks a file: writing `len` bytes to an open file with a
/// buffer answers `len`, moves the offset past the bytes written, and leaves
/// the size at the larger of the old size and the new offset; every other
/// descriptor is untouched.
pub proof fn law_write_never_shrinks(fds: Seq<FdEntry>, fd: i32, buf: u64, len: u64)
    requires
        fds_wf(fds),
        0 <= fd < MAX_FDS,
        fds[fd as int].valid,
        fds[fd as int].data_ptr != 0,
    ensures
        ({
            let (f2, r, e) = write_file_spec(fds, fd, buf, len);
            let old = fds[fd as int];
            let end = wadd(old.offset, len);
            &&& r == len as i64
            &&& f2.len() == fds.len()
            &&& f2[fd as int].offset == end
            &&& f2[fd as int].size >= old.size
            &&& f2[fd as int].size >= end
            &&& (f2[fd as int].size == old.size || f2[fd as int].size == end)
            &&& f2[fd as int].data_ptr == old.data_ptr
            &&& forall|i: int| 0 <= i < fds.len() && i != fd ==> f2[i] == fds[i]
        }),
{
}

} // verus!
