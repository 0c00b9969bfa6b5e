//! I/O bridge: `openat`, `read`, `write`, `close`, `fstat`, `lseek` and the
//! rest of the file syscalls, answered from the virtual descriptor table.
use vstd::prelude::*;
use crate::art::syscall_table::{
    SYS_OPENAT, SYS_CLOSE, SYS_READ, SYS_WRITE, SYS_PREAD64, SYS_PWRITE64, SYS_READV, SYS_WRITEV,
    SYS_FSTAT, SYS_NEWFSTATAT, SYS_LSEEK, SYS_FCNTL, SYS_IOCTL, SYS_DUP3, SYS_PIPE2, SYS_FSYNC,
    SYS_FDATASYNC, SYS_FACCESSAT, SYS_READLINKAT, SYS_GETDENTS64, SYS_STATFS, SYS_FALLOCATE,
};
use crate::fd_table::{
    FdEntry, FdKind, MAX_FDS, in_table, fds_wf, alloc_fd, alloc_fd_spec, read_spec, write_file_spec,
    pread_spec, fstat_spec, fcntl_spec, ioctl_spec, dup3_spec, pipe2_spec, statfs_words, ftruncate_spec,
    readlink_spec, path_arg, close_spec, read_path, ends_with, dex_magic, dex_magic_bytes, file_size_4k,
    file_size_4k_bytes, suffix_apk, suffix_apk_bytes, suffix_dex, suffix_dex_bytes, suffix_odex,
    suffix_odex_bytes, suffix_vdex, suffix_vdex_bytes, suffix_oat, suffix_oat_bytes,
};
use crate::pool::{MemoryModel, bump_alloc_spec, lemma_bump_alloc_nonzero, wadd};
use crate::search::lemma_first_where;
use crate::fd_table::fd_free;
use crate::kernel_stubs::{has_capability, has_capability_spec, CAP_APP_STORAGE, APP_STORAGE_BASE, KernelModel};
use crate::user_mem::{
    Outcome, Reply, UserData, UserEffect, UserRead, IoVec, answered, answered_at, iovec_at, iovecs_of,
    byte_effects, word_effects, push_bytes, data_len,
};
use crate::syscall_wrapper::{CompatState, CompatModel, EPERM, EBADF, EINVAL};

verus! {

/// Size of the buffer behind a virtual code file.
pub const CODE_FILE_SIZE: u64 = 4096;

/// Whether the app holds the storage capability on its own storage endpoint.
pub open spec fn storage_allowed(k: KernelModel, app_id: u32) -> bool {
    has_capability_spec(
        k,
        app_id,
        vstd::wrapping::u32_specs::wrapping_add(APP_STORAGE_BASE, app_id),
        CAP_APP_STORAGE,
    )
}

/// Whether `path` names an app package or compiled code: `.apk`, `.dex`,
/// `.odex`, `.vdex` or `.oat`.
pub open spec fn is_code_file(path: Seq<u8>) -> bool {
    suffix_apk().is_suffix_of(path) || suffix_dex().is_suffix_of(path)
        || suffix_odex().is_suffix_of(path) || suffix_vdex().is_suffix_of(path)
        || suffix_oat().is_suffix_of(path)
}

fn code_file(path: &Vec<u8>) -> (b: bool)
    ensures
        b == is_code_file(path@),
{
    ends_with(path, &suffix_apk_bytes()) || ends_with(path, &suffix_dex_bytes())
        || ends_with(path, &suffix_odex_bytes()) || ends_with(path, &suffix_vdex_bytes())
        || ends_with(path, &suffix_oat_bytes())
}

/// The header written into the buffer of a virtual code file: the DEX magic,
/// and its size at offset 32.
pub open spec fn code_header_effects(buf: u64) -> Seq<UserEffect> {
    byte_effects(buf, dex_magic()) + byte_effects(wadd(buf, 32), file_size_4k())
}

/// What `openat(_, path)` does once the path is read: the first free
/// descriptor from 10 on opens a storage file; a code file gets a 4 KiB
/// buffer from the pool holding a DEX header (none when the pool is full),
/// every other path an empty file.
pub open spec fn openat_step(s: CompatModel, path: Seq<u8>) -> (CompatModel, i64, Seq<UserEffect>) {
    let fd = alloc_fd_spec(s.fds);
    if fd < 0 {
        (s, EBADF, seq![])
    } else if is_code_file(path) {
        let (m1, buf) = bump_alloc_spec(s.mem, CODE_FILE_SIZE);
        (
            CompatModel {
                mem: m1,
                fds: s.fds.update(fd as int, FdEntry {
                    kind: FdKind::StorageFile, offset: 0, size: CODE_FILE_SIZE, data_ptr: buf, valid: true }),
                ..s
            },
            fd as i64,
            if buf != 0 { code_header_effects(buf) } else { seq![] },
        )
    } else {
        (
            CompatModel { fds: s.fds.update(fd as int, FdEntry::fresh(FdKind::StorageFile)), ..s },
            fd as i64,
            seq![],
        )
    }
}

fn sys_openat(st: &mut CompatState, path_ptr: u64, input: &Vec<UserData>, eff: &mut Vec<UserEffect>) -> (r: Result<i64, UserRead>)
    requires
        old(st)@.wf(),
    ensures
        final(st)@.wf(),
        match path_arg(input@, 0, path_ptr) {
            Err(q) => r == Err::<i64, UserRead>(q) && final(st)@ == old(st)@ && final(eff)@ == old(eff)@,
            Ok(p) => r == Ok::<i64, UserRead>(openat_step(old(st)@, p).1) && final(st)@ == openat_step(old(st)@, p).0
                && final(eff)@ == old(eff)@ + openat_step(old(st)@, p).2,
        },
{
    let path = match read_path(input, 0, path_ptr) {
        Ok(p) => p,
        Err(q) => { return Err(q); },
    };
    let fd = alloc_fd(&st.fds);
    if fd < 0 {
        proof { assert(eff@ =~= old(eff)@ + seq![]); }
        return Ok(EBADF);
    }
    if code_file(&path) {
        proof { lemma_bump_alloc_nonzero(st.mem@, CODE_FILE_SIZE); }
        let buf = crate::memory_bridge::alloc_bytes(st, CODE_FILE_SIZE);
        if buf != 0 {
            push_bytes(eff, buf, &dex_magic_bytes());
            push_bytes(eff, buf.wrapping_add(32), &file_size_4k_bytes());
            proof { assert(eff@ =~= old(eff)@ + code_header_effects(buf)); }
        } else {
            proof { assert(eff@ =~= old(eff)@ + seq![]); }
        }
        st.fds.set(fd as usize, FdEntry {
            kind: FdKind::StorageFile, offset: 0, size: CODE_FILE_SIZE, data_ptr: buf, valid: true });
    } else {
        st.fds.set(fd as usize, FdEntry { kind: FdKind::StorageFile, offset: 0, size: 0, data_ptr: 0, valid: true });
        proof { assert(eff@ =~= old(eff)@ + seq![]); }
    }
    Ok(fd as i64)
}

/// What `write(fd, buf, len)` does: the console descriptors 1 and 2 take
/// every byte; other descriptors write to their file.
pub open spec fn write_step(fds: Seq<FdEntry>, fd: i32, buf: u64, len: u64) -> (Seq<FdEntry>, i64, Seq<UserEffect>) {
    if fd == 1 || fd == 2 {
        (fds, len as i64, seq![])
    } else {
        write_file_spec(fds, fd, buf, len)
    }
}

fn sys_write(fds: &mut Vec<FdEntry>, fd: i32, buf: u64, len: u64, eff: &mut Vec<UserEffect>) -> (r: i64)
    requires
        fds_wf(old(fds)@),
    ensures
        fds_wf(final(fds)@),
        (final(fds)@, r, final(eff)@) == {
            let x = write_step(old(fds)@, fd, buf, len);
            (x.0, x.1, old(eff)@ + x.2)
        },
{
    if fd == 1 || fd == 2 {
        proof { assert(eff@ =~= old(eff)@ + seq![]); }
        return len as i64;
    }
    crate::fd_table::sys_write_file(fds, fd, buf, len, eff)
}

/// `readv` from record `i` on, `total` bytes read so far; a failure ends it.
pub open spec fn readv_from(fds: Seq<FdEntry>, fd: i32, iovs: Seq<IoVec>, i: int, total: i64)
    -> (Seq<FdEntry>, i64, Seq<UserEffect>)
    decreases iovs.len() - i,
{
    if i < 0 || i >= iovs.len() {
        (fds, total, seq![])
    } else {
        let x = read_spec(fds, fd, iovs[i].base, iovs[i].len);
        if x.1 < 0 {
            x
        } else {
            let y = readv_from(x.0, fd, iovs, i + 1, vstd::wrapping::i64_specs::wrapping_add(total, x.1));
            (y.0, y.1, x.2 + y.2)
        }
    }
}

/// `writev` from record `i` on, `total` bytes written so far; a failure ends it.
pub open spec fn writev_from(fds: Seq<FdEntry>, fd: i32, iovs: Seq<IoVec>, i: int, total: i64)
    -> (Seq<FdEntry>, i64, Seq<UserEffect>)
    decreases iovs.len() - i,
{
    if i < 0 || i >= iovs.len() {
        (fds, total, seq![])
    } else {
        let x = write_step(fds, fd, iovs[i].base, iovs[i].len);
        if x.1 < 0 {
            x
        } else {
            let y = writev_from(x.0, fd, iovs, i + 1, vstd::wrapping::i64_specs::wrapping_add(total, x.1));
            (y.0, y.1, x.2 + y.2)
        }
    }
}

/// The `iovec` array of a vectored call: entry 0 of the input.
pub open spec fn iov_arg(input: Seq<UserData>, iov_ptr: u64, iovcnt: u64) -> Result<Seq<IoVec>, UserRead> {
    if answered_at(input, 0, UserRead::IoVecs { addr: iov_ptr, count: iovcnt }) {
        Ok(iovecs_of(input[0]))
    } else {
        Err(UserRead::IoVecs { addr: iov_ptr, count: iovcnt })
    }
}

pub(crate) fn sys_readv(fds: &mut Vec<FdEntry>, fd: i32, iov_ptr: u64, iovcnt: u64, input: &Vec<UserData>, eff: &mut Vec<UserEffect>)
    -> (r: Result<i64, UserRead>)
    requires
        fds_wf(old(fds)@),
    ensures
        fds_wf(final(fds)@),
        match iov_arg(input@, iov_ptr, iovcnt) {
            Err(q) => r == Err::<i64, UserRead>(q) && final(fds)@ == old(fds)@ && final(eff)@ == old(eff)@,
            Ok(iovs) => r == Ok::<i64, UserRead>(readv_from(old(fds)@, fd, iovs, 0, 0).1)
                && final(fds)@ == readv_from(old(fds)@, fd, iovs, 0, 0).0
                && final(eff)@ == old(eff)@ + readv_from(old(fds)@, fd, iovs, 0, 0).2,
        },
{
    let req = UserRead::IoVecs { addr: iov_ptr, count: iovcnt };
    if !answered(input, 0, req) {
        return Err(req);
    }
    let ghost iovs = iovecs_of(input@[0]);
    let n = data_len(input, 0);
    let mut total: i64 = 0;
    let mut i: usize = 0;
    while i < n
        invariant
            0 < input@.len(),
            iovs == iovecs_of(input@[0]),
            iov_arg(input@, iov_ptr, iovcnt) == Ok::<Seq<IoVec>, UserRead>(iovs),
            n == iovs.len(),
            i <= n,
            fds_wf(fds@),
            readv_from(old(fds)@, fd, iovs, 0, 0) == {
                let y = readv_from(fds@, fd, iovs, i as int, total);
                (y.0, y.1, eff@.subrange(old(eff)@.len() as int, eff@.len() as int) + y.2)
            },
            old(eff)@.is_prefix_of(eff@),
        decreases n - i,
    {
        let v = iovec_at(input, 0, i);
        let ghost before = eff@;
        let ghost f0 = fds@;
        let c = crate::fd_table::sys_read(fds, fd, v.base, v.len, eff);
        proof {
            assert(eff@.subrange(old(eff)@.len() as int, eff@.len() as int)
                =~= before.subrange(old(eff)@.len() as int, before.len() as int)
                + eff@.subrange(before.len() as int, eff@.len() as int));
        }
        if c < 0 {
            proof {
                assert(readv_from(f0, fd, iovs, i as int, total) == read_spec(f0, fd, v.base, v.len));
                assert(eff@.subrange(before.len() as int, eff@.len() as int) =~= read_spec(f0, fd, v.base, v.len).2);
                assert(eff@ =~= old(eff)@ + eff@.subrange(old(eff)@.len() as int, eff@.len() as int));
            }
            return Ok(c);
        }
        total = total.wrapping_add(c);
        i = i + 1;
    }
    proof {
        assert(eff@ =~= old(eff)@ + eff@.subrange(old(eff)@.len() as int, eff@.len() as int));
    }
    Ok(total)
}

fn sys_writev(fds: &mut Vec<FdEntry>, fd: i32, iov_ptr: u64, iovcnt: u64, input: &Vec<UserData>, eff: &mut Vec<UserEffect>)
    -> (r: Result<i64, UserRead>)
    requires
        fds_wf(old(fds)@),
    ensures
        fds_wf(final(fds)@),
        match iov_arg(input@, iov_ptr, iovcnt) {
            Err(q) => r == Err::<i64, UserRead>(q) && final(fds)@ == old(fds)@ && final(eff)@ == old(eff)@,
            Ok(iovs) => r == Ok::<i64, UserRead>(writev_from(old(fds)@, fd, iovs, 0, 0).1)
                && final(fds)@ == writev_from(old(fds)@, fd, iovs, 0, 0).0
                && final(eff)@ == old(eff)@ + writev_from(old(fds)@, fd, iovs, 0, 0).2,
        },
{
    let req = UserRead::IoVecs { addr: iov_ptr, count: iovcnt };
    if !answered(input, 0, req) {
        return Err(req);
    }
    let ghost iovs = iovecs_of(input@[0]);
    let n = data_len(input, 0);
    let mut total: i64 = 0;
    let mut i: usize = 0;
    while i < n
        invariant
            0 < input@.len(),
            iovs == iovecs_of(input@[0]),
            iov_arg(input@, iov_ptr, iovcnt) == Ok::<Seq<IoVec>, UserRead>(iovs),
            n == iovs.len(),
            i <= n,
            fds_wf(fds@),
            writev_from(old(fds)@, fd, iovs, 0, 0) == {
                let y = writev_from(fds@, fd, iovs, i as int, total);
                (y.0, y.1, eff@.subrange(old(eff)@.len() as int, eff@.len() as int) + y.2)
            },
            old(eff)@.is_prefix_of(eff@),
        decreases n - i,
    {
        let v = iovec_at(input, 0, i);
        let ghost before = eff@;
        let ghost f0 = fds@;
        let c = sys_write(fds, fd, v.base, v.len, eff);
        proof {
            assert(eff@.subrange(old(eff)@.len() as int, eff@.len() as int)
                =~= before.subrange(old(eff)@.len() as int, before.len() as int)
                + eff@.subrange(before.len() as int, eff@.len() as int));
        }
        if c < 0 {
            proof {
                assert(writev_from(f0, fd, iovs, i as int, total) == write_step(f0, fd, v.base, v.len));
                assert(eff@.subrange(before.len() as int, eff@.len() as int) =~= write_step(f0, fd, v.base, v.len).2);
                assert(eff@ =~= old(eff)@ + eff@.subrange(old(eff)@.len() as int, eff@.len() as int));
            }
            return Ok(c);
        }
        total = total.wrapping_add(c);
        i = i + 1;
    }
    proof {
        assert(eff@ =~= old(eff)@ + eff@.subrange(old(eff)@.len() as int, eff@.len() as int));
    }
    Ok(total)
}

/// What `lseek(fd, offset, whence)` does: `SEEK_SET` goes to `offset`,
/// `SEEK_CUR` moves by it (wrapping around), `SEEK_END` goes to the end of
/// the file.
pub open spec fn lseek_step(fds: Seq<FdEntry>, fd: i32, offset: u64, whence: i32) -> (Seq<FdEntry>, i64) {
    if !in_table(fd) || !fds[fd as int].valid {
        (fds, EBADF)
    } else {
        let e = fds[fd as int];
        let new_off = if whence == 0 {
            Some(offset)
        } else if whence == 1 {
            Some(wadd(e.offset, offset))
        } else if whence == 2 {
            Some(e.size)
        } else {
            None::<u64>
        };
        match new_off {
            Some(o) => (fds.update(fd as int, FdEntry { offset: o, ..e }), o as i64),
            None => (fds, EINVAL),
        }
    }
}

fn sys_lseek(fds: &mut Vec<FdEntry>, fd: i32, offset: u64, whence: i32) -> (r: i64)
    requires
        fds_wf(old(fds)@),
    ensures
        fds_wf(final(fds)@),
        (final(fds)@, r) == lseek_step(old(fds)@, fd, offset, whence),
{
    if fd < 0 || fd as usize >= MAX_FDS {
        return EBADF;
    }
    let e = fds[fd as usize];
    if !e.valid {
        return EBADF;
    }
    let new_off = match whence {
        0 => offset,
        1 => e.offset.wrapping_add(offset),
        2 => e.size,
        _ => { return EINVAL; },
    };
    fds.set(fd as usize, FdEntry { offset: new_off, ..e });
    new_off as i64
}

/// A step that leaves everything but the descriptor table as it is.
pub open spec fn fds_step(s: CompatModel, x: (Seq<FdEntry>, i64, Seq<UserEffect>)) -> (CompatModel, Reply) {
    (CompatModel { fds: x.0, ..s }, Reply::Done(x.1, x.2))
}

/// What the I/O bridge does with syscall `nr`: nothing at all for an app
/// without storage rights, else the syscall's own step; a read of the
/// caller's memory that is still missing is asked for first.
pub open spec fn io_step(s: CompatModel, nr: u64, a0: u64, a1: u64, a2: u64, a3: u64, a4: u64, a5: u64, input: Seq<UserData>)
    -> (CompatModel, Reply)
{
    let fd = a0 as i32;
    if !storage_allowed(s.kernel, s.app_id) {
        (s, Reply::Done(EPERM, seq![]))
    } else if nr == SYS_OPENAT {
        match path_arg(input, 0, a1) {
            Err(q) => (s, Reply::NeedRead(q)),
            Ok(p) => {
                let x = openat_step(s, p);
                (x.0, Reply::Done(x.1, x.2))
            },
        }
    } else if nr == SYS_CLOSE {
        let x = close_spec(s.fds, fd);
        (CompatModel { fds: x.0, ..s }, Reply::Done(x.1, seq![]))
    } else if nr == SYS_READ {
        fds_step(s, read_spec(s.fds, fd, a1, a2))
    } else if nr == SYS_WRITE {
        fds_step(s, write_step(s.fds, fd, a1, a2))
    } else if nr == SYS_PREAD64 {
        (s, Reply::Done(pread_spec(s.fds, fd, a1, a2, a3).0, pread_spec(s.fds, fd, a1, a2, a3).1))
    } else if nr == SYS_PWRITE64 {
        (s, Reply::Done(a2 as i64, seq![]))
    } else if nr == SYS_READV {
        match iov_arg(input, a1, a2) {
            Err(q) => (s, Reply::NeedRead(q)),
            Ok(iovs) => fds_step(s, readv_from(s.fds, fd, iovs, 0, 0)),
        }
    } else if nr == SYS_WRITEV {
        match iov_arg(input, a1, a2) {
            Err(q) => (s, Reply::NeedRead(q)),
            Ok(iovs) => fds_step(s, writev_from(s.fds, fd, iovs, 0, 0)),
        }
    } else if nr == SYS_FSTAT {
        (s, Reply::Done(fstat_spec(s.fds, fd, a1).0, fstat_spec(s.fds, fd, a1).1))
    } else if nr == SYS_NEWFSTATAT {
        (s, Reply::Done(fstat_spec(s.fds, fd, a2).0, fstat_spec(s.fds, fd, a2).1))
    } else if nr == SYS_LSEEK {
        let x = lseek_step(s.fds, fd, a1, a2 as i32);
        (CompatModel { fds: x.0, ..s }, Reply::Done(x.1, seq![]))
    } else if nr == SYS_FCNTL {
        (s, Reply::Done(fcntl_spec(fd, a1 as i32), seq![]))
    } else if nr == SYS_IOCTL {
        (s, Reply::Done(ioctl_spec(a1), seq![]))
    } else if nr == SYS_DUP3 {
        let x = dup3_spec(s.fds, fd, a1 as i32);
        (CompatModel { fds: x.0, ..s }, Reply::Done(x.1, seq![]))
    } else if nr == SYS_PIPE2 {
        fds_step(s, pipe2_spec(s.fds, a0))
    } else if nr == SYS_FSYNC || nr == SYS_FDATASYNC || nr == SYS_FACCESSAT || nr == SYS_FALLOCATE {
        (s, Reply::Done(0, seq![]))
    } else if nr == SYS_READLINKAT {
        match path_arg(input, 0, a1) {
            Err(q) => (s, Reply::NeedRead(q)),
            Ok(p) => (s, Reply::Done(readlink_spec(p, a2, a3).0, readlink_spec(p, a2, a3).1)),
        }
    } else if nr == SYS_GETDENTS64 {
        (s, Reply::Done(EBADF, seq![]))
    } else if nr == SYS_STATFS {
        if a1 == 0 {
            (s, Reply::Done(crate::syscall_wrapper::EFAULT, seq![]))
        } else {
            (s, Reply::Done(0, word_effects(a1, statfs_words())))
        }
    } else {
        (s, Reply::Done(EINVAL, seq![]))
    }
}

/// Answers a file syscall; `input` holds the reads of the caller's memory
/// made so far.
pub fn handle(st: &mut CompatState, nr: u64, a0: u64, a1: u64, a2: u64, a3: u64, a4: u64, a5: u64, input: &Vec<UserData>)
    -> (out: Outcome)
    requires
        old(st)@.wf(),
    ensures
        final(st)@.wf(),
        (final(st)@, out@) == io_step(old(st)@, nr, a0, a1, a2, a3, a4, a5, input@),
{
    let app_id = crate::syscall_wrapper::current_app_id(st);
    let storage_ep = APP_STORAGE_BASE.wrapping_add(app_id);
    if !has_capability(&st.kernel, app_id, storage_ep, CAP_APP_STORAGE) {
        return Outcome::Done(EPERM, Vec::new());
    }
    let fd = a0 as i32;
    let mut eff: Vec<UserEffect> = Vec::new();
    let r: Result<i64, UserRead> = match nr {
        SYS_OPENAT => sys_openat(st, a1, input, &mut eff),
        SYS_CLOSE => Ok(crate::fd_table::sys_close(&mut st.fds, fd)),
        SYS_READ => Ok(crate::fd_table::sys_read(&mut st.fds, fd, a1, a2, &mut eff)),
        SYS_WRITE => Ok(sys_write(&mut st.fds, fd, a1, a2, &mut eff)),
        SYS_PREAD64 => Ok(crate::fd_table::sys_pread64(&st.fds, fd, a1, a2, a3, &mut eff)),
        SYS_PWRITE64 => Ok(a2 as i64),
        SYS_READV => sys_readv(&mut st.fds, fd, a1, a2, input, &mut eff),
        SYS_WRITEV => sys_writev(&mut st.fds, fd, a1, a2, input, &mut eff),
        SYS_FSTAT => Ok(crate::fd_table::sys_fstat(&st.fds, fd, a1, &mut eff)),
        SYS_NEWFSTATAT => Ok(crate::fd_table::sys_fstat(&st.fds, fd, a2, &mut eff)),
        SYS_LSEEK => Ok(sys_lseek(&mut st.fds, fd, a1, a2 as i32)),
        SYS_FCNTL => Ok(crate::fd_table::sys_fcntl(fd, a1 as i32)),
        SYS_IOCTL => Ok(crate::fd_table::sys_ioctl(a1)),
        SYS_DUP3 => Ok(crate::fd_table::sys_dup3(&mut st.fds, fd, a1 as i32)),
        SYS_PIPE2 => Ok(crate::fd_table::sys_pipe2(&mut st.fds, a0, &mut eff)),
        SYS_FSYNC => Ok(0),
        SYS_FDATASYNC => Ok(0),
        SYS_FACCESSAT => Ok(0),
        SYS_READLINKAT => crate::fd_table::sys_readlinkat(input, 0, a1, a2, a3, &mut eff),
        SYS_GETDENTS64 => Ok(EBADF),
        SYS_STATFS => Ok(crate::fd_table::sys_statfs(a1, &mut eff)),
        SYS_FALLOCATE => Ok(0),
        _ => Ok(EINVAL),
    };
    proof { assert(eff@ =~= seq![] + eff@); }
    match r {
        Ok(v) => Outcome::Done(v, eff),
        Err(q) => Outcome::NeedRead(q),
    }
}

/// Reads `len` bytes of file `fd` from `offset` into the buffer at `buf`.
pub fn read_fd(st: &CompatState, fd: i32, offset: u64, buf: u64, len: u64, eff: &mut Vec<UserEffect>) -> (r: i64)
    requires
        st@.wf(),
    ensures
        (r, final(eff)@) == {
            let x = pread_spec(st@.fds, fd, buf, len, offset);
            (x.0, old(eff)@ + x.1)
        },
{
    crate::fd_table::sys_pread64(&st.fds, fd, buf, len, offset, eff)
}

/// Sets the size of file `fd`.
pub fn ftruncate(st: &mut CompatState, fd: i32, length: u64) -> (r: i64)
    requires
        old(st)@.wf(),
    ensures
        final(st)@.wf(),
        final(st)@ == (CompatModel { fds: ftruncate_spec(old(st)@.fds, fd, length).0, ..old(st)@ }),
        r == ftruncate_spec(old(st)@.fds, fd, length).1,
{
    crate::fd_table::set_size(&mut st.fds, fd, length)
}

/// A read gives back what a write wrote: after writing `len` bytes to a file
/// with a buffer and seeking back to where the write started, reading `len`
/// bytes copies them from the very place the write copied them to.
pub proof fn law_read_back_written(fds: Seq<FdEntry>, fd: i32, wbuf: u64, rbuf: u64, len: u64)
    requires
        fds_wf(fds),
        3 <= fd < MAX_FDS,
        fds[fd as int].valid,
        fds[fd as int].data_ptr != 0,
        0 < len,
        fds[fd as int].offset + len <= u64::MAX,
    ensures
        ({
            let start = fds[fd as int].offset;
            let w = write_step(fds, fd, wbuf, len);
            let l = lseek_step(w.0, fd, start, 0);
            let r = read_spec(l.0, fd, rbuf, len);
            &&& w.2 == seq![UserEffect::CopyBytes { dst: wadd(fds[fd as int].data_ptr, start), src: wbuf, len }]
            &&& l.1 == start as i64
            &&& r.2 == seq![UserEffect::CopyBytes { dst: rbuf, src: wadd(fds[fd as int].data_ptr, start), len }]
            &&& r.1 == len as i64
        }),
{
}

/// A closed descriptor cannot be read.
pub proof fn law_closed_fd_unreadable(fds: Seq<FdEntry>, fd: i32, buf: u64, len: u64)
    requires
        fds_wf(fds),
        3 <= fd < MAX_FDS,
    ensures
        read_spec(close_spec(fds, fd).0, fd, buf, len).1 == EBADF,
{
}

/// Two files opened one after the other get different descriptors.
pub proof fn law_open_distinct(s: CompatModel, p1: Seq<u8>, p2: Seq<u8>)
    requires
        s.wf(),
        openat_step(s, p1).1 >= 0,
        openat_step(openat_step(s, p1).0, p2).1 >= 0,
    ensures
        openat_step(s, p1).1 != openat_step(openat_step(s, p1).0, p2).1,
{
    lemma_first_where(s.fds, fd_free(), 10);
    let s1 = openat_step(s, p1).0;
    lemma_first_where(s1.fds, fd_free(), 10);
}

/// A `.dex` file opened by path reads back its header: when the pool can
/// give the buffer, the open stores the DEX magic "dex\n035\0" at the start
/// of the file's buffer; a read of 8 bytes then copies exactly those bytes
/// from there and moves the offset to 8, and a following read of 4096 bytes
/// gives the remaining 4088.
pub proof fn law_dex_header_read_back(s: CompatModel, path: Seq<u8>, dst: u64, dst2: u64)
    requires
        s.wf(),
        suffix_dex().is_suffix_of(path),
        openat_step(s, path).1 >= 0,
        bump_alloc_spec(s.mem, CODE_FILE_SIZE).1 != 0,
    ensures
        ({
            let (t, fd, e) = openat_step(s, path);
            let p = bump_alloc_spec(s.mem, CODE_FILE_SIZE).1;
            let r1 = read_spec(t.fds, fd as i32, dst, 8);
            &&& dex_magic() == seq![0x64u8, 0x65, 0x78, 0x0a, 0x30, 0x33, 0x35, 0x00]
            &&& e.subrange(0, 8) == byte_effects(p, dex_magic())
            &&& r1.1 == 8
            &&& r1.2 == seq![UserEffect::CopyBytes { dst, src: p, len: 8 }]
            &&& r1.0[fd as int].offset == 8
            &&& read_spec(r1.0, fd as i32, dst2, 4096).1 == 4088
        }),
{
    lemma_first_where(s.fds, fd_free(), 10);
    let fd = alloc_fd_spec(s.fds);
    let p = bump_alloc_spec(s.mem, CODE_FILE_SIZE).1;
    assert(is_code_file(path));
    assert(wadd(p, 0) == p) by (bit_vector);
    assert(wadd(0, 8) == 8) by (bit_vector);
    assert(0 <= fd < 256 ==> ((fd as i64) as i32) == fd) by (bit_vector);
    let e = openat_step(s, path).2;
    assert(e == code_header_effects(p));
    assert(e.subrange(0, 8) =~= byte_effects(p, dex_magic()));
}

/// Whether the last bytes of `path` are `sfx`.
pub open spec fn has_suffix(path: Seq<u8>, sfx: Seq<u8>) -> bool {
    sfx.len() <= path.len() && path.subrange(path.len() - sfx.len(), path.len() as int) == sfx
}

/// Packages and compiled code open as 4 KiB files: a path ending in `.apk`,
/// `.dex`, `.odex`, `.vdex` or `.oat` opens a storage file of 4096 bytes at
/// offset 0 whose buffer is the next block of the pool, and when the pool
/// can give it the buffer starts with the DEX magic "dex\n035\0".
pub proof fn law_code_files_open_with_header(s: CompatModel, path: Seq<u8>)
    requires
        s.wf(),
        openat_step(s, path).1 >= 0,
        has_suffix(path, seq![0x2eu8, 0x61, 0x70, 0x6b])
            || has_suffix(path, seq![0x2eu8, 0x64, 0x65, 0x78])
            || has_suffix(path, seq![0x2eu8, 0x6f, 0x64, 0x65, 0x78])
            || has_suffix(path, seq![0x2eu8, 0x76, 0x64, 0x65, 0x78])
            || has_suffix(path, seq![0x2eu8, 0x6f, 0x61, 0x74]),
    ensures
        ({
            let (t, fd, e) = openat_step(s, path);
            let p = bump_alloc_spec(s.mem, 4096).1;
            &&& t.fds[fd as int].valid
            &&& t.fds[fd as int].size == 4096
            &&& t.fds[fd as int].offset == 0
            &&& t.fds[fd as int].data_ptr == p
            &&& p != 0 ==> e.len() >= 8 && e.subrange(0, 8)
                == byte_effects(p, seq![0x64u8, 0x65, 0x78, 0x0a, 0x30, 0x33, 0x35, 0x00])
        }),
{
    assert(is_code_file(path));
    lemma_first_where(s.fds, fd_free(), 10);
    let p = bump_alloc_spec(s.mem, 4096).1;
    let e = openat_step(s, path).2;
    if p != 0 {
        assert(e == code_header_effects(p));
        assert(e.subrange(0, 8) =~= byte_effects(p, dex_magic()));
    }
}

} // verus!
