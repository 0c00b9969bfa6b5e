//! I/O bridge of the kernel build: `openat`, `read`, `write`, `close`,
//! `fstat`, `lseek` and the rest of the file syscalls, with the console on
//! the kernel UART.
use vstd::prelude::*;
use crate::art::syscall_table::{
    SYS_OPENAT, SYS_CLOSE, SYS_READ, SYS_WRITE, SYS_PREAD64, SYS_PWRITE64, SYS_READV, SYS_WRITEV,
    SYS_FSTAT, SYS_NEWFSTATAT, SYS_LSEEK, SYS_FCNTL, SYS_IOCTL, SYS_DUP3, SYS_PIPE2, SYS_FSYNC,
    SYS_FDATASYNC, SYS_FACCESSAT, SYS_READLINKAT, SYS_GETDENTS64, SYS_STATFS, SYS_FALLOCATE,
};
use crate::fd_table::{
    FdEntry, FdKind, MAX_FDS, in_table, fds_wf, alloc_fd, alloc_fd_spec, read_spec, write_file_spec,
    pread_spec, fstat_spec, fcntl_spec, ioctl_spec, dup3_spec, pipe2_spec, statfs_words, ftruncate_spec,
    readlink_spec, path_arg, close_spec, read_path, ends_with, starts_with, dex_magic, dex_magic_bytes,
    file_size_4k, file_size_4k_bytes, suffix_apk, suffix_apk_bytes, suffix_dex, suffix_dex_bytes,
    suffix_odex, suffix_odex_bytes, suffix_vdex, suffix_vdex_bytes, prefix_dev, prefix_dev_bytes,
    prefix_dev_ashmem, prefix_dev_ashmem_bytes,
};
use crate::pool::{bump_alloc_spec, lemma_bump_alloc_nonzero, wadd};
use crate::kernel_stubs::{has_capability, has_capability_spec, CAP_APP_STORAGE, APP_STORAGE_BASE, CONSOLE_ENDPOINT_ID, CAP_STDOUT_WRITE, KernelModel};
use crate::user_mem::{
    Outcome, Reply, UserData, UserEffect, UserRead, IoVec, answered, answered_at, iovec_at, iovecs_of,
    byte_effects, word_effects, push_bytes, data_len, bytes_of, byte_at,
};
use crate::io_bridge::{storage_allowed, iov_arg, readv_from, CODE_FILE_SIZE};
use crate::search::lemma_first_where;
use crate::fd_table::fd_free;
use crate::syscall_wrapper::{CompatState, CompatModel, EPERM, EBADF, EINVAL, EFAULT};

verus! {

/// Header byte 8 of a virtual DEX file: the header size, 0x70.
pub const DEX_HEADER_SIZE: u8 = 0x70;

/// Whether `path` names an app package or DEX code: `.apk`, `.dex`, `.odex`
/// or `.vdex`.
pub open spec fn is_dex_file(path: Seq<u8>) -> bool {
    suffix_apk().is_suffix_of(path) || suffix_dex().is_suffix_of(path)
        || suffix_odex().is_suffix_of(path) || suffix_vdex().is_suffix_of(path)
}

/// Whether `path` is a device, shared memory included.
pub open spec fn is_device(path: Seq<u8>) -> bool {
    prefix_dev_ashmem().is_prefix_of(path) || prefix_dev().is_prefix_of(path)
}

fn dex_file(path: &Vec<u8>) -> (b: bool)
    ensures
        b == is_dex_file(path@),
{
    ends_with(path, &suffix_apk_bytes()) || ends_with(path, &suffix_dex_bytes())
        || ends_with(path, &suffix_odex_bytes()) || ends_with(path, &suffix_vdex_bytes())
}

fn device(path: &Vec<u8>) -> (b: bool)
    ensures
        b == is_device(path@),
{
    starts_with(path, &prefix_dev_ashmem_bytes()) || starts_with(path, &prefix_dev_bytes())
}

/// The header written into the buffer of a virtual DEX file: the magic, the
/// header size at offset 8, the file size at offset 32.
pub open spec fn dex_header_effects(buf: u64) -> Seq<UserEffect> {
    byte_effects(buf, dex_magic())
        + seq![UserEffect::Byte { addr: wadd(buf, 8), value: DEX_HEADER_SIZE }]
        + byte_effects(wadd(buf, 32), file_size_4k())
}

/// What `openat(_, path)` does once the path is read: the first free
/// descriptor from 10 on opens a shared-memory descriptor for a device, a
/// 4 KiB file holding a DEX header for a package or DEX file, an empty
/// storage file for anything else.
pub open spec fn openat_step(s: CompatModel, path: Seq<u8>) -> (CompatModel, i64, Seq<UserEffect>) {
    let fd = alloc_fd_spec(s.fds);
    if fd < 0 {
        (s, EBADF, seq![])
    } else if is_device(path) {
        (CompatModel { fds: s.fds.update(fd as int, FdEntry::fresh(FdKind::MemFd)), ..s }, fd as i64, seq![])
    } else if is_dex_file(path) {
        let (m1, buf) = bump_alloc_spec(s.mem, CODE_FILE_SIZE);
        (
            CompatModel {
                mem: m1,
                fds: s.fds.update(fd as int, FdEntry {
                    kind: FdKind::StorageFile, offset: 0, size: CODE_FILE_SIZE, data_ptr: buf, valid: true }),
                ..s
            },
            fd as i64,
            dex_header_effects(buf),
        )
    } else {
        (
            CompatModel { fds: s.fds.update(fd as int, FdEntry::fresh(FdKind::StorageFile)), ..s },
            fd as i64,
            seq![],
        )
    }
}

fn sys_openat(st: &mut CompatState, dirfd: i32, path_ptr: u64, input: &Vec<UserData>, eff: &mut Vec<UserEffect>) -> (r: Result<i64, UserRead>)
    requires
        old(st)@.wf(),
    ensures
        final(st)@.wf(),
        match path_arg(input@, 0, path_ptr) {
            Err(q) => r == Err::<i64, UserRead>(q) && final(st)@ == old(st)@ && final(eff)@ == old(eff)@,
            Ok(p) => r == Ok::<i64, UserRead>(openat_step(old(st)@, p).1) && final(st)@ == openat_step(old(st)@, p).0
                && final(eff)@ == old(eff)@ + openat_step(old(st)@, p).2,
        },
{
    let path = match read_path(input, 0, path_ptr) {
        Ok(p) => p,
        Err(q) => { return Err(q); },
    };
    let fd = alloc_fd(&st.fds);
    if fd < 0 {
        proof { assert(eff@ =~= old(eff)@ + seq![]); }
        return Ok(EBADF);
    }
    if device(&path) {
        st.fds.set(fd as usize, FdEntry { kind: FdKind::MemFd, offset: 0, size: 0, data_ptr: 0, valid: true });
        proof { assert(eff@ =~= old(eff)@ + seq![]); }
    } else if dex_file(&path) {
        proof { lemma_bump_alloc_nonzero(st.mem@, CODE_FILE_SIZE); }
        let buf = crate::pool::bump_alloc(&mut st.mem, CODE_FILE_SIZE);
        push_bytes(eff, buf, &dex_magic_bytes());
        eff.push(UserEffect::Byte { addr: buf.wrapping_add(8), value: DEX_HEADER_SIZE });
        push_bytes(eff, buf.wrapping_add(32), &file_size_4k_bytes());
        proof { assert(eff@ =~= old(eff)@ + dex_header_effects(buf)); }
        st.fds.set(fd as usize, FdEntry {
            kind: FdKind::StorageFile, offset: 0, size: CODE_FILE_SIZE, data_ptr: buf, valid: true });
    } else {
        st.fds.set(fd as usize, FdEntry { kind: FdKind::StorageFile, offset: 0, size: 0, data_ptr: 0, valid: true });
        proof { assert(eff@ =~= old(eff)@ + seq![]); }
    }
    Ok(fd as i64)
}

/// Whether the app may write on the console.
pub open spec fn console_allowed(k: KernelModel, app_id: u32) -> bool {
    has_capability_spec(k, app_id, CONSOLE_ENDPOINT_ID, CAP_STDOUT_WRITE)
}

/// What the UART prints of `data`: every byte that is a character on its
/// own, that is every ASCII byte.
pub open spec fn console_effects(data: Seq<u8>) -> Seq<UserEffect>
    decreases data.len(),
{
    if data.len() == 0 {
        seq![]
    } else {
        console_effects(data.drop_last()) + if data.last() < 0x80u8 {
            seq![UserEffect::Console { value: data.last() }]
        } else {
            seq![]
        }
    }
}

/// What `write(fd, buf, len)` does: on the console descriptors 1 and 2 an
/// app with console rights has the bytes, read from entry `k` of the input,
/// printed on the UART; other descriptors write to their file.
pub open spec fn write_step(s: CompatModel, fd: i32, buf: u64, len: u64, input: Seq<UserData>, k: int)
    -> Result<(Seq<FdEntry>, i64, Seq<UserEffect>), UserRead>
{
    if fd == 1 || fd == 2 {
        if !console_allowed(s.kernel, s.app_id) {
            Ok((s.fds, EPERM, seq![]))
        } else if !answered_at(input, k, UserRead::Bytes { addr: buf, len }) {
            Err(UserRead::Bytes { addr: buf, len })
        } else {
            Ok((s.fds, len as i64, console_effects(bytes_of(input[k]))))
        }
    } else {
        Ok(write_file_spec(s.fds, fd, buf, len))
    }
}

fn print_console(input: &Vec<UserData>, k: usize, eff: &mut Vec<UserEffect>)
    requires
        k < input@.len(),
    ensures
        final(eff)@ == old(eff)@ + console_effects(bytes_of(input@[k as int])),
{
    let ghost data = bytes_of(input@[k as int]);
    let n = match &input[k] {
        UserData::Bytes(b) => b.len(),
        _ => 0,
    };
    assert(n == data.len());
    let mut i: usize = 0;
    while i < n
        invariant
            k < input@.len(),
            data == bytes_of(input@[k as int]),
            n == data.len(),
            i <= n,
            eff@ == old(eff)@ + console_effects(data.take(i as int)),
        decreases n - i,
    {
        let b = byte_at(input, k, i);
        if b < 0x80 {
            eff.push(UserEffect::Console { value: b });
        }
        i = i + 1;
        proof {
            assert(data.take(i as int).drop_last() =~= data.take(i - 1));
            assert(data.take(i as int).last() == b);
            assert(eff@ =~= old(eff)@ + console_effects(data.take(i as int)));
        }
    }
    proof { assert(data.take(n as int) =~= data); }
}

fn sys_write(st: &mut CompatState, fd: i32, buf: u64, len: u64, input: &Vec<UserData>, k: usize, eff: &mut Vec<UserEffect>)
    -> (r: Result<i64, UserRead>)
    requires
        old(st)@.wf(),
    ensures
        final(st)@.wf(),
        match write_step(old(st)@, fd, buf, len, input@, k as int) {
            Err(q) => r == Err::<i64, UserRead>(q) && final(st)@ == old(st)@ && final(eff)@ == old(eff)@,
            Ok((f, v, e)) => r == Ok::<i64, UserRead>(v) && final(st)@ == (CompatModel { fds: f, ..old(st)@ })
                && final(eff)@ == old(eff)@ + e,
        },
{
    if fd == 1 || fd == 2 {
        let app_id = crate::syscall_wrapper::current_app_id(st);
        let ok = has_capability(&st.kernel, app_id, CONSOLE_ENDPOINT_ID, CAP_STDOUT_WRITE);
        if !ok {
            proof { assert(eff@ =~= old(eff)@ + seq![]); }
            return Ok(EPERM);
        }
        let req = UserRead::Bytes { addr: buf, len };
        if !answered(input, k, req) {
            return Err(req);
        }
        print_console(input, k, eff);
        return Ok(len as i64);
    }
    Ok(crate::fd_table::sys_write_file(&mut st.fds, fd, buf, len, eff))
}

/// `writev` from record `i` on, `total` bytes written so far; the console
/// bytes of record `i` are entry `1 + i` of the input; a failure ends it.
pub open spec fn writev_from(s: CompatModel, fd: i32, iovs: Seq<IoVec>, i: int, total: i64, input: Seq<UserData>)
    -> Result<(Seq<FdEntry>, i64, Seq<UserEffect>), UserRead>
    decreases iovs.len() - i,
{
    if i < 0 || i >= iovs.len() {
        Ok((s.fds, total, seq![]))
    } else {
        match write_step(s, fd, iovs[i].base, iovs[i].len, input, 1 + i) {
            Err(q) => Err(q),
            Ok(x) => if x.1 < 0 {
                Ok(x)
            } else {
                match writev_from(CompatModel { fds: x.0, ..s }, fd, iovs, i + 1,
                    vstd::wrapping::i64_specs::wrapping_add(total, x.1), input) {
                    Err(q) => Err(q),
                    Ok(y) => Ok((y.0, y.1, x.2 + y.2)),
                }
            },
        }
    }
}

/// A failed read anywhere in a console `writev` leaves nothing changed.
proof fn lemma_writev_from_err(s: CompatModel, fd: i32, iovs: Seq<IoVec>, i: int, total: i64, input: Seq<UserData>)
    requires
        0 <= i,
        writev_from(s, fd, iovs, i, total, input) is Err,
    ensures
        fd == 1 || fd == 2,
    decreases iovs.len() - i,
{
    if i < iovs.len() {
        match write_step(s, fd, iovs[i].base, iovs[i].len, input, 1 + i) {
            Err(q) => {},
            Ok(x) => {
                if x.1 >= 0 {
                    lemma_writev_from_err(CompatModel { fds: x.0, ..s }, fd, iovs, i + 1,
                        vstd::wrapping::i64_specs::wrapping_add(total, x.1), input);
                }
            },
        }
    }
}

fn sys_writev(st: &mut CompatState, fd: i32, iov_ptr: u64, iovcnt: u64, input: &Vec<UserData>, eff: &mut Vec<UserEffect>)
    -> (r: Result<i64, UserRead>)
    requires
        old(st)@.wf(),
    ensures
        final(st)@.wf(),
        match iov_arg(input@, iov_ptr, iovcnt) {
            Err(q) => r == Err::<i64, UserRead>(q) && final(st)@ == old(st)@ && final(eff)@ == old(eff)@,
            Ok(iovs) => match writev_from(old(st)@, fd, iovs, 0, 0, input@) {
                Err(q) => r == Err::<i64, UserRead>(q) && final(st)@ == old(st)@,
                Ok((f, v, e)) => r == Ok::<i64, UserRead>(v) && final(st)@ == (CompatModel { fds: f, ..old(st)@ })
                    && final(eff)@ == old(eff)@ + e,
            },
        },
{
    let req = UserRead::IoVecs { addr: iov_ptr, count: iovcnt };
    if !answered(input, 0, req) {
        return Err(req);
    }
    let ghost iovs = iovecs_of(input@[0]);
    let n = data_len(input, 0);
    let mut total: i64 = 0;
    let mut i: usize = 0;
    while i < n
        invariant
            0 < input@.len(),
            iovs == iovecs_of(input@[0]),
            iov_arg(input@, iov_ptr, iovcnt) == Ok::<Seq<IoVec>, UserRead>(iovs),
            n == iovs.len(),
            i <= n,
            st@.wf(),
            st@ == (CompatModel { fds: st@.fds, ..old(st)@ }),
            (fd == 1 || fd == 2) ==> st@ == old(st)@,
            old(eff)@.is_prefix_of(eff@),
            match writev_from(st@, fd, iovs, i as int, total, input@) {
                Err(q) => writev_from(old(st)@, fd, iovs, 0, 0, input@) == Err::<(Seq<FdEntry>, i64, Seq<UserEffect>), UserRead>(q),
                Ok(y) => writev_from(old(st)@, fd, iovs, 0, 0, input@)
                    == Ok::<(Seq<FdEntry>, i64, Seq<UserEffect>), UserRead>(
                        (y.0, y.1, eff@.subrange(old(eff)@.len() as int, eff@.len() as int) + y.2)),
            },
        decreases n - i,
    {
        let v = iovec_at(input, 0, i);
        let ghost before = eff@;
        let ghost s0 = st@;
        if i >= usize::MAX - 1 {
            proof { assert(input@.len() == input.len()); }
            if fd == 1 || fd == 2 {
                let app_id = crate::syscall_wrapper::current_app_id(st);
                if !has_capability(&st.kernel, app_id, CONSOLE_ENDPOINT_ID, CAP_STDOUT_WRITE) {
                    return Ok(EPERM);
                }
                return Err(UserRead::Bytes { addr: v.base, len: v.len });
            }
        }
        let k = if i < usize::MAX - 1 { 1 + i } else { 0 };
        let c = sys_write(st, fd, v.base, v.len, input, k, eff);
        match c {
            Err(q) => {
                proof {
                    assert(write_step(s0, fd, v.base, v.len, input@, 1 + i) == write_step(s0, fd, v.base, v.len, input@, k as int));
                    lemma_writev_from_err(s0, fd, iovs, i as int, total, input@);
                }
                return Err(q);
            },
            Ok(c) => {
                proof {
                    assert(eff@.subrange(old(eff)@.len() as int, eff@.len() as int)
                        =~= before.subrange(old(eff)@.len() as int, before.len() as int)
                        + eff@.subrange(before.len() as int, eff@.len() as int));
                }
                if c < 0 {
                    proof {
                        assert(eff@ =~= old(eff)@ + eff@.subrange(old(eff)@.len() as int, eff@.len() as int));
                    }
                    return Ok(c);
                }
                proof {
                    let acc0 = before.subrange(old(eff)@.len() as int, before.len() as int);
                    let x2 = eff@.subrange(before.len() as int, eff@.len() as int);
                    assert(write_step(s0, fd, v.base, v.len, input@, 1 + i) == write_step(s0, fd, v.base, v.len, input@, k as int));
                    let w = write_step(s0, fd, v.base, v.len, input@, k as int);
                    assert(w is Ok);
                    let t = w->Ok_0;
                    assert(x2 =~= t.2);
                    assert(write_step(s0, fd, v.base, v.len, input@, 1 + i)
                        == Ok::<(Seq<FdEntry>, i64, Seq<UserEffect>), UserRead>((st@.fds, c, x2)));
                    assert(st@ == (CompatModel { fds: st@.fds, ..s0 }));
                    assert forall|y2: Seq<UserEffect>| #[trigger] (acc0 + (x2 + y2)) == (acc0 + x2) + y2 by {
                        assert((acc0 + (x2 + y2)) =~= (acc0 + x2) + y2);
                    }
                }
                total = total.wrapping_add(c);
            },
        }
        i = i + 1;
    }
    proof {
        assert(eff@ =~= old(eff)@ + eff@.subrange(old(eff)@.len() as int, eff@.len() as int));
    }
    Ok(total)
}

/// What `lseek(fd, offset, whence)` does: `SEEK_SET` goes to `offset`,
/// `SEEK_CUR` moves by it (wrapping around), `SEEK_END` goes `offset` past
/// the end of the file, stopping at the largest offset.
pub open spec fn lseek_step(fds: Seq<FdEntry>, fd: i32, offset: u64, whence: i32) -> (Seq<FdEntry>, i64) {
    if !in_table(fd) || !fds[fd as int].valid {
        (fds, EBADF)
    } else {
        let e = fds[fd as int];
        let new_off = if whence == 0 {
            Some(offset)
        } else if whence == 1 {
            Some(wadd(e.offset, offset))
        } else if whence == 2 {
            Some(if e.size + offset > u64::MAX { u64::MAX } else { (e.size + offset) as u64 })
        } else {
            None::<u64>
        };
        match new_off {
            Some(o) => (fds.update(fd as int, FdEntry { offset: o, ..e }), o as i64),
            None => (fds, EINVAL),
        }
    }
}

fn sys_lseek(fds: &mut Vec<FdEntry>, fd: i32, offset: u64, whence: i32) -> (r: i64)
    requires
        fds_wf(old(fds)@),
    ensures
        fds_wf(final(fds)@),
        (final(fds)@, r) == lseek_step(old(fds)@, fd, offset, whence),
{
    if fd < 0 || fd as usize >= MAX_FDS {
        return EBADF;
    }
    let e = fds[fd as usize];
    if !e.valid {
        return EBADF;
    }
    let new_off = match whence {
        0 => offset,
        1 => e.offset.wrapping_add(offset),
        2 => e.size.saturating_add(offset),
        _ => { return EINVAL; },
    };
    fds.set(fd as usize, FdEntry { offset: new_off, ..e });
    new_off as i64
}

/// `faccessat`: every path is reported to exist and to be accessible.
fn sys_faccessat(dirfd: i32, path_ptr: u64, mode: u32) -> (r: i64)
    ensures
        r == 0,
{
    0
}

/// A step that leaves everything but the descriptor table as it is.
pub open spec fn fds_step(s: CompatModel, x: (Seq<FdEntry>, i64, Seq<UserEffect>)) -> (CompatModel, Reply) {
    (CompatModel { fds: x.0, ..s }, Reply::Done(x.1, x.2))
}

/// What the I/O bridge does with syscall `nr`: nothing at all for an app
/// without storage rights, else the syscall's own step; a read of the
/// caller's memory that is still missing is asked for first.
pub open spec fn io_step(s: CompatModel, nr: u64, a0: u64, a1: u64, a2: u64, a3: u64, a4: u64, a5: u64, input: Seq<UserData>)
    -> (CompatModel, Reply)
{
    let fd = a0 as i32;
    if !storage_allowed(s.kernel, s.app_id) {
        (s, Reply::Done(EPERM, seq![]))
    } else if nr == SYS_OPENAT {
        match path_arg(input, 0, a1) {
            Err(q) => (s, Reply::NeedRead(q)),
            Ok(p) => {
                let x = openat_step(s, p);
                (x.0, Reply::Done(x.1, x.2))
            },
        }
    } else if nr == SYS_CLOSE {
        let x = close_spec(s.fds, fd);
        (CompatModel { fds: x.0, ..s }, Reply::Done(x.1, seq![]))
    } else if nr == SYS_READ {
        fds_step(s, read_spec(s.fds, fd, a1, a2))
    } else if nr == SYS_WRITE {
        match write_step(s, fd, a1, a2, input, 0) {
            Err(q) => (s, Reply::NeedRead(q)),
            Ok(x) => fds_step(s, x),
        }
    } else if nr == SYS_PREAD64 {
        (s, Reply::Done(pread_spec(s.fds, fd, a1, a2, a3).0, pread_spec(s.fds, fd, a1, a2, a3).1))
    } else if nr == SYS_PWRITE64 {
        (s, Reply::Done(a2 as i64, seq![]))
    } else if nr == SYS_READV {
        match iov_arg(input, a1, a2) {
            Err(q) => (s, Reply::NeedRead(q)),
            Ok(iovs) => fds_step(s, readv_from(s.fds, fd, iovs, 0, 0)),
        }
    } else if nr == SYS_WRITEV {
        match iov_arg(input, a1, a2) {
            Err(q) => (s, Reply::NeedRead(q)),
            Ok(iovs) => match writev_from(s, fd, iovs, 0, 0, input) {
                Err(q) => (s, Reply::NeedRead(q)),
                Ok(x) => fds_step(s, x),
            },
        }
    } else if nr == SYS_FSTAT || nr == SYS_NEWFSTATAT {
        (s, Reply::Done(fstat_spec(s.fds, fd, a1).0, fstat_spec(s.fds, fd, a1).1))
    } else if nr == SYS_LSEEK {
        let x = lseek_step(s.fds, fd, a1, a2 as i32);
        (CompatModel { fds: x.0, ..s }, Reply::Done(x.1, seq![]))
    } else if nr == SYS_FCNTL {
        (s, Reply::Done(fcntl_spec(fd, a1 as i32), seq![]))
    } else if nr == SYS_IOCTL {
        (s, Reply::Done(ioctl_spec(a1), seq![]))
    } else if nr == SYS_DUP3 {
        let x = dup3_spec(s.fds, fd, a1 as i32);
        (CompatModel { fds: x.0, ..s }, Reply::Done(x.1, seq![]))
    } else if nr == SYS_PIPE2 {
        fds_step(s, pipe2_spec(s.fds, a0))
    } else if nr == SYS_FSYNC || nr == SYS_FDATASYNC || nr == SYS_FACCESSAT || nr == SYS_FALLOCATE {
        (s, Reply::Done(0, seq![]))
    } else if nr == SYS_READLINKAT {
        match path_arg(input, 0, a1) {
            Err(q) => (s, Reply::NeedRead(q)),
            Ok(p) => (s, Reply::Done(readlink_spec(p, a2, a3).0, readlink_spec(p, a2, a3).1)),
        }
    } else if nr == SYS_GETDENTS64 {
        (s, Reply::Done(EBADF, seq![]))
    } else if nr == SYS_STATFS {
        if a1 == 0 {
            (s, Reply::Done(EFAULT, seq![]))
        } else {
            (s, Reply::Done(0, word_effects(a1, statfs_words())))
        }
    } else {
        (s, Reply::Done(EINVAL, seq![]))
    }
}

/// Answers a file syscall; `input` holds the reads of the caller's memory
/// made so far.
pub fn handle(st: &mut CompatState, nr: u64, a0: u64, a1: u64, a2: u64, a3: u64, a4: u64, a5: u64, input: &Vec<UserData>)
    -> (out: Outcome)
    requires
        old(st)@.wf(),
    ensures
        final(st)@.wf(),
        (final(st)@, out@) == io_step(old(st)@, nr, a0, a1, a2, a3, a4, a5, input@),
{
    let app_id = crate::syscall_wrapper::current_app_id(st);
    let storage_ep = APP_STORAGE_BASE.wrapping_add(app_id);
    if !has_capability(&st.kernel, app_id, storage_ep, CAP_APP_STORAGE) {
        return Outcome::Done(EPERM, Vec::new());
    }
    let fd = a0 as i32;
    let mut eff: Vec<UserEffect> = Vec::new();
    let r: Result<i64, UserRead> = match nr {
        SYS_OPENAT => sys_openat(st, fd, a1, input, &mut eff),
        SYS_CLOSE => Ok(crate::fd_table::sys_close(&mut st.fds, fd)),
        SYS_READ => Ok(crate::fd_table::sys_read(&mut st.fds, fd, a1, a2, &mut eff)),
        SYS_WRITE => sys_write(st, fd, a1, a2, input, 0, &mut eff),
        SYS_PREAD64 => Ok(crate::fd_table::sys_pread64(&st.fds, fd, a1, a2, a3, &mut eff)),
        SYS_PWRITE64 => Ok(a2 as i64),
        SYS_READV => crate::io_bridge::sys_readv(&mut st.fds, fd, a1, a2, input, &mut eff),
        SYS_WRITEV => sys_writev(st, fd, a1, a2, input, &mut eff),
        SYS_FSTAT => Ok(crate::fd_table::sys_fstat(&st.fds, fd, a1, &mut eff)),
        SYS_NEWFSTATAT => Ok(crate::fd_table::sys_fstat(&st.fds, fd, a1, &mut eff)),
        SYS_LSEEK => Ok(sys_lseek(&mut st.fds, fd, a1, a2 as i32)),
        SYS_FCNTL => Ok(crate::fd_table::sys_fcntl(fd, a1 as i32)),
        SYS_IOCTL => Ok(crate::fd_table::sys_ioctl(a1)),
        SYS_DUP3 => Ok(crate::fd_table::sys_dup3(&mut st.fds, fd, a1 as i32)),
        SYS_PIPE2 => Ok(crate::fd_table::sys_pipe2(&mut st.fds, a0, &mut eff)),
        SYS_FSYNC => Ok(0),
        SYS_FDATASYNC => Ok(0),
        SYS_FACCESSAT => Ok(sys_faccessat(fd, a1, a2 as u32)),
        SYS_READLINKAT => crate::fd_table::sys_readlinkat(input, 0, a1, a2, a3, &mut eff),
        SYS_GETDENTS64 => Ok(EBADF),
        SYS_STATFS => Ok(crate::fd_table::sys_statfs(a1, &mut eff)),
        SYS_FALLOCATE => Ok(0),
        _ => Ok(EINVAL),
    };
    proof { assert(eff@ =~= seq![] + eff@); }
    match r {
        Ok(v) => Outcome::Done(v, eff),
        Err(q) => Outcome::NeedRead(q),
    }
}

/// Reads `len` bytes of file `fd` from `offset` into the buffer at `buf`.
pub fn read_fd(st: &CompatState, fd: i32, offset: u64, buf: u64, len: u64, eff: &mut Vec<UserEffect>) -> (r: i64)
    requires
        st@.wf(),
    ensures
        (r, final(eff)@) == {
            let x = pread_spec(st@.fds, fd, buf, len, offset);
            (x.0, old(eff)@ + x.1)
        },
{
    crate::fd_table::sys_pread64(&st.fds, fd, buf, len, offset, eff)
}

/// Sets the size of file `fd`.
pub fn ftruncate(st: &mut CompatState, fd: i32, length: u64) -> (r: i64)
    requires
        old(st)@.wf(),
    ensures
        final(st)@.wf(),
        final(st)@ == (CompatModel { fds: ftruncate_spec(old(st)@.fds, fd, length).0, ..old(st)@ }),
        r == ftruncate_spec(old(st)@.fds, fd, length).1,
{
    crate::fd_table::set_size(&mut st.fds, fd, length)
}

/// A DEX file opened by path reads back its header through `read_fd`, which
/// never moves the offset: when the pool can give the buffer, the open
/// stores the DEX magic "dex\n035\0" and the header size 0x70 at offset 8;
/// reading 8 bytes at offset 0 copies the magic, reading 1 byte at offset 8
/// copies the header size, and reading at offset 4096 gives nothing.
pub proof fn law_dex_header_read_back(s: CompatModel, path: Seq<u8>, b: u64, c: u64)
    requires
        s.wf(),
        is_dex_file(path),
        !is_device(path),
        openat_step(s, path).1 >= 0,
        bump_alloc_spec(s.mem, CODE_FILE_SIZE).1 != 0,
    ensures
        ({
            let (t, fd, e) = openat_step(s, path);
            let p = bump_alloc_spec(s.mem, CODE_FILE_SIZE).1;
            &&& dex_magic() == seq![0x64u8, 0x65, 0x78, 0x0a, 0x30, 0x33, 0x35, 0x00]
            &&& e.subrange(0, 9) == byte_effects(p, dex_magic()) + seq![UserEffect::Byte { addr: wadd(p, 8), value: 0x70 }]
            &&& pread_spec(t.fds, fd as i32, b, 8, 0) == (8i64, seq![UserEffect::CopyBytes { dst: b, src: p, len: 8 }])
            &&& pread_spec(t.fds, fd as i32, c, 1, 8) == (1i64, seq![UserEffect::CopyBytes { dst: c, src: wadd(p, 8), len: 1 }])
            &&& pread_spec(t.fds, fd as i32, b, 8, 4096) == (0i64, Seq::<UserEffect>::empty())
            &&& t.fds[fd as int].offset == 0
        }),
{
    lemma_first_where(s.fds, fd_free(), 10);
    let fd = alloc_fd_spec(s.fds);
    let p = bump_alloc_spec(s.mem, CODE_FILE_SIZE).1;
    assert(wadd(p, 0) == p) by (bit_vector);
    assert(0 <= fd < 256 ==> ((fd as i64) as i32) == fd) by (bit_vector);
    let e = openat_step(s, path).2;
    assert(e == dex_header_effects(p));
    assert(e.subrange(0, 9) =~= byte_effects(p, dex_magic()) + seq![UserEffect::Byte { addr: wadd(p, 8), value: 0x70 }]);
}

} // verus!
