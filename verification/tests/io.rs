use ztos_compat::art::syscall_table::{
    SYS_OPENAT, SYS_CLOSE, SYS_READ, SYS_WRITE, SYS_LSEEK, SYS_FSTAT, SYS_PIPE2, SYS_READLINKAT,
    SYS_STATFS, SYS_FCNTL, SYS_IOCTL, SYS_READV, SYS_WRITEV, SYS_DUP3, SYS_GETDENTS64, SYS_PREAD64,
    SYS_PWRITE64, SYS_NEWFSTATAT,
};
use ztos_compat::fd_table::FdKind;
use ztos_compat::io_bridge::{handle, read_fd, ftruncate};
use ztos_compat::syscall_wrapper::{ztos_set_app_context, CompatState, EBADF, EINVAL, EPERM, EFAULT};
use ztos_compat::user_mem::{IoVec, Outcome, UserData, UserEffect, UserRead};

const POOL: u64 = 0x4000_0000;
const AT_FDCWD: u64 = 0xFFFF_FF9C;

fn state() -> CompatState {
    let mut st = CompatState::new(POOL);
    ztos_set_app_context(&mut st, 101, 20);
    st
}

fn io(st: &mut CompatState, nr: u64, a: [u64; 6], input: &Vec<UserData>) -> Outcome {
    handle(st, nr, a[0], a[1], a[2], a[3], a[4], a[5], input)
}

fn bytes(s: &str) -> Vec<UserData> {
    vec![UserData::Bytes(s.as_bytes().to_vec())]
}

fn byte_stores(addr: u64, data: &[u8]) -> Vec<UserEffect> {
    data.iter().enumerate().map(|(i, b)| UserEffect::Byte { addr: addr + i as u64, value: *b }).collect()
}

fn word_stores(addr: u64, data: &[u64]) -> Vec<UserEffect> {
    data.iter().enumerate().map(|(i, w)| UserEffect::Word { addr: addr + 8 * i as u64, value: *w }).collect()
}

fn open_apk(st: &mut CompatState) -> Outcome {
    io(st, SYS_OPENAT, [AT_FDCWD, 0x6000, 0, 0, 0, 0], &bytes("/data/app/base.apk"))
}

#[test]
fn openat_asks_for_the_path_first() {
    let mut st = state();
    assert_eq!(
        io(&mut st, SYS_OPENAT, [AT_FDCWD, 0x6000, 0, 0, 0, 0], &vec![]),
        Outcome::NeedRead(UserRead::CString { addr: 0x6000, max: 4096 })
    );
    assert!(!st.fds[10].valid);
}

#[test]
fn openat_of_a_package_holds_a_dex_header() {
    let mut st = state();
    let mut want = byte_stores(POOL, b"dex\n035\0");
    want.extend(byte_stores(POOL + 32, &[0, 0x10, 0, 0]));
    assert_eq!(open_apk(&mut st), Outcome::Done(10, want));
    let e = st.fds[10];
    assert_eq!((e.kind, e.offset, e.size, e.data_ptr, e.valid), (FdKind::StorageFile, 0, 4096, POOL, true));
}

#[test]
fn openat_of_other_paths_gives_empty_files() {
    let mut st = state();
    assert_eq!(io(&mut st, SYS_OPENAT, [AT_FDCWD, 0x6000, 0, 0, 0, 0], &bytes("/proc/self/maps")), Outcome::Done(10, vec![]));
    assert_eq!(io(&mut st, SYS_OPENAT, [AT_FDCWD, 0x6000, 0, 0, 0, 0], &bytes("x.oat")), Outcome::Done(11, vec![UserEffect::Byte { addr: POOL, value: b'd' }, UserEffect::Byte { addr: POOL + 1, value: b'e' }, UserEffect::Byte { addr: POOL + 2, value: b'x' }, UserEffect::Byte { addr: POOL + 3, value: b'\n' }, UserEffect::Byte { addr: POOL + 4, value: b'0' }, UserEffect::Byte { addr: POOL + 5, value: b'3' }, UserEffect::Byte { addr: POOL + 6, value: b'5' }, UserEffect::Byte { addr: POOL + 7, value: 0 }, UserEffect::Byte { addr: POOL + 32, value: 0 }, UserEffect::Byte { addr: POOL + 33, value: 0x10 }, UserEffect::Byte { addr: POOL + 34, value: 0 }, UserEffect::Byte { addr: POOL + 35, value: 0 }]));
    assert_eq!(st.fds[10].size, 0);
    assert_eq!(st.fds[10].data_ptr, 0);
    // A null path is the empty path.
    assert_eq!(io(&mut st, SYS_OPENAT, [AT_FDCWD, 0, 0, 0, 0, 0], &vec![]), Outcome::Done(12, vec![]));
}

#[test]
fn read_seek_write_on_a_package() {
    let mut st = state();
    open_apk(&mut st);
    assert_eq!(
        io(&mut st, SYS_READ, [10, 0x7000, 16, 0, 0, 0], &vec![]),
        Outcome::Done(16, vec![UserEffect::CopyBytes { dst: 0x7000, src: POOL, len: 16 }])
    );
    assert_eq!(st.fds[10].offset, 16);
    assert_eq!(
        io(&mut st, SYS_READ, [10, 0x7000, 10000, 0, 0, 0], &vec![]),
        Outcome::Done(4080, vec![UserEffect::CopyBytes { dst: 0x7000, src: POOL + 16, len: 4080 }])
    );
    assert_eq!(io(&mut st, SYS_READ, [10, 0x7000, 16, 0, 0, 0], &vec![]), Outcome::Done(0, vec![]));
    assert_eq!(io(&mut st, SYS_LSEEK, [10, 100, 0, 0, 0, 0], &vec![]), Outcome::Done(100, vec![]));
    assert_eq!(io(&mut st, SYS_LSEEK, [10, 5, 1, 0, 0, 0], &vec![]), Outcome::Done(105, vec![]));
    assert_eq!(io(&mut st, SYS_LSEEK, [10, 5, 2, 0, 0, 0], &vec![]), Outcome::Done(4096, vec![]));
    assert_eq!(io(&mut st, SYS_LSEEK, [10, 5, 3, 0, 0, 0], &vec![]), Outcome::Done(EINVAL, vec![]));
    assert_eq!(
        io(&mut st, SYS_WRITE, [10, 0x8000, 8, 0, 0, 0], &vec![]),
        Outcome::Done(8, vec![UserEffect::CopyBytes { dst: POOL + 4096, src: 0x8000, len: 8 }])
    );
    assert_eq!((st.fds[10].offset, st.fds[10].size), (4104, 4104));
}

#[test]
fn pread_does_not_move_the_offset() {
    let mut st = state();
    open_apk(&mut st);
    assert_eq!(
        io(&mut st, SYS_PREAD64, [10, 0x7000, 100, 4000, 0, 0], &vec![]),
        Outcome::Done(96, vec![UserEffect::CopyBytes { dst: 0x7000, src: POOL + 4000, len: 96 }])
    );
    assert_eq!(st.fds[10].offset, 0);
    assert_eq!(io(&mut st, SYS_PWRITE64, [10, 0x7000, 100, 0, 0, 0], &vec![]), Outcome::Done(100, vec![]));
    let mut eff = Vec::new();
    assert_eq!(read_fd(&st, 10, 8, 0x7000, 4, &mut eff), 4);
    assert_eq!(eff, vec![UserEffect::CopyBytes { dst: 0x7000, src: POOL + 8, len: 4 }]);
}

#[test]
fn console_and_stdin() {
    let mut st = state();
    assert_eq!(io(&mut st, SYS_WRITE, [1, 0x8000, 5, 0, 0, 0], &vec![]), Outcome::Done(5, vec![]));
    assert_eq!(io(&mut st, SYS_WRITE, [2, 0x8000, 7, 0, 0, 0], &vec![]), Outcome::Done(7, vec![]));
    assert_eq!(io(&mut st, SYS_READ, [0, 0x8000, 7, 0, 0, 0], &vec![]), Outcome::Done(0, vec![]));
    assert_eq!(io(&mut st, SYS_WRITE, [5, 0x8000, 7, 0, 0, 0], &vec![]), Outcome::Done(EBADF, vec![]));
    assert_eq!(io(&mut st, SYS_WRITE, [u32::MAX as u64, 0x8000, 7, 0, 0, 0], &vec![]), Outcome::Done(EBADF, vec![]));
}

#[test]
fn close_then_read_is_bad_descriptor() {
    let mut st = state();
    open_apk(&mut st);
    assert_eq!(io(&mut st, SYS_CLOSE, [10, 0, 0, 0, 0, 0], &vec![]), Outcome::Done(0, vec![]));
    assert_eq!(io(&mut st, SYS_READ, [10, 0x7000, 16, 0, 0, 0], &vec![]), Outcome::Done(EBADF, vec![]));
    assert_eq!(io(&mut st, SYS_CLOSE, [256, 0, 0, 0, 0, 0], &vec![]), Outcome::Done(EBADF, vec![]));
    assert_eq!(io(&mut st, SYS_CLOSE, [1, 0, 0, 0, 0, 0], &vec![]), Outcome::Done(0, vec![]));
}

#[test]
fn fstat_reports_a_regular_file() {
    let mut st = state();
    open_apk(&mut st);
    let want = word_stores(0x9000, &[0x1_0001, 10 + 0x1000, 0o100644, 1, 10000, 10000, 0, 4096, 4096, 8]);
    assert_eq!(io(&mut st, SYS_FSTAT, [10, 0x9000, 0, 0, 0, 0], &vec![]), Outcome::Done(0, want.clone()));
    assert_eq!(io(&mut st, SYS_NEWFSTATAT, [10, 0, 0x9000, 0, 0, 0], &vec![]), Outcome::Done(0, want));
    assert_eq!(io(&mut st, SYS_FSTAT, [10, 0, 0, 0, 0, 0], &vec![]), Outcome::Done(EFAULT, vec![]));
    assert_eq!(io(&mut st, SYS_FSTAT, [999, 0x9000, 0, 0, 0, 0], &vec![]), Outcome::Done(EBADF, vec![]));
}

#[test]
fn pipe2_hands_out_one_descriptor_twice() {
    let mut st = state();
    assert_eq!(
        io(&mut st, SYS_PIPE2, [0xA000, 0, 0, 0, 0, 0], &vec![]),
        Outcome::Done(0, vec![
            UserEffect::Int32 { addr: 0xA000, value: 10 },
            UserEffect::Int32 { addr: 0xA004, value: 10 },
        ])
    );
    assert_eq!(st.fds[10].kind, FdKind::PipeWrite);
}

#[test]
fn readlink_of_self_exe() {
    let mut st = state();
    assert_eq!(
        io(&mut st, SYS_READLINKAT, [AT_FDCWD, 0x6000, 0xB000, 10, 0, 0], &vec![]),
        Outcome::NeedRead(UserRead::CString { addr: 0x6000, max: 4096 })
    );
    assert_eq!(
        io(&mut st, SYS_READLINKAT, [AT_FDCWD, 0x6000, 0xB000, 10, 0, 0], &bytes("/proc/self/exe")),
        Outcome::Done(10, byte_stores(0xB000, b"/system/bi"))
    );
    assert_eq!(
        io(&mut st, SYS_READLINKAT, [AT_FDCWD, 0x6000, 0xB000, 100, 0, 0], &bytes("/proc/self/exe")),
        Outcome::Done(25, byte_stores(0xB000, b"/system/bin/app_process64"))
    );
    assert_eq!(
        io(&mut st, SYS_READLINKAT, [AT_FDCWD, 0x6000, 0xB000, 100, 0, 0], &bytes("/proc/self/cwd")),
        Outcome::Done(EINVAL, vec![])
    );
}

#[test]
fn statfs_fcntl_ioctl_answers() {
    let mut st = state();
    assert_eq!(
        io(&mut st, SYS_STATFS, [0x6000, 0xC000, 0, 0, 0, 0], &vec![]),
        Outcome::Done(0, word_stores(0xC000, &[0xEF53, 4096, 1 << 20, 1 << 19, 1 << 19]))
    );
    assert_eq!(io(&mut st, SYS_STATFS, [0x6000, 0, 0, 0, 0, 0], &vec![]), Outcome::Done(EFAULT, vec![]));
    assert_eq!(io(&mut st, SYS_FCNTL, [5, 0, 0, 0, 0, 0], &vec![]), Outcome::Done(5, vec![]));
    assert_eq!(io(&mut st, SYS_FCNTL, [5, 4, 0, 0, 0, 0], &vec![]), Outcome::Done(2, vec![]));
    assert_eq!(io(&mut st, SYS_FCNTL, [5, 2, 0, 0, 0, 0], &vec![]), Outcome::Done(0, vec![]));
    assert_eq!(io(&mut st, SYS_IOCTL, [5, 0x7704, 0, 0, 0, 0], &vec![]), Outcome::Done(4 << 20, vec![]));
    assert_eq!(io(&mut st, SYS_IOCTL, [5, 0x4008_7703, 0, 0, 0, 0], &vec![]), Outcome::Done(0, vec![]));
    assert_eq!(io(&mut st, SYS_GETDENTS64, [5, 0, 0, 0, 0, 0], &vec![]), Outcome::Done(EBADF, vec![]));
}

#[test]
fn vectored_read_and_write() {
    let mut st = state();
    open_apk(&mut st);
    let iovs = vec![UserData::IoVecs(vec![IoVec { base: 0x100, len: 4 }, IoVec { base: 0x200, len: 6 }])];
    assert_eq!(
        io(&mut st, SYS_READV, [10, 0xD000, 2, 0, 0, 0], &vec![]),
        Outcome::NeedRead(UserRead::IoVecs { addr: 0xD000, count: 2 })
    );
    assert_eq!(
        io(&mut st, SYS_READV, [10, 0xD000, 2, 0, 0, 0], &iovs),
        Outcome::Done(10, vec![
            UserEffect::CopyBytes { dst: 0x100, src: POOL, len: 4 },
            UserEffect::CopyBytes { dst: 0x200, src: POOL + 4, len: 6 },
        ])
    );
    assert_eq!(
        io(&mut st, SYS_WRITEV, [10, 0xD000, 2, 0, 0, 0], &iovs),
        Outcome::Done(10, vec![
            UserEffect::CopyBytes { dst: POOL + 10, src: 0x100, len: 4 },
            UserEffect::CopyBytes { dst: POOL + 14, src: 0x200, len: 6 },
        ])
    );
    assert_eq!(io(&mut st, SYS_READV, [50, 0xD000, 2, 0, 0, 0], &iovs), Outcome::Done(EBADF, vec![]));
}

#[test]
fn dup3_copies_an_entry() {
    let mut st = state();
    open_apk(&mut st);
    assert_eq!(io(&mut st, SYS_DUP3, [10, 40, 0, 0, 0, 0], &vec![]), Outcome::Done(40, vec![]));
    assert_eq!(st.fds[40], st.fds[10]);
    assert_eq!(io(&mut st, SYS_DUP3, [10, 400, 0, 0, 0, 0], &vec![]), Outcome::Done(EBADF, vec![]));
}

#[test]
fn storage_needs_an_app() {
    let mut st = CompatState::new(POOL);
    assert_eq!(open_apk(&mut st), Outcome::Done(EPERM, vec![]));
    assert_eq!(io(&mut st, SYS_READ, [0, 0, 0, 0, 0, 0], &vec![]), Outcome::Done(EPERM, vec![]));
}

#[test]
fn ftruncate_from_the_io_bridge() {
    let mut st = state();
    assert_eq!(ftruncate(&mut st, 20, 5), 0);
    assert_eq!(st.fds[20].size, 5);
    assert_eq!(ftruncate(&mut st, -1, 5), EBADF);
}

#[test]
fn unknown_io_syscall_is_invalid() {
    let mut st = state();
    assert_eq!(io(&mut st, 9999, [0; 6], &vec![]), Outcome::Done(EINVAL, vec![]));
}

#[test]
fn law_dex_header_read_back_holds() {
    let mut st = state();
    match io(&mut st, SYS_OPENAT, [0xFFFF_FF9C, 0x100, 0, 0, 0, 0], &bytes("/data/app/classes.dex")) {
        Outcome::Done(10, eff) => assert_eq!(eff[..8].to_vec(), byte_stores(POOL, b"dex\n035\0")),
        other => panic!("{:?}", other),
    }
    assert_eq!(
        io(&mut st, SYS_READ, [10, 0x800, 8, 0, 0, 0], &vec![]),
        Outcome::Done(8, vec![UserEffect::CopyBytes { dst: 0x800, src: POOL, len: 8 }])
    );
    assert_eq!(st.fds[10].offset, 8);
    match io(&mut st, SYS_READ, [10, 0x900, 4096, 0, 0, 0], &vec![]) {
        Outcome::Done(n, _) => assert_eq!(n, 4088),
        other => panic!("{:?}", other),
    }
}
