//! The boundary between the syscall handlers and the calling process's memory.
//!
//! Handlers never touch raw memory. A handler that needs to look at memory
//! answers `Outcome::NeedRead` with the read it wants; the caller performs the
//! read, appends the data to the input list and calls the handler again with the
//! same arguments. Once every read is answered, the handler answers
//! `Outcome::Done` with the return value and the ordered list of memory effects
//! the caller must perform.
use vstd::prelude::*;

verus! {

/// A read of the calling process's memory.
#[derive(Clone, Copy, PartialEq, Eq, Debug)]
pub enum UserRead {
    /// The bytes of a NUL-terminated string, without the NUL, at most `max` of them.
    CString { addr: u64, max: u64 },
    /// Exactly `len` bytes.
    Bytes { addr: u64, len: u64 },
    /// Exactly `count` 64-bit words.
    Words { addr: u64, count: u64 },
    /// Exactly `count` `struct iovec` records.
    IoVecs { addr: u64, count: u64 },
    /// One 32-bit signed integer.
    Int32 { addr: u64 },
}

/// One `struct iovec { void *iov_base; size_t iov_len; }`.
#[derive(Clone, Copy, PartialEq, Eq, Debug)]
pub struct IoVec {
    pub base: u64,
    pub len: u64,
}

/// The answer to a `UserRead`.
#[derive(Clone, PartialEq, Eq, Debug)]
pub enum UserData {
    Bytes(Vec<u8>),
    Words(Vec<u64>),
    IoVecs(Vec<IoVec>),
    Int32(i32),
}

/// A memory effect, performed by the caller in list order.
#[derive(Clone, Copy, PartialEq, Eq, Debug)]
pub enum UserEffect {
    /// Store one byte.
    Byte { addr: u64, value: u8 },
    /// Store one 16-bit word.
    Half { addr: u64, value: u16 },
    /// Store one unsigned 32-bit word.
    Word32 { addr: u64, value: u32 },
    /// Store one signed 32-bit word.
    Int32 { addr: u64, value: i32 },
    /// Store one 64-bit word.
    Word { addr: u64, value: u64 },
    /// Copy `len` bytes from `src` to `dst`.
    CopyBytes { dst: u64, src: u64, len: u64 },
    /// Store `value` in `len` bytes starting at `dst`.
    Fill { dst: u64, len: u64, value: u8 },
    /// Busy-wait for `count` no-op instructions.
    Spin { count: u64 },
    /// Print one byte on the kernel console (the UART).
    Console { value: u8 },
}

/// The console effects that print `bytes`, one byte each, in order.
pub open spec fn uart_effects(bytes: Seq<u8>) -> Seq<UserEffect> {
    Seq::new(bytes.len(), |i: int| UserEffect::Console { value: bytes[i] })
}

/// Printing two runs of bytes one after the other prints their concatenation.
pub proof fn lemma_uart_effects_concat(a: Seq<u8>, b: Seq<u8>)
    ensures
        uart_effects(a) + uart_effects(b) == uart_effects(a + b),
{
    assert(uart_effects(a) + uart_effects(b) =~= uart_effects(a + b));
}

/// What a handler answers.
#[derive(Clone, PartialEq, Eq, Debug)]
pub enum Outcome {
    /// The handler needs this read first; nothing has changed.
    NeedRead(UserRead),
    /// The syscall completed with this return value and these effects.
    Done(i64, Vec<UserEffect>),
    /// The calling thread never returns (exit, or a halted core).
    Halt,
}

/// The mathematical value of an `Outcome`.
pub enum Reply {
    NeedRead(UserRead),
    Done(i64, Seq<UserEffect>),
    Halt,
}

impl View for Outcome {
    type V = Reply;

    open spec fn view(&self) -> Reply {
        match self {
            Outcome::NeedRead(r) => Reply::NeedRead(*r),
            Outcome::Done(v, e) => Reply::Done(*v, e@),
            Outcome::Halt => Reply::Halt,
        }
    }
}

/// Whether `data` is a well-formed answer to `req`.
pub open spec fn answers(req: UserRead, data: UserData) -> bool {
    match (req, data) {
        (UserRead::CString { addr, max }, UserData::Bytes(b)) =>
            b@.len() <= max && forall|i: int| 0 <= i < b@.len() ==> b@[i] != 0u8,
        (UserRead::Bytes { addr, len }, UserData::Bytes(b)) => b@.len() == len,
        (UserRead::Words { addr, count }, UserData::Words(w)) => w@.len() == count,
        (UserRead::IoVecs { addr, count }, UserData::IoVecs(v)) => v@.len() == count,
        (UserRead::Int32 { addr }, UserData::Int32(_)) => true,
        _ => false,
    }
}

/// Whether entry `k` of the input list answers `req`.
pub open spec fn answered_at(input: Seq<UserData>, k: int, req: UserRead) -> bool {
    0 <= k < input.len() && answers(req, input[k])
}

pub open spec fn bytes_of(d: UserData) -> Seq<u8> {
    match d {
        UserData::Bytes(b) => b@,
        _ => Seq::empty(),
    }
}

pub open spec fn words_of(d: UserData) -> Seq<u64> {
    match d {
        UserData::Words(w) => w@,
        _ => Seq::empty(),
    }
}

pub open spec fn iovecs_of(d: UserData) -> Seq<IoVec> {
    match d {
        UserData::IoVecs(v) => v@,
        _ => Seq::empty(),
    }
}

pub open spec fn int_of(d: UserData) -> i32 {
    match d {
        UserData::Int32(v) => v,
        _ => 0,
    }
}

/// Tests whether entry `k` of `input` answers `req`.
pub fn answered(input: &Vec<UserData>, k: usize, req: UserRead) -> (b: bool)
    ensures
        b == answered_at(input@, k as int, req),
{
    if k >= input.len() {
        return false;
    }
    match (req, &input[k]) {
        (UserRead::CString { addr, max }, UserData::Bytes(b)) => {
            if b.len() as u64 > max {
                return false;
            }
            no_nul(b)
        },
        (UserRead::Bytes { addr, len }, UserData::Bytes(b)) => b.len() as u64 == len,
        (UserRead::Words { addr, count }, UserData::Words(w)) => w.len() as u64 == count,
        (UserRead::IoVecs { addr, count }, UserData::IoVecs(v)) => v.len() as u64 == count,
        (UserRead::Int32 { addr }, UserData::Int32(_)) => true,
        _ => false,
    }
}

/// Stores of consecutive 64-bit words, starting at `addr`.
pub open spec fn word_effects(addr: u64, ws: Seq<u64>) -> Seq<UserEffect> {
    Seq::new(ws.len(), |i: int| UserEffect::Word {
        addr: vstd::wrapping::u64_specs::wrapping_add(addr, (8 * i) as u64),
        value: ws[i],
    })
}

/// Stores of consecutive bytes, starting at `addr`.
pub open spec fn byte_effects(addr: u64, bs: Seq<u8>) -> Seq<UserEffect> {
    Seq::new(bs.len(), |i: int| UserEffect::Byte {
        addr: vstd::wrapping::u64_specs::wrapping_add(addr, i as u64),
        value: bs[i],
    })
}

/// Appends the stores of `ws` at `addr`.
pub fn push_words(eff: &mut Vec<UserEffect>, addr: u64, ws: &Vec<u64>)
    requires
        ws@.len() <= 0x1000,
    ensures
        final(eff)@ == old(eff)@ + word_effects(addr, ws@),
{
    let mut i: usize = 0;
    while i < ws.len()
        invariant
            i <= ws@.len() <= 0x1000,
            eff@ == old(eff)@ + word_effects(addr, ws@.take(i as int)),
        decreases ws@.len() - i,
    {
        let a = addr.wrapping_add(8 * (i as u64));
        eff.push(UserEffect::Word { addr: a, value: ws[i] });
        i = i + 1;
        proof {
            assert(word_effects(addr, ws@.take(i as int)) =~= word_effects(addr, ws@.take(i - 1)).push(
                UserEffect::Word { addr: a, value: ws@[i - 1] }));
        }
    }
    proof {
        assert(ws@.take(i as int) =~= ws@);
    }
}

/// Appends the stores of `bs` at `addr`.
pub fn push_bytes(eff: &mut Vec<UserEffect>, addr: u64, bs: &Vec<u8>)
    ensures
        final(eff)@ == old(eff)@ + byte_effects(addr, bs@),
{
    let mut i: usize = 0;
    while i < bs.len()
        invariant
            i <= bs@.len(),
            eff@ == old(eff)@ + byte_effects(addr, bs@.take(i as int)),
        decreases bs@.len() - i,
    {
        let a = addr.wrapping_add(i as u64);
        eff.push(UserEffect::Byte { addr: a, value: bs[i] });
        i = i + 1;
        proof {
            assert(byte_effects(addr, bs@.take(i as int)) =~= byte_effects(addr, bs@.take(i - 1)).push(
                UserEffect::Byte { addr: a, value: bs@[i - 1] }));
        }
    }
    proof {
        assert(bs@.take(i as int) =~= bs@);
    }
}

/// Whether no byte of `b` is zero.
fn no_nul(b: &Vec<u8>) -> (r: bool)
    ensures
        r == forall|i: int| 0 <= i < b@.len() ==> b@[i] != 0u8,
{
    let mut i: usize = 0;
    while i < b.len()
        invariant
            i <= b@.len(),
            forall|j: int| 0 <= j < i ==> b@[j] != 0u8,
        decreases b@.len() - i,
    {
        if b[i] == 0 {
            assert(b@[i as int] == 0u8);
            return false;
        }
        i = i + 1;
    }
    true
}

/// Byte `j` of entry `k`.
pub fn byte_at(input: &Vec<UserData>, k: usize, j: usize) -> (v: u8)
    requires
        k < input@.len(),
        j < bytes_of(input@[k as int]).len(),
    ensures
        v == bytes_of(input@[k as int])[j as int],
{
    match &input[k] {
        UserData::Bytes(b) => b[j],
        _ => 0,
    }
}

/// Word `j` of entry `k`.
pub fn word_at(input: &Vec<UserData>, k: usize, j: usize) -> (v: u64)
    requires
        k < input@.len(),
        j < words_of(input@[k as int]).len(),
    ensures
        v == words_of(input@[k as int])[j as int],
{
    match &input[k] {
        UserData::Words(w) => w[j],
        _ => 0,
    }
}

/// Record `j` of entry `k`.
pub fn iovec_at(input: &Vec<UserData>, k: usize, j: usize) -> (v: IoVec)
    requires
        k < input@.len(),
        j < iovecs_of(input@[k as int]).len(),
    ensures
        v == iovecs_of(input@[k as int])[j as int],
{
    match &input[k] {
        UserData::IoVecs(w) => w[j],
        _ => IoVec { base: 0, len: 0 },
    }
}

/// The integer in entry `k`.
pub fn int_at(input: &Vec<UserData>, k: usize) -> (v: i32)
    requires
        k < input@.len(),
    ensures
        v == int_of(input@[k as int]),
{
    match &input[k] {
        UserData::Int32(x) => *x,
        _ => 0,
    }
}

/// The length of entry `k`, in bytes, words or records.
pub fn data_len(input: &Vec<UserData>, k: usize) -> (n: usize)
    requires
        k < input@.len(),
    ensures
        n == match input@[k as int] {
            UserData::Bytes(b) => b@.len(),
            UserData::Words(w) => w@.len(),
            UserData::IoVecs(v) => v@.len(),
            UserData::Int32(_) => 0,
        },
{
    match &input[k] {
        UserData::Bytes(b) => b.len(),
        UserData::Words(w) => w.len(),
        UserData::IoVecs(v) => v.len(),
        UserData::Int32(_) => 0,
    }
}

} // verus!
