//! Sockets: the table that `socket` fills, and the network operations both
//! network bridges share.
use vstd::prelude::*;
use crate::search::first_where;
use crate::pool::wadd;
use crate::user_mem::{UserData, UserEffect, UserRead, answered, answered_at, iovec_at, iovecs_of, word_at, words_of, IoVec};
use crate::syscall_wrapper::EINVAL;

verus! {

/// Number of slots in the socket table.
pub const MAX_SOCKS: usize = 64;
/// First descriptor that `socket` hands out.
pub const FIRST_SOCK: i32 = 700;
/// First descriptor that `epoll_create1` hands out.
pub const FIRST_EPFD: i32 = 800;
/// `AF_INET`.
pub const AF_INET: i32 = 2;
/// `SOCK_STREAM`.
pub const SOCK_STREAM: i32 = 1;
/// `SO_ERROR`.
pub const SO_ERROR: i32 = 4;
/// No-op instructions a waiting `epoll_pwait` spins for.
pub const EPOLL_SPIN: u64 = 1000;

/// A socket.
#[derive(Clone, Copy, PartialEq, Eq, Debug)]
pub struct SockEntry {
    pub fd: i32,
    pub domain: i32,
    pub stype: i32,
    pub protocol: i32,
    pub valid: bool,
}

impl SockEntry {
    /// A free slot.
    pub fn empty() -> (e: SockEntry)
        ensures
            e == SockEntry::spec_empty(),
    {
        SockEntry { fd: 0, domain: 0, stype: 0, protocol: 0, valid: false }
    }

    pub open spec fn spec_empty() -> SockEntry {
        SockEntry { fd: 0, domain: 0, stype: 0, protocol: 0, valid: false }
    }
}

pub struct NetState {
    pub socks: Vec<SockEntry>,
    pub next_sock: i32,
    pub next_epfd: i32,
}

/// The mathematical value of a `NetState`.
pub struct NetModel {
    pub socks: Seq<SockEntry>,
    pub next_sock: i32,
    pub next_epfd: i32,
}

impl View for NetState {
    type V = NetModel;

    open spec fn view(&self) -> NetModel {
        NetModel { socks: self.socks@, next_sock: self.next_sock, next_epfd: self.next_epfd }
    }
}

impl NetModel {
    pub open spec fn wf(self) -> bool {
        self.socks.len() == MAX_SOCKS
    }
}

/// A free slot of the socket table.
pub open spec fn sock_free() -> spec_fn(SockEntry) -> bool {
    |e: SockEntry| !e.valid
}

/// What `socket(domain, stype, protocol)` does: the next descriptor of the
/// socket counter, recorded in the first free slot when there is one.
pub open spec fn socket_spec(n: NetModel, domain: i32, stype: i32, protocol: i32) -> (NetModel, i64) {
    let fd = n.next_sock;
    let e = SockEntry { fd, domain, stype, protocol, valid: true };
    let i = first_where(n.socks, sock_free(), 0);
    (
        NetModel {
            socks: if i < n.socks.len() { n.socks.update(i, e) } else { n.socks },
            next_sock: vstd::wrapping::i32_specs::wrapping_add(fd, 1),
            ..n
        },
        fd as i64,
    )
}

/// `socket`.
pub fn sys_socket(ns: &mut NetState, domain: i32, stype: i32, protocol: i32) -> (r: i64)
    requires
        old(ns)@.wf(),
    ensures
        final(ns)@.wf(),
        (final(ns)@, r) == socket_spec(old(ns)@, domain, stype, protocol),
{
    let fd = ns.next_sock;
    ns.next_sock = ns.next_sock.wrapping_add(1);
    let e = SockEntry { fd, domain, stype, protocol, valid: true };
    let ghost p = sock_free();
    let mut i: usize = 0;
    while i < ns.socks.len()
        invariant
            i <= ns.socks@.len(),
            ns.socks@ == old(ns).socks@,
            ns.socks@.len() == MAX_SOCKS,
            ns.next_sock == vstd::wrapping::i32_specs::wrapping_add(fd, 1),
            ns.next_epfd == old(ns).next_epfd,
            fd == old(ns).next_sock,
            e == (SockEntry { fd, domain, stype, protocol, valid: true }),
            p == sock_free(),
            first_where(ns.socks@, p, 0) == first_where(ns.socks@, p, i as int),
        decreases ns.socks@.len() - i,
    {
        if !ns.socks[i].valid {
            assert(first_where(ns.socks@, p, i as int) == i);
            ns.socks.set(i, e);
            return fd as i64;
        }
        i = i + 1;
    }
    fd as i64
}

/// What `sendto(fd, buf, len)` answers once the frame is read: every frame
/// goes out on the device whole, so all `len` bytes are sent.
pub open spec fn sendto_spec(buf: u64, len: u64, input: Seq<UserData>, k: int) -> Result<i64, UserRead> {
    if buf == 0 {
        Ok(EINVAL)
    } else if !answered_at(input, k, UserRead::Bytes { addr: buf, len }) {
        Err(UserRead::Bytes { addr: buf, len })
    } else {
        Ok(len as i64)
    }
}

/// `sendto`, with the frame read from entry `k` of the input and handed to
/// the VirtIO device.
pub fn sys_sendto(buf: u64, len: u64, input: &Vec<UserData>, k: usize) -> (r: Result<i64, UserRead>)
    ensures
        r == sendto_spec(buf, len, input@, k as int),
{
    if buf == 0 {
        return Ok(EINVAL);
    }
    let req = UserRead::Bytes { addr: buf, len };
    if !answered(input, k, req) {
        return Err(req);
    }
    let sent = match &input[k] {
        UserData::Bytes(b) => crate::kernel_stubs::virtio_send_frame(b.as_slice()),
        _ => true,
    };
    if sent {
        Ok(len as i64)
    } else {
        Ok(crate::syscall_wrapper::EPERM)
    }
}

/// The rest of a `sendmsg` from record `i` on, `total` bytes sent so far;
/// the frame of record `i` is entry `k + i` of the input. A record with a null
/// base fails the call; a failure ends it.
pub open spec fn sendmsg_from(iovs: Seq<IoVec>, i: int, total: i64, input: Seq<UserData>, k: int) -> Result<i64, UserRead>
    decreases iovs.len() - i,
{
    if i < 0 || i >= iovs.len() {
        Ok(total)
    } else {
        match sendto_spec(iovs[i].base, iovs[i].len, input, k + i) {
            Err(q) => Err(q),
            Ok(n) => if n < 0 {
                Ok(n)
            } else {
                sendmsg_from(iovs, i + 1, vstd::wrapping::i64_specs::wrapping_add(total, n), input, k)
            },
        }
    }
}

/// What `sendmsg(fd, msg)` answers: the header is entry `k` of the input,
/// its `iovec` array entry `k + 1`, the frames the entries after them.
pub open spec fn sendmsg_spec(msg: u64, input: Seq<UserData>, k: int) -> Result<i64, UserRead> {
    if msg == 0 {
        Ok(EINVAL)
    } else if !answered_at(input, k, UserRead::Words { addr: msg, count: 4 }) {
        Err(UserRead::Words { addr: msg, count: 4 })
    } else {
        let hdr = words_of(input[k]);
        let req = UserRead::IoVecs { addr: hdr[2], count: hdr[3] };
        if !answered_at(input, k + 1, req) {
            Err(req)
        } else {
            sendmsg_from(iovecs_of(input[k + 1]), 0, 0, input, k + 2)
        }
    }
}

/// `sendmsg`.
pub fn sys_sendmsg(msg: u64, input: &Vec<UserData>, k: usize) -> (r: Result<i64, UserRead>)
    requires
        k <= 2,
    ensures
        r == sendmsg_spec(msg, input@, k as int),
{
    if msg == 0 {
        return Ok(EINVAL);
    }
    let hreq = UserRead::Words { addr: msg, count: 4 };
    if !answered(input, k, hreq) {
        return Err(hreq);
    }
    let iov_ptr = word_at(input, k, 2);
    let iov_cnt = word_at(input, k, 3);
    let vreq = UserRead::IoVecs { addr: iov_ptr, count: iov_cnt };
    if !answered(input, k + 1, vreq) {
        return Err(vreq);
    }
    let ghost iovs = iovecs_of(input@[k + 1]);
    let n = crate::user_mem::data_len(input, k + 1);
    let mut total: i64 = 0;
    let mut i: usize = 0;
    while i < n
        invariant
            k <= 2,
            k + 1 < input@.len(),
            iovs == iovecs_of(input@[k + 1]),
            n == iovs.len(),
            i <= n,
            sendmsg_spec(msg, input@, k as int) == sendmsg_from(iovs, i as int, total, input@, k + 2),
        decreases n - i,
    {
        let v = iovec_at(input, k + 1, i);
        if v.base == 0 {
            return Ok(EINVAL);
        }
        if i > usize::MAX - 2 - k {
            assert(input@.len() == input.len());
            return Err(UserRead::Bytes { addr: v.base, len: v.len });
        }
        let r = sys_sendto(v.base, v.len, input, k + 2 + i);
        match r {
            Err(q) => { return Err(q); },
            Ok(c) => {
                if c < 0 {
                    return Ok(c);
                }
                total = total.wrapping_add(c);
            },
        }
        i = i + 1;
    }
    Ok(total)
}

/// The address `getsockname` and `getpeername` report: 0.0.0.0 port 0.
pub open spec fn sockname_effects(addr: u64, addrlen: u64) -> Seq<UserEffect> {
    seq![
        UserEffect::Half { addr, value: AF_INET as u16 },
        UserEffect::Half { addr: wadd(addr, 2), value: 0 },
        UserEffect::Word32 { addr: wadd(addr, 4), value: 0 },
    ] + if addrlen != 0 { seq![UserEffect::Word32 { addr: addrlen, value: 16 }] } else { seq![] }
}

/// `getsockname` and `getpeername`.
pub fn sys_getsockname(addr: u64, addrlen: u64, eff: &mut Vec<UserEffect>) -> (r: i64)
    ensures
        addr == 0 ==> r == EINVAL && final(eff)@ == old(eff)@,
        addr != 0 ==> r == 0 && final(eff)@ == old(eff)@ + sockname_effects(addr, addrlen),
{
    if addr == 0 {
        return EINVAL;
    }
    eff.push(UserEffect::Half { addr, value: 2 });
    eff.push(UserEffect::Half { addr: addr.wrapping_add(2), value: 0 });
    eff.push(UserEffect::Word32 { addr: addr.wrapping_add(4), value: 0 });
    if addrlen != 0 {
        eff.push(UserEffect::Word32 { addr: addrlen, value: 16 });
    }
    proof { assert(eff@ =~= old(eff)@ + sockname_effects(addr, addrlen)); }
    0
}

/// `epoll_create1`: the next descriptor of the epoll counter.
pub fn sys_epoll_create1(ns: &mut NetState) -> (r: i64)
    ensures
        r == old(ns).next_epfd as i64,
        final(ns)@ == (NetModel {
            next_epfd: vstd::wrapping::i32_specs::wrapping_add(old(ns).next_epfd, 1),
            ..old(ns)@
        }),
{
    let fd = ns.next_epfd;
    ns.next_epfd = ns.next_epfd.wrapping_add(1);
    fd as i64
}

/// `epoll_pwait`: no event ever arrives; a call with a timeout spins briefly
/// first.
pub fn sys_epoll_pwait(timeout: i32, eff: &mut Vec<UserEffect>) -> (r: i64)
    ensures
        r == 0,
        timeout == 0 ==> final(eff)@ == old(eff)@,
        timeout != 0 ==> final(eff)@ == old(eff)@.push(UserEffect::Spin { count: EPOLL_SPIN }),
{
    if timeout != 0 {
        eff.push(UserEffect::Spin { count: EPOLL_SPIN });
    }
    0
}

/// What `socketpair(domain, stype, protocol, sv)` does: two sockets, one
/// after the other, whose descriptors are stored at `sv`; a null `sv` is
/// skipped when `skip_null` holds.
pub open spec fn socketpair_spec(n: NetModel, domain: i32, stype: i32, protocol: i32, sv: u64, skip_null: bool)
    -> (NetModel, i64, Seq<UserEffect>)
{
    let (n1, f1) = socket_spec(n, domain, stype, protocol);
    let (n2, f2) = socket_spec(n1, domain, stype, protocol);
    (
        n2,
        0,
        if sv != 0 || !skip_null {
            seq![
                UserEffect::Int32 { addr: sv, value: f1 as i32 },
                UserEffect::Int32 { addr: wadd(sv, 4), value: f2 as i32 },
            ]
        } else {
            seq![]
        },
    )
}

/// `socketpair`.
pub fn sys_socketpair(ns: &mut NetState, domain: i32, stype: i32, protocol: i32, sv: u64, skip_null: bool, eff: &mut Vec<UserEffect>)
    -> (r: i64)
    requires
        old(ns)@.wf(),
    ensures
        final(ns)@.wf(),
        (final(ns)@, r, final(eff)@) == {
            let x = socketpair_spec(old(ns)@, domain, stype, protocol, sv, skip_null);
            (x.0, x.1, old(eff)@ + x.2)
        },
{
    let f1 = sys_socket(ns, domain, stype, protocol) as i32;
    let f2 = sys_socket(ns, domain, stype, protocol) as i32;
    if sv != 0 || !skip_null {
        eff.push(UserEffect::Int32 { addr: sv, value: f1 });
        eff.push(UserEffect::Int32 { addr: sv.wrapping_add(4), value: f2 });
    }
    proof {
        assert(eff@ =~= old(eff)@ + socketpair_spec(old(ns)@, domain, stype, protocol, sv, skip_null).2);
    }
    0
}

} // verus!
