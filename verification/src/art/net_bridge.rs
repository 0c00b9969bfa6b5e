//! Network bridge of the kernel build: sockets, `send`, `recv` and `epoll`,
//! refused as a whole while the domain's VPN kill switch is on.
use vstd::prelude::*;
use crate::art::syscall_table::{
    SYS_SOCKET, SYS_SOCKETPAIR, SYS_CONNECT, SYS_BIND, SYS_LISTEN, SYS_ACCEPT, SYS_SENDTO, SYS_RECVFROM,
    SYS_SENDMSG, SYS_RECVMSG, SYS_SETSOCKOPT, SYS_GETSOCKOPT, SYS_GETSOCKNAME, SYS_GETPEERNAME,
    SYS_EPOLL_CREATE1, SYS_EPOLL_CTL, SYS_EPOLL_PWAIT,
};
use crate::socket_table::{
    NetModel, AF_INET, SOCK_STREAM, SO_ERROR, EPOLL_SPIN, socket_spec, socketpair_spec, sendto_spec,
    sendmsg_spec, sockname_effects,
};
use crate::net_bridge::net_state_step;
use crate::art::vpn::{kill_switch_active, vpn_kill_switch_active};
use crate::user_mem::{Outcome, Reply, UserData, UserEffect, UserRead};
use crate::syscall_wrapper::{CompatState, CompatModel, EPERM, EINVAL};

verus! {

/// `connect`: a null address is invalid; every other connection is accepted
/// at once, routed through the domain's VPN.
fn sys_connect(fd: i32, sockaddr: u64, addrlen: u32, domain_id: u32) -> (r: i64)
    ensures
        r == if sockaddr == 0 { EINVAL } else { 0 },
{
    if sockaddr == 0 {
        return EINVAL;
    }
    let _gateway = crate::kernel_stubs::vpn_gateway(domain_id);
    0
}

/// `bind`.
fn sys_bind(fd: i32, sockaddr: u64, addrlen: u32) -> (r: i64)
    ensures
        r == 0,
{
    0
}

/// `listen`.
fn sys_listen(fd: i32, backlog: i32) -> (r: i64)
    ensures
        r == 0,
{
    0
}

/// `accept`: a new stream socket.
fn sys_accept(st: &mut CompatState, fd: i32, addr: u64, addrlen: u64) -> (r: i64)
    requires
        old(st)@.wf(),
    ensures
        final(st)@.wf(),
        (final(st)@.net, r) == socket_spec(old(st)@.net, AF_INET, SOCK_STREAM, 0),
        final(st)@ == (CompatModel { net: final(st)@.net, ..old(st)@ }),
{
    crate::socket_table::sys_socket(&mut st.net, AF_INET, SOCK_STREAM, 0)
}

/// `recvfrom`: nothing ever arrives.
fn sys_recvfrom(fd: i32, buf: u64, len: u64, flags: i32, src_addr: u64, addrlen: u64) -> (r: i64)
    ensures
        r == 0,
{
    0
}

/// `recvmsg`: nothing ever arrives.
fn sys_recvmsg(fd: i32, msg: u64, flags: i32) -> (r: i64)
    ensures
        r == 0,
{
    0
}

/// What `getsockopt(fd, level, optname, optval)` does: a null `optval` is
/// invalid; `SO_ERROR` reports no pending error.
pub open spec fn getsockopt_step(optname: i32, optval: u64) -> (i64, Seq<UserEffect>) {
    if optval == 0 {
        (EINVAL, seq![])
    } else if optname == SO_ERROR {
        (0, seq![UserEffect::Int32 { addr: optval, value: 0 }])
    } else {
        (0, seq![])
    }
}

fn sys_getsockopt(fd: i32, level: i32, optname: i32, optval: u64, optlen: u64, eff: &mut Vec<UserEffect>) -> (r: i64)
    ensures
        (r, final(eff)@) == {
            let x = getsockopt_step(optname, optval);
            (x.0, old(eff)@ + x.1)
        },
{
    if optval == 0 {
        proof { assert(eff@ =~= old(eff)@ + seq![]); }
        return EINVAL;
    }
    if optname == SO_ERROR {
        eff.push(UserEffect::Int32 { addr: optval, value: 0 });
    }
    proof { assert(eff@ =~= old(eff)@ + getsockopt_step(optname, optval).1); }
    0
}

/// What the network bridge does with syscall `nr`: nothing at all while the
/// kill switch is on; connecting, binding, listening and receiving succeed
/// without traffic; sending hands every frame to the device.
pub open spec fn net_step(s: CompatModel, nr: u64, a0: u64, a1: u64, a2: u64, a3: u64, a4: u64, a5: u64, input: Seq<UserData>)
    -> (CompatModel, Reply)
{
    if kill_switch_active(s.vpn, s.domain_id) {
        (s, Reply::Done(EPERM, seq![]))
    } else if nr == SYS_SOCKET {
        let x = socket_spec(s.net, a0 as i32, a1 as i32, a2 as i32);
        net_state_step(s, (x.0, x.1, seq![]))
    } else if nr == SYS_SOCKETPAIR {
        net_state_step(s, socketpair_spec(s.net, a0 as i32, a1 as i32, a2 as i32, a3, false))
    } else if nr == SYS_CONNECT {
        (s, Reply::Done(if a1 == 0 { EINVAL } else { 0 }, seq![]))
    } else if nr == SYS_ACCEPT {
        let x = socket_spec(s.net, AF_INET, SOCK_STREAM, 0);
        net_state_step(s, (x.0, x.1, seq![]))
    } else if nr == SYS_SENDTO {
        match sendto_spec(a1, a2, input, 0) {
            Err(q) => (s, Reply::NeedRead(q)),
            Ok(v) => (s, Reply::Done(v, seq![])),
        }
    } else if nr == SYS_SENDMSG {
        match sendmsg_spec(a1, input, 0) {
            Err(q) => (s, Reply::NeedRead(q)),
            Ok(v) => (s, Reply::Done(v, seq![])),
        }
    } else if nr == SYS_GETSOCKOPT {
        (s, Reply::Done(getsockopt_step(a2 as i32, a3).0, getsockopt_step(a2 as i32, a3).1))
    } else if nr == SYS_GETSOCKNAME || nr == SYS_GETPEERNAME {
        if a1 == 0 {
            (s, Reply::Done(EINVAL, seq![]))
        } else {
            (s, Reply::Done(0, sockname_effects(a1, a2)))
        }
    } else if nr == SYS_EPOLL_CREATE1 {
        (
            CompatModel {
                net: NetModel { next_epfd: vstd::wrapping::i32_specs::wrapping_add(s.net.next_epfd, 1), ..s.net },
                ..s
            },
            Reply::Done(s.net.next_epfd as i64, seq![]),
        )
    } else if nr == SYS_EPOLL_PWAIT {
        (s, Reply::Done(0, if a3 as i32 == 0 { seq![] } else { seq![UserEffect::Spin { count: EPOLL_SPIN }] }))
    } else if nr == SYS_BIND || nr == SYS_LISTEN || nr == SYS_RECVFROM || nr == SYS_RECVMSG
        || nr == SYS_SETSOCKOPT || nr == SYS_EPOLL_CTL {
        (s, Reply::Done(0, seq![]))
    } else {
        (s, Reply::Done(EINVAL, seq![]))
    }
}

/// Answers a network syscall.
pub fn handle(st: &mut CompatState, nr: u64, a0: u64, a1: u64, a2: u64, a3: u64, a4: u64, a5: u64, input: &Vec<UserData>)
    -> (out: Outcome)
    requires
        old(st)@.wf(),
    ensures
        final(st)@.wf(),
        (final(st)@, out@) == net_step(old(st)@, nr, a0, a1, a2, a3, a4, a5, input@),
{
    let domain_id = crate::syscall_wrapper::current_domain_id(st);
    if vpn_kill_switch_active(&st.vpn, domain_id) {
        return Outcome::Done(EPERM, Vec::new());
    }
    let fd = a0 as i32;
    let mut eff: Vec<UserEffect> = Vec::new();
    let r: Result<i64, UserRead> = match nr {
        SYS_SOCKET => Ok(crate::socket_table::sys_socket(&mut st.net, a0 as i32, a1 as i32, a2 as i32)),
        SYS_SOCKETPAIR => Ok(crate::socket_table::sys_socketpair(&mut st.net, a0 as i32, a1 as i32, a2 as i32, a3, false, &mut eff)),
        SYS_CONNECT => Ok(sys_connect(fd, a1, a2 as u32, domain_id)),
        SYS_BIND => Ok(sys_bind(fd, a1, a2 as u32)),
        SYS_LISTEN => Ok(sys_listen(fd, a1 as i32)),
        SYS_ACCEPT => Ok(sys_accept(st, fd, a1, a2)),
        SYS_SENDTO => crate::socket_table::sys_sendto(a1, a2, input, 0),
        SYS_RECVFROM => Ok(sys_recvfrom(fd, a1, a2, a3 as i32, a4, a5)),
        SYS_SENDMSG => crate::socket_table::sys_sendmsg(a1, input, 0),
        SYS_RECVMSG => Ok(sys_recvmsg(fd, a1, a2 as i32)),
        SYS_SETSOCKOPT => Ok(0),
        SYS_GETSOCKOPT => Ok(sys_getsockopt(fd, a1 as i32, a2 as i32, a3, a4, &mut eff)),
        SYS_GETSOCKNAME => Ok(crate::socket_table::sys_getsockname(a1, a2, &mut eff)),
        SYS_GETPEERNAME => Ok(crate::socket_table::sys_getsockname(a1, a2, &mut eff)),
        SYS_EPOLL_CREATE1 => Ok(crate::socket_table::sys_epoll_create1(&mut st.net)),
        SYS_EPOLL_CTL => Ok(0),
        SYS_EPOLL_PWAIT => Ok(crate::socket_table::sys_epoll_pwait(a3 as i32, &mut eff)),
        _ => Ok(EINVAL),
    };
    proof { assert(eff@ =~= seq![] + eff@); }
    match r {
        Ok(v) => Outcome::Done(v, eff),
        Err(q) => Outcome::NeedRead(q),
    }
}

/// While the VPN kill switch of the app's domain is on, every network call
/// is refused and nothing changes: no descriptor is used up and nothing is
/// sent, so once the switch is off again the next call goes as it would have.
pub proof fn law_kill_switch_blocks_network(s: CompatModel, nr: u64, a0: u64, a1: u64, a2: u64, a3: u64, a4: u64, a5: u64, input: Seq<UserData>)
    requires
        kill_switch_active(s.vpn, s.domain_id),
    ensures
        net_step(s, nr, a0, a1, a2, a3, a4, a5, input) == (s, Reply::Done(EPERM, seq![])),
{
}

} // verus!
