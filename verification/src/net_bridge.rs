//! Network bridge: sockets, `send`, `recv` and `epoll`, refused as a whole
//! while the domain's VPN kill switch is on (which the compatibility VPN
//! never reports).
use vstd::prelude::*;
use crate::art::syscall_table::{
    SYS_SOCKET, SYS_SOCKETPAIR, SYS_CONNECT, SYS_BIND, SYS_LISTEN, SYS_ACCEPT, SYS_SENDTO, SYS_RECVFROM,
    SYS_SENDMSG, SYS_RECVMSG, SYS_SETSOCKOPT, SYS_GETSOCKOPT, SYS_GETSOCKNAME, SYS_GETPEERNAME,
    SYS_EPOLL_CREATE1, SYS_EPOLL_CTL, SYS_EPOLL_PWAIT,
};
use crate::socket_table::{
    NetModel, AF_INET, SOCK_STREAM, SO_ERROR, EPOLL_SPIN, socket_spec, socketpair_spec, sendto_spec,
    sendmsg_spec, sockname_effects,
};
use crate::kernel_stubs::{kill_switch_active, vpn_kill_switch_active};
use crate::user_mem::{Outcome, Reply, UserData, UserEffect, UserRead};
use crate::syscall_wrapper::{CompatState, CompatModel, EPERM, EINVAL};

verus! {

/// What `getsockopt(fd, _, optname, optval)` reports: no pending error for
/// `SO_ERROR`; every option succeeds.
pub open spec fn getsockopt_effects(optname: i32, optval: u64) -> Seq<UserEffect> {
    if optval != 0 && optname == SO_ERROR {
        seq![UserEffect::Int32 { addr: optval, value: 0 }]
    } else {
        seq![]
    }
}

fn sys_getsockopt(fd: i32, optname: i32, optval: u64, optlen: u64, eff: &mut Vec<UserEffect>) -> (r: i64)
    ensures
        r == 0,
        final(eff)@ == old(eff)@ + getsockopt_effects(optname, optval),
{
    if optval != 0 && optname == SO_ERROR {
        eff.push(UserEffect::Int32 { addr: optval, value: 0 });
    }
    proof { assert(eff@ =~= old(eff)@ + getsockopt_effects(optname, optval)); }
    0
}

/// A step that leaves everything but the socket state as it is.
pub open spec fn net_state_step(s: CompatModel, x: (NetModel, i64, Seq<UserEffect>)) -> (CompatModel, Reply) {
    (CompatModel { net: x.0, ..s }, Reply::Done(x.1, x.2))
}

/// What the network bridge does with syscall `nr`: nothing at all while the
/// kill switch is on (never, with the compatibility VPN); connecting, binding, listening and receiving succeed
/// without traffic; sending hands every frame to the device.
pub open spec fn net_step(s: CompatModel, nr: u64, a0: u64, a1: u64, a2: u64, a3: u64, a4: u64, a5: u64, input: Seq<UserData>)
    -> (CompatModel, Reply)
{
    if kill_switch_active(s.domain_id) {
        (s, Reply::Done(EPERM, seq![]))
    } else if nr == SYS_SOCKET {
        let x = socket_spec(s.net, a0 as i32, a1 as i32, a2 as i32);
        net_state_step(s, (x.0, x.1, seq![]))
    } else if nr == SYS_SOCKETPAIR {
        net_state_step(s, socketpair_spec(s.net, a0 as i32, a1 as i32, a2 as i32, a3, true))
    } else if nr == SYS_ACCEPT {
        let x = socket_spec(s.net, AF_INET, SOCK_STREAM, 0);
        net_state_step(s, (x.0, x.1, seq![]))
    } else if nr == SYS_SENDTO {
        match sendto_spec(a1, a2, input, 0) {
            Err(q) => (s, Reply::NeedRead(q)),
            Ok(v) => (s, Reply::Done(v, seq![])),
        }
    } else if nr == SYS_SENDMSG {
        match sendmsg_spec(a1, input, 0) {
            Err(q) => (s, Reply::NeedRead(q)),
            Ok(v) => (s, Reply::Done(v, seq![])),
        }
    } else if nr == SYS_GETSOCKOPT {
        (s, Reply::Done(0, getsockopt_effects(a2 as i32, a3)))
    } else if nr == SYS_GETSOCKNAME || nr == SYS_GETPEERNAME {
        if a1 == 0 {
            (s, Reply::Done(EINVAL, seq![]))
        } else {
            (s, Reply::Done(0, sockname_effects(a1, a2)))
        }
    } else if nr == SYS_EPOLL_CREATE1 {
        (
            CompatModel {
                net: NetModel { next_epfd: vstd::wrapping::i32_specs::wrapping_add(s.net.next_epfd, 1), ..s.net },
                ..s
            },
            Reply::Done(s.net.next_epfd as i64, seq![]),
        )
    } else if nr == SYS_EPOLL_PWAIT {
        (s, Reply::Done(0, if a3 as i32 == 0 { seq![] } else { seq![UserEffect::Spin { count: EPOLL_SPIN }] }))
    } else if nr == SYS_CONNECT || nr == SYS_BIND || nr == SYS_LISTEN || nr == SYS_RECVFROM || nr == SYS_RECVMSG
        || nr == SYS_SETSOCKOPT || nr == SYS_EPOLL_CTL {
        (s, Reply::Done(0, seq![]))
    } else {
        (s, Reply::Done(EINVAL, seq![]))
    }
}

/// Answers a network syscall.
pub fn handle(st: &mut CompatState, nr: u64, a0: u64, a1: u64, a2: u64, a3: u64, a4: u64, a5: u64, input: &Vec<UserData>)
    -> (out: Outcome)
    requires
        old(st)@.wf(),
    ensures
        final(st)@.wf(),
        (final(st)@, out@) == net_step(old(st)@, nr, a0, a1, a2, a3, a4, a5, input@),
{
    let domain_id = crate::syscall_wrapper::current_domain_id(st);
    if vpn_kill_switch_active(domain_id) {
        return Outcome::Done(EPERM, Vec::new());
    }
    let mut eff: Vec<UserEffect> = Vec::new();
    let r: Result<i64, UserRead> = match nr {
        SYS_SOCKET => Ok(crate::socket_table::sys_socket(&mut st.net, a0 as i32, a1 as i32, a2 as i32)),
        SYS_SOCKETPAIR => Ok(crate::socket_table::sys_socketpair(&mut st.net, a0 as i32, a1 as i32, a2 as i32, a3, true, &mut eff)),
        SYS_CONNECT => Ok(0),
        SYS_BIND => Ok(0),
        SYS_LISTEN => Ok(0),
        SYS_ACCEPT => Ok(crate::socket_table::sys_socket(&mut st.net, AF_INET, SOCK_STREAM, 0)),
        SYS_SENDTO => crate::socket_table::sys_sendto(a1, a2, input, 0),
        SYS_RECVFROM => Ok(0),
        SYS_SENDMSG => crate::socket_table::sys_sendmsg(a1, input, 0),
        SYS_RECVMSG => Ok(0),
        SYS_SETSOCKOPT => Ok(0),
        SYS_GETSOCKOPT => Ok(sys_getsockopt(a0 as i32, a2 as i32, a3, a4, &mut eff)),
        SYS_GETSOCKNAME => Ok(crate::socket_table::sys_getsockname(a1, a2, &mut eff)),
        SYS_GETPEERNAME => Ok(crate::socket_table::sys_getsockname(a1, a2, &mut eff)),
        SYS_EPOLL_CREATE1 => Ok(crate::socket_table::sys_epoll_create1(&mut st.net)),
        SYS_EPOLL_CTL => Ok(0),
        SYS_EPOLL_PWAIT => Ok(crate::socket_table::sys_epoll_pwait(a3 as i32, &mut eff)),
        _ => Ok(EINVAL),
    };
    proof { assert(eff@ =~= seq![] + eff@); }
    match r {
        Ok(v) => Outcome::Done(v, eff),
        Err(q) => Outcome::NeedRead(q),
    }
}

} // verus!
