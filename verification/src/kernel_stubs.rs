//! The ZTOS kernel services the layer relies on, in the form the compatibility
//! library ships them: capability checks and revocation, the TEE key counter,
//! the VPN of a domain, the VirtIO network device and the UART.
use vstd::prelude::*;
use vstd::string::StringSliceAdditionalSpecFns;
use crate::user_mem::{UserEffect, uart_effects};

verus! {

pub const CAP_SEND: u32 = 0x0001;
pub const CAP_RECV: u32 = 0x0002;
pub const CAP_READ_STORAGE: u32 = 0x0004;
pub const CAP_WRITE_STORAGE: u32 = 0x0008;
pub const CAP_BINDER_CLIENT: u32 = 0x0010;
pub const CAP_STDOUT_WRITE: u32 = 0x0020;
pub const CAP_GUI_RENDER: u32 = 0x0040;
pub const CAP_TOUCH_READ: u32 = 0x0080;
pub const CAP_APP_LAUNCH: u32 = 0x0100;
pub const CAP_NET_SEND: u32 = 0x0200;
pub const CAP_NET_RECV: u32 = 0x0400;
pub const CAP_VPN_CONTROL: u32 = 0x0800;
pub const CAP_ROUTE_SET: u32 = 0x1000;
pub const CAP_CAMERA: u32 = 0x0001_0000;
pub const CAP_CONTACTS: u32 = 0x0002_0000;
pub const CAP_LOCATION: u32 = 0x0004_0000;
pub const CAP_CALENDAR: u32 = 0x0008_0000;
pub const CAP_EMAIL: u32 = 0x0010_0000;
pub const CAP_APP_STORAGE: u32 = 0x0020_0000;

// Capabilities for the runtime and its JIT.
pub const CAP_MEMORY_ALLOC: u32 = 0x0100_0000;
pub const CAP_MEMORY_PROT: u32 = 0x0200_0000;
pub const CAP_JIT_ALLOC: u32 = 0x0400_0000;
pub const CAP_JIT_EXEC: u32 = 0x0800_0000;
pub const CAP_THREAD_CREATE: u32 = 0x1000_0000;
pub const CAP_SHARED_MEM: u32 = 0x2000_0000;
pub const CAP_SIGNAL: u32 = 0x4000_0000;
/// Scheduling needs no capability.
pub const CAP_SCHED: u32 = 0;
pub const CAP_PROC_INFO: u32 = 0;
pub const CAP_PROC_CONTROL: u32 = 0;
pub const CAP_ENTROPY: u32 = 0;
/// Debugging shares its bit with `CAP_SEND` and is never granted to an app.
pub const CAP_DEBUG: u32 = 0x0000_0001;
pub const CAP_PERF: u32 = 0x0000_0001;

pub const DISPLAY_ENDPOINT_ID: u32 = 300;
pub const NETWORK_ENDPOINT_ID: u32 = 400;
pub const CONSOLE_ENDPOINT_ID: u32 = 102;
pub const APP_STORAGE_BASE: u32 = 1000;

/// What the kernel remembers about capabilities: the tasks whose
/// capabilities were revoked.
pub struct KernelState {
    pub revoked: Vec<u32>,
}

/// The mathematical value of a `KernelState`.
pub struct KernelModel {
    pub revoked: Seq<u32>,
}

impl View for KernelState {
    type V = KernelModel;

    open spec fn view(&self) -> KernelModel {
        KernelModel { revoked: self.revoked@ }
    }
}

impl KernelModel {
    /// Nothing revoked.
    pub open spec fn initial() -> KernelModel {
        KernelModel { revoked: Seq::empty() }
    }
}

impl KernelState {
    /// Nothing revoked.
    pub fn new() -> (k: KernelState)
        ensures
            k@ == KernelModel::initial(),
    {
        KernelState { revoked: Vec::new() }
    }
}

/// Whether `x` occurs in `v`.
pub(crate) fn contains_id(v: &Vec<u32>, x: u32) -> (b: bool)
    ensures
        b == v@.contains(x),
{
    let mut i: usize = 0;
    while i < v.len()
        invariant
            i <= v@.len(),
            forall|j: int| 0 <= j < i ==> v@[j] != x,
        decreases v@.len() - i,
    {
        if v[i] == x {
            return true;
        }
        i = i + 1;
    }
    false
}

/// Whether task `task_id` holds `required_rights` on `endpoint_id`: a request
/// that carries the debug bit is never granted; every other request is
/// granted to every app (every task but task 0) whose capabilities have not
/// been revoked.
pub open spec fn has_capability_spec(k: KernelModel, task_id: u32, endpoint_id: u32, required_rights: u32) -> bool {
    required_rights & CAP_DEBUG == 0 && task_id > 0 && !k.revoked.contains(task_id)
}

/// Checks a capability.
pub fn has_capability(k: &KernelState, task_id: u32, endpoint_id: u32, required_rights: u32) -> (r: bool)
    ensures
        r == has_capability_spec(k@, task_id, endpoint_id, required_rights),
{
    if required_rights & CAP_DEBUG != 0 {
        return false;
    }
    task_id > 0 && !contains_id(&k.revoked, task_id)
}

/// Revokes every capability of a task: afterwards nothing is granted to it.
pub fn revoke_all_for_task(k: &mut KernelState, task_id: u32)
    ensures
        final(k)@ == (KernelModel { revoked: old(k)@.revoked.push(task_id) }),
        forall|e: u32, r: u32| !has_capability_spec(final(k)@, task_id, e, r),
{
    k.revoked.push(task_id);
    proof {
        assert(k@.revoked[k@.revoked.len() - 1] == task_id);
    }
}

/// Generates a TEE key handle: the next value of the key counter.
pub fn tee_generate_key(counter: &mut u32) -> (key: u32)
    ensures
        *final(counter) == vstd::wrapping::u32_specs::wrapping_add(*old(counter), 1),
        key == *final(counter),
{
    *counter = counter.wrapping_add(1);
    *counter
}

/// Whether the kill switch of `domain_id`'s VPN is on. In the compatibility
/// library the VPN is always up.
pub open spec fn kill_switch_active(domain_id: u32) -> bool {
    false
}

/// Reports the kill switch of `domain_id`: off, the VPN is up.
pub fn vpn_kill_switch_active(domain_id: u32) -> (r: bool)
    ensures
        r == kill_switch_active(domain_id),
{
    false
}

/// The gateway of `domain_id`'s VPN, 10.0.0.1.
pub fn vpn_gateway(domain_id: u32) -> (r: [u8; 4])
    ensures
        r@ == seq![10u8, 0, 0, 1],
{
    let r: [u8; 4] = [10, 0, 0, 1];
    proof { assert(r@ =~= seq![10u8, 0, 0, 1]); }
    r
}

/// The name of `domain_id`'s VPN.
pub fn vpn_name(domain_id: u32) -> (r: &'static str)
    ensures
        r@ == "VPN-compat"@,
{
    "VPN-compat"
}

/// Hands a frame to the VirtIO network device. The compatibility library has
/// no device: every frame counts as sent.
pub fn virtio_send_frame(data: &[u8]) -> (sent: bool)
    ensures
        sent,
{
    true
}

/// Prints bytes on the UART, in order.
pub fn uart_print_bytes(bytes: &[u8], eff: &mut Vec<UserEffect>)
    ensures
        final(eff)@ == old(eff)@ + uart_effects(bytes@),
{
    let mut i: usize = 0;
    while i < bytes.len()
        invariant
            i <= bytes@.len(),
            eff@ == old(eff)@ + uart_effects(bytes@.take(i as int)),
        decreases bytes@.len() - i,
    {
        eff.push(UserEffect::Console { value: bytes[i] });
        i = i + 1;
        proof { assert(eff@ =~= old(eff)@ + uart_effects(bytes@.take(i as int))); }
    }
    proof { assert(bytes@.take(bytes@.len() as int) =~= bytes@); }
}

/// Prints a string on the UART, byte by byte.
pub fn uart_print_str(s: &str, eff: &mut Vec<UserEffect>)
    ensures
        final(eff)@ == old(eff)@ + uart_effects(s.spec_bytes()),
{
    uart_print_bytes(s.as_bytes(), eff);
}

} // verus!
