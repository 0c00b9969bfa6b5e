//! The VPN state of the ZTOS kernel, which the kernel build consults: the
//! domains whose VPN is down, that is whose kill switch is on.
use vstd::prelude::*;
use crate::kernel_stubs::contains_id;

verus! {

/// The domains whose VPN kill switch is on.
pub struct VpnState {
    pub kill_switch: Vec<u32>,
}

/// The mathematical value of a `VpnState`.
pub struct VpnModel {
    pub kill_switch: Seq<u32>,
}

impl View for VpnState {
    type V = VpnModel;

    open spec fn view(&self) -> VpnModel {
        VpnModel { kill_switch: self.kill_switch@ }
    }
}

impl VpnModel {
    /// Every VPN up.
    pub open spec fn initial() -> VpnModel {
        VpnModel { kill_switch: Seq::empty() }
    }
}

impl VpnState {
    /// Every VPN up.
    pub fn new() -> (v: VpnState)
        ensures
            v@ == VpnModel::initial(),
    {
        VpnState { kill_switch: Vec::new() }
    }
}

/// Whether the kill switch of `domain_id`'s VPN is on.
pub open spec fn kill_switch_active(k: VpnModel, domain_id: u32) -> bool {
    k.kill_switch.contains(domain_id)
}

/// Reports the kill switch of `domain_id`.
pub fn vpn_kill_switch_active(k: &VpnState, domain_id: u32) -> (r: bool)
    ensures
        r == kill_switch_active(k@, domain_id),
{
    contains_id(&k.kill_switch, domain_id)
}

/// Turns the kill switch of `domain_id`'s VPN on (the VPN went down) or off
/// (it came back); the other domains are unchanged.
pub fn set_kill_switch(k: &mut VpnState, domain_id: u32, on: bool)
    ensures
        kill_switch_active(final(k)@, domain_id) == on,
        forall|d: u32| d != domain_id ==> kill_switch_active(final(k)@, d) == kill_switch_active(old(k)@, d),
{
    let ghost old_ks = k.kill_switch@;
    let mut kept: Vec<u32> = Vec::new();
    let mut i: usize = 0;
    while i < k.kill_switch.len()
        invariant
            i <= old_ks.len(),
            k.kill_switch@ == old_ks,
            forall|d: u32| kept@.contains(d) <==> (d != domain_id && old_ks.subrange(0, i as int).contains(d)),
        decreases old_ks.len() - i,
    {
        let d = k.kill_switch[i];
        let ghost before = kept@;
        let ghost pre = old_ks.subrange(0, i as int);
        if d != domain_id {
            kept.push(d);
        }
        i = i + 1;
        proof {
            let post = old_ks.subrange(0, i as int);
            assert(post =~= pre.push(d));
            assert forall|x: u32| #[trigger] kept@.contains(x) <==> (x != domain_id && old_ks.subrange(0, i as int).contains(x)) by {
                if kept@.contains(x) {
                    let j = choose|j: int| 0 <= j < kept@.len() && kept@[j] == x;
                    if j < before.len() {
                        assert(before[j] == x);
                        assert(before.contains(x));
                        assert(pre.contains(x));
                        let j2 = choose|j2: int| 0 <= j2 < pre.len() && pre[j2] == x;
                        assert(post[j2] == x);
                        assert(post.contains(x));
                    } else {
                        assert(x == d && d != domain_id);
                        assert(post[post.len() - 1] == x);
                        assert(post.contains(x));
                    }
                }
                if x != domain_id && post.contains(x) {
                    let j = choose|j: int| 0 <= j < post.len() && post[j] == x;
                    if j < pre.len() {
                        assert(pre[j] == x);
                        assert(pre.contains(x));
                        assert(before.contains(x));
                        let j2 = choose|j2: int| 0 <= j2 < before.len() && before[j2] == x;
                        assert(kept@[j2] == x);
                        assert(kept@.contains(x));
                    } else {
                        assert(x == d);
                        assert(kept@[kept@.len() - 1] == x);
                        assert(kept@.contains(x));
                    }
                }
            }
        }
    }
    proof { assert(old_ks.subrange(0, old_ks.len() as int) =~= old_ks); }
    let ghost before = kept@;
    if on {
        kept.push(domain_id);
        proof {
            assert(kept@[kept@.len() - 1] == domain_id);
            assert forall|x: u32| x != domain_id implies (kept@.contains(x) <==> before.contains(x)) by {
                if kept@.contains(x) {
                    let j = choose|j: int| 0 <= j < kept@.len() && kept@[j] == x;
                    assert(before[j] == x);
                    assert(before.contains(x));
                }
                if before.contains(x) {
                    let j = choose|j: int| 0 <= j < before.len() && before[j] == x;
                    assert(kept@[j] == x);
                    assert(kept@.contains(x));
                }
            }
            assert(kept@.contains(domain_id));
        }
    } else {
        assert(!kept@.contains(domain_id));
    }
    proof {
        assert forall|x: u32| x != domain_id implies (kept@.contains(x) <==> old_ks.contains(x)) by {
            assert(kept@.contains(x) <==> before.contains(x));
        }
    }
    k.kill_switch = kept;
}

} // verus!
