use ztos_compat::kernel_stubs::{
    has_capability, revoke_all_for_task, tee_generate_key, uart_print_bytes, uart_print_str,
    virtio_send_frame, vpn_gateway, vpn_kill_switch_active, vpn_name, KernelState, CAP_APP_STORAGE, CAP_DEBUG,
    CAP_SEND, CAP_NET_SEND, CAP_JIT_EXEC,
};
use ztos_compat::syscall_wrapper::{
    current_app_id, current_domain_id, handle_uname, ztos_get_current_app_id, ztos_get_current_domain_id,
    ztos_set_app_context, CompatState,
};
use ztos_compat::user_mem::UserEffect;

#[test]
fn capabilities_go_to_apps_but_not_debugging() {
    let k = KernelState::new();
    assert!(has_capability(&k, 101, 1101, CAP_APP_STORAGE));
    assert!(!has_capability(&k, 0, 1000, CAP_APP_STORAGE));
    assert!(has_capability(&k, 101, 300, CAP_JIT_EXEC));
    assert!(!has_capability(&k, 101, 300, CAP_DEBUG));
    assert!(!has_capability(&k, 5, 300, CAP_SEND));
    assert!(!has_capability(&k, 101, 300, CAP_DEBUG | CAP_NET_SEND));
}

#[test]
fn revoked_tasks_hold_nothing() {
    let mut k = KernelState::new();
    revoke_all_for_task(&mut k, 5);
    assert!(!has_capability(&k, 5, 1005, CAP_APP_STORAGE));
    assert!(!has_capability(&k, 5, 400, CAP_NET_SEND));
    assert!(has_capability(&k, 6, 400, CAP_NET_SEND));
}

#[test]
fn compat_vpn_is_always_up() {
    for d in [0u32, 20, 21, u32::MAX] {
        assert!(!vpn_kill_switch_active(d));
    }
}

#[test]
fn kernel_kill_switches_are_per_domain() {
    let mut k = ztos_compat::art::vpn::VpnState::new();
    let on = ztos_compat::art::vpn::vpn_kill_switch_active;
    let set = ztos_compat::art::vpn::set_kill_switch;
    assert!(!on(&k, 20));
    set(&mut k, 20, true);
    set(&mut k, 20, true);
    assert!(on(&k, 20));
    assert!(!on(&k, 21));
    set(&mut k, 21, true);
    set(&mut k, 20, false);
    assert!(!on(&k, 20));
    assert!(on(&k, 21));
}

#[test]
fn tee_keys_count_up() {
    let mut c = 0u32;
    assert_eq!(tee_generate_key(&mut c), 1);
    assert_eq!(tee_generate_key(&mut c), 2);
    let mut m = u32::MAX;
    assert_eq!(tee_generate_key(&mut m), 0);
}

#[test]
fn vpn_and_devices() {
    assert_eq!(vpn_gateway(20), [10, 0, 0, 1]);
    assert_eq!(vpn_name(20), "VPN-compat");
    assert!(virtio_send_frame(&[1, 2, 3]));
    let mut eff = vec![];
    uart_print_str("hi", &mut eff);
    uart_print_bytes(&[b'!'], &mut eff);
    assert_eq!(
        eff,
        vec![UserEffect::Console { value: b'h' }, UserEffect::Console { value: b'i' }, UserEffect::Console { value: b'!' }]
    );
}

#[test]
fn app_context_is_kept() {
    let mut st = CompatState::new(0x4000_0000);
    assert_eq!(current_app_id(&st), 0);
    ztos_set_app_context(&mut st, 7, 20);
    assert_eq!(ztos_get_current_app_id(&st), 7);
    assert_eq!(ztos_get_current_domain_id(&st), 20);
    assert_eq!(current_domain_id(&st), 20);
}

#[test]
fn uname_presents_linux_on_aarch64() {
    let mut eff = vec![];
    assert_eq!(handle_uname(0x1000, &mut eff), 0);
    let field = |off: u64, s: &[u8]| -> Vec<UserEffect> {
        let mut v: Vec<UserEffect> = s.iter().enumerate().map(|(i, b)| UserEffect::Byte { addr: 0x1000 + off + i as u64, value: *b }).collect();
        v.push(UserEffect::Byte { addr: 0x1000 + off + s.len() as u64, value: 0 });
        v
    };
    let mut want = field(0, b"Linux");
    want.extend(field(65, b"ztos-device"));
    want.extend(field(130, b"6.1.0-ztos"));
    want.extend(field(195, b"#1 ZTOS SMP"));
    want.extend(field(260, b"aarch64"));
    assert_eq!(eff, want);
    let mut eff = vec![];
    assert_eq!(handle_uname(0, &mut eff), -14);
    assert!(eff.is_empty());
}
