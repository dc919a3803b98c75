use linux_namespace::nstype::NSType;
use linux_namespace::proxy::NsProxy;

#[test]
fn ns_type_bits_are_the_clone_flags() {
    assert_eq!(NSType::NSTYPE_ANY.bits(), 0);
    assert_eq!(NSType::CLONE_NEWCGROUP.bits(), 1);
    assert_eq!(NSType::CLONE_NEWIPC.bits(), 1 << 1);
    assert_eq!(NSType::CLONE_NEWNET.bits(), 1 << 2);
    assert_eq!(NSType::CLONE_NEWNS.bits(), 1 << 3);
    assert_eq!(NSType::CLONE_NEWPID.bits(), 1 << 4);
    assert_eq!(NSType::CLONE_NEWTIME.bits(), 1 << 5);
    assert_eq!(NSType::CLONE_NEWUSER.bits(), 1 << 6);
    assert_eq!(NSType::CLONE_NEWUTS.bits(), 1 << 7);
}

#[test]
fn ns_type_round_trips_through_bits() {
    let all = [
        NSType::NSTYPE_ANY,
        NSType::CLONE_NEWCGROUP,
        NSType::CLONE_NEWIPC,
        NSType::CLONE_NEWNET,
        NSType::CLONE_NEWNS,
        NSType::CLONE_NEWPID,
        NSType::CLONE_NEWTIME,
        NSType::CLONE_NEWUSER,
        NSType::CLONE_NEWUTS,
    ];
    for t in all.iter() {
        assert_eq!(NSType::from_bits(t.bits()), Some(*t));
    }
}

#[test]
fn ns_type_from_bits_rejects_unions() {
    assert_eq!(NSType::from_bits(3), None);
    assert_eq!(NSType::from_bits(0x81), None);
    assert_eq!(NSType::from_bits(255), None);
}

#[test]
fn proxy_starts_at_zero() {
    let p = NsProxy::new();
    assert_eq!(p, NsProxy::default());
    assert_eq!(p.get_proxy_ns(NSType::CLONE_NEWUTS), Some(0));
    assert_eq!(p.get_proxy_ns(NSType::CLONE_NEWPID), Some(0));
    assert_eq!(p.get_proxy_ns(NSType::NSTYPE_ANY), None);
    assert_eq!(p.get_proxy_ns(NSType::CLONE_NEWTIME), None);
}

#[test]
fn changed_then_read_back() {
    let p = NsProxy::new().changed(NSType::CLONE_NEWUTS, 7).changed(NSType::CLONE_NEWPID, 9);
    assert_eq!(p.get_proxy_ns(NSType::CLONE_NEWUTS), Some(7));
    assert_eq!(p.get_proxy_ns(NSType::CLONE_NEWPID), Some(9));
    assert_eq!(p.uts_ns, 7);
    assert_eq!(p.pid_ns, 9);
    assert_eq!(p.mnt_ns, 0);
    let p = p
        .changed(NSType::CLONE_NEWNS, 3)
        .changed(NSType::CLONE_NEWNET, 4)
        .changed(NSType::CLONE_NEWIPC, 5)
        .changed(NSType::CLONE_NEWUSER, 6)
        .changed(NSType::CLONE_NEWCGROUP, 8);
    assert_eq!(p.mnt_ns, 3);
    assert_eq!(p.net_ns, 4);
    assert_eq!(p.ipc_ns, 5);
    assert_eq!(p.usr_ns, 6);
    assert_eq!(p.cgroup_ns, 8);
}

#[test]
fn changed_ignores_kinds_it_does_not_hold() {
    let p = NsProxy::new().changed(NSType::CLONE_NEWUTS, 7);
    assert_eq!(p.changed(NSType::NSTYPE_ANY, 42), p);
    assert_eq!(p.changed(NSType::CLONE_NEWTIME, 43), p);
}

#[test]
fn change_proxy_leaves_the_callers_proxy() {
    let p = NsProxy::new();
    p.change_proxy(NSType::CLONE_NEWUTS, 7);
    assert_eq!(p, NsProxy::new());
    assert_eq!(p.get_proxy_ns(NSType::CLONE_NEWUTS), Some(0));
}
