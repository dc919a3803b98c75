use linux_namespace::base::{NsBase, NS};
use linux_namespace::cgroupns::CgroupNs;
use linux_namespace::manager::NsManager;
use linux_namespace::mntns::MntNs;
use linux_namespace::netns::NetNs;
use linux_namespace::nsenum::NsEnum;
use linux_namespace::nstype::NSType;
use linux_namespace::proxy::NsProxy;
use linux_namespace::usrns::UsrNs;
use std::convert::TryFrom;

fn parent_of(mgr: &NsManager, id: u64) -> Option<u64> {
    mgr.get_ns(id).unwrap().get_parent_ns()
}

fn children_of(mgr: &NsManager, id: u64) -> Vec<u64> {
    mgr.get_ns(id).unwrap().get_ns_base().child_ns_vec.clone()
}

#[test]
fn manager_starts_empty() {
    let mgr = NsManager::init();
    assert_eq!(mgr.get_root(), NsProxy::new());
    assert!(mgr.get_ns(0).is_none());
    assert!(mgr.get_ns(1).is_none());
}

#[test]
fn new_root_registers_and_becomes_root() {
    let mut mgr = NsManager::init();
    let id = CgroupNs::new_root(&mut mgr, 100);
    assert_eq!(id, 100);
    let ns = mgr.get_ns(100).unwrap();
    assert!(matches!(ns, NsEnum::CgroupNs(_)));
    assert_eq!(ns.get_ns_id(), 100);
    assert_eq!(ns.get_ns_type(), NSType::CLONE_NEWCGROUP);
    assert_eq!(ns.get_parent_ns(), None);
    assert!(ns.get_ns_base().child_ns_vec.is_empty());
    assert_eq!(mgr.get_root().cgroup_ns, 100);
    assert_eq!(mgr.get_root().get_proxy_ns(NSType::CLONE_NEWCGROUP), Some(100));
    assert_eq!(mgr.get_root().uts_ns, 0);
}

#[test]
fn new_child_is_listed_under_its_parent_in_order() {
    let mut mgr = NsManager::init();
    CgroupNs::new_root(&mut mgr, 1);
    assert_eq!(CgroupNs::new_child(&mut mgr, 1, 2), 2);
    assert_eq!(CgroupNs::new_child(&mut mgr, 1, 3), 3);
    assert_eq!(CgroupNs::new_child(&mut mgr, 2, 4), 4);
    assert_eq!(children_of(&mgr, 1), vec![2, 3]);
    assert_eq!(children_of(&mgr, 2), vec![4]);
    assert!(children_of(&mgr, 3).is_empty());
    assert_eq!(parent_of(&mgr, 2), Some(1));
    assert_eq!(parent_of(&mgr, 3), Some(1));
    assert_eq!(parent_of(&mgr, 4), Some(2));
    assert_eq!(parent_of(&mgr, 1), None);
    assert_eq!(mgr.get_ns(4).unwrap().get_ns_type(), NSType::CLONE_NEWCGROUP);
    assert_eq!(mgr.get_root().cgroup_ns, 1);
}

#[test]
fn walking_up_from_any_namespace_reaches_a_root() {
    let mut mgr = NsManager::init();
    CgroupNs::new_root(&mut mgr, 10);
    let mut last = 10;
    for id in 11..20u64 {
        CgroupNs::new_child(&mut mgr, last, id);
        last = id;
    }
    let mut cur = Some(19u64);
    let mut steps = 0;
    let mut seen = Vec::new();
    while let Some(c) = cur {
        assert!(!seen.contains(&c));
        seen.push(c);
        cur = parent_of(&mgr, c);
        steps += 1;
    }
    assert_eq!(steps, 10);
    assert_eq!(*seen.last().unwrap(), 10);
}

#[test]
fn net_child_keeps_parent_owner() {
    let mut mgr = NsManager::init();
    NetNs::new_root(&mut mgr, 30, 77);
    NetNs::new_child(&mut mgr, 30, 31);
    match mgr.get_ns(31).unwrap() {
        NsEnum::NetNs(n) => {
            assert_eq!(n.get_usr_ns(), 77);
            assert_eq!(n.get_parent_ns(), Some(30));
            assert_eq!(n.get_ns_type(), NSType::CLONE_NEWNS);
        }
        _ => panic!("expected a network namespace"),
    }
    assert_eq!(mgr.get_root().net_ns, 30);
}

#[test]
fn mount_child_shares_file_system_with_own_root_inode() {
    let mut mgr = NsManager::init();
    MntNs::new_root(&mut mgr, 40, 500, 9, 600);
    MntNs::new_child(&mut mgr, 40, 41, 601);
    match mgr.get_ns(40).unwrap() {
        NsEnum::MntNs(m) => {
            assert_eq!(*m.get_root_fs(), 500);
            assert_eq!(*m.get_root_inode(), 600);
            assert_eq!(m.get_usr_ns(), 9);
        }
        _ => panic!("expected a mount namespace"),
    }
    match mgr.get_ns(41).unwrap() {
        NsEnum::MntNs(m) => {
            assert_eq!(*m.get_root_fs(), 500);
            assert_eq!(*m.get_root_inode(), 601);
            assert_eq!(m.get_usr_ns(), 9);
            assert_eq!(m.get_parent_ns(), Some(40));
        }
        _ => panic!("expected a mount namespace"),
    }
    assert_eq!(mgr.get_root().mnt_ns, 40);
}

#[test]
fn user_root_is_not_registered() {
    let mut mgr = NsManager::init();
    let root = UsrNs::new_root(50);
    assert_eq!(root.get_usrname(), "zcore");
    assert_eq!(root.get_ns_type(), NSType::CLONE_NEWUSER);
    assert!(mgr.get_ns(50).is_none());
    assert_eq!(mgr.insert(root.get_ns_instance()), 50);
    assert!(mgr.get_ns(50).is_some());
    assert_eq!(mgr.get_root(), NsProxy::new());
    UsrNs::new_child(&mut mgr, 50, 51);
    assert_eq!(children_of(&mgr, 50), vec![51]);
    match mgr.get_ns(51).unwrap() {
        NsEnum::UsrNs(u) => assert_eq!(u.get_usrname(), "zcore"),
        _ => panic!("expected a user namespace"),
    }
}

#[test]
fn set_init_ns_records_root_per_kind() {
    let mut mgr = NsManager::init();
    mgr.set_init_ns(NSType::CLONE_NEWPID, 5);
    mgr.set_init_ns(NSType::CLONE_NEWTIME, 6);
    assert_eq!(mgr.get_root().pid_ns, 5);
    assert_eq!(mgr.get_root().get_proxy_ns(NSType::CLONE_NEWTIME), None);
    assert!(mgr.get_ns(5).is_none());
}

#[test]
fn try_from_checks_the_recorded_kind() {
    let ok = UsrNs::new_root(60);
    match NsEnum::try_from(ok) {
        Ok(NsEnum::UsrNs(u)) => assert_eq!(u.get_ns_id(), 60),
        _ => panic!("a user namespace converts"),
    }
    let wrong = UsrNs { base: NsBase::new(61, NSType::CLONE_NEWNS, None), usrname: String::from("x") };
    assert!(NsEnum::try_from(wrong).is_err());
    let cg = CgroupNs { base: NsBase::new(62, NSType::CLONE_NEWCGROUP, None) };
    assert!(NsEnum::try_from(cg).is_ok());
    let net = NetNs { base: NsBase::new(63, NSType::CLONE_NEWNS, None), usr_ns: 0 };
    assert!(NsEnum::try_from(net).is_err());
}

#[test]
fn kinds_record_their_flags() {
    let mut mgr = NsManager::init();
    NetNs::new_root(&mut mgr, 1, 0);
    CgroupNs::new_root(&mut mgr, 2);
    MntNs::new_root(&mut mgr, 3, 0, 0, 0);
    assert_eq!(mgr.get_ns(1).unwrap().get_ns_type(), NSType::CLONE_NEWNS);
    assert_eq!(mgr.get_ns(2).unwrap().get_ns_type(), NSType::CLONE_NEWCGROUP);
    assert_eq!(mgr.get_ns(3).unwrap().get_ns_type(), NSType::CLONE_NEWNS);
    assert_eq!(mgr.get_root().net_ns, 1);
}

#[test]
fn ns_base_new_has_no_children() {
    let b = NsBase::new(70, NSType::CLONE_NEWIPC, Some(69));
    assert_eq!(b.id, 70);
    assert_eq!(b.nstype, NSType::CLONE_NEWIPC);
    assert_eq!(b.parent, Some(69));
    assert!(b.child_ns_vec.is_empty());
}
