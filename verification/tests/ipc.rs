use linux_namespace::base::NS;
use linux_namespace::ipcns::{insert_sem, insert_shm, sem_accessible, shm_accessible, IpcNs};
use linux_namespace::manager::NsManager;
use linux_namespace::netns::NetNs;
use linux_namespace::nsenum::NsEnum;

#[test]
fn registered_positions_are_reachable() {
    let mut mgr = NsManager::init();
    IpcNs::new_root(&mut mgr, 1, 9);
    assert!(!sem_accessible(&mgr, 1, 0));
    insert_sem(&mut mgr, 1, 0);
    assert!(sem_accessible(&mgr, 1, 0));
    assert!(!sem_accessible(&mgr, 1, 1));
    insert_sem(&mut mgr, 1, 1);
    assert!(sem_accessible(&mgr, 1, 1));
    insert_shm(&mut mgr, 1, 0);
    assert!(shm_accessible(&mgr, 1, 0));
    assert!(!shm_accessible(&mgr, 1, 1));
}

#[test]
fn reachability_is_by_position_not_by_value() {
    let mut mgr = NsManager::init();
    IpcNs::new_root(&mut mgr, 1, 9);
    insert_sem(&mut mgr, 1, 5);
    assert!(!sem_accessible(&mgr, 1, 5));
    assert!(sem_accessible(&mgr, 1, 0));
    match mgr.get_ns(1).unwrap() {
        NsEnum::IpcNs(i) => assert_eq!(i.sem_ids, vec![5]),
        _ => panic!("expected an IPC namespace"),
    }
}

#[test]
fn other_namespaces_are_unaffected() {
    let mut mgr = NsManager::init();
    IpcNs::new_root(&mut mgr, 1, 9);
    IpcNs::new_child(&mut mgr, 1, 2);
    NetNs::new_root(&mut mgr, 3, 9);
    insert_sem(&mut mgr, 2, 0);
    insert_sem(&mut mgr, 3, 0);
    insert_shm(&mut mgr, 4, 0);
    assert!(sem_accessible(&mgr, 2, 0));
    assert!(!sem_accessible(&mgr, 1, 0));
    assert!(!sem_accessible(&mgr, 3, 0));
    assert!(!shm_accessible(&mgr, 4, 0));
    match mgr.get_ns(2).unwrap() {
        NsEnum::IpcNs(i) => {
            assert_eq!(i.get_usr_ns(), 9);
            assert_eq!(i.get_parent_ns(), Some(1));
            assert!(i.shm_ids.is_empty());
        }
        _ => panic!("expected an IPC namespace"),
    }
}

#[test]
fn ipc_methods_on_a_lone_namespace() {
    let mut mgr = NsManager::init();
    IpcNs::new_root(&mut mgr, 1, 9);
    let mut ns = match mgr.get_ns(1).unwrap() {
        NsEnum::IpcNs(i) => IpcNs {
            base: linux_namespace::base::NsBase::new(i.get_ns_id(), i.get_ns_type(), None),
            usr_ns: i.usr_ns,
            sem_ids: Vec::new(),
            shm_ids: Vec::new(),
        },
        _ => panic!("expected an IPC namespace"),
    };
    ns.insert_sem(4);
    ns.insert_shm(8);
    ns.insert_shm(9);
    assert!(ns.sem_accessible(0));
    assert!(!ns.sem_accessible(1));
    assert!(ns.shm_accessible(1));
    assert!(!ns.shm_accessible(2));
}
