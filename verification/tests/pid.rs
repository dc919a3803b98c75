use hashbrown::HashMap;
use linux_namespace::base::{NsBase, NS};
use linux_namespace::manager::NsManager;
use linux_namespace::nsenum::NsEnum;
use linux_namespace::nstype::NSType;
use linux_namespace::pidns::{PidNs, FIRST_ID};

fn pid_ns(mgr: &NsManager, id: u64) -> &PidNs {
    match mgr.get_ns(id).unwrap() {
        NsEnum::PidNs(p) => p,
        _ => panic!("expected a PID namespace"),
    }
}

fn pid_of(mgr: &NsManager, ns: u64, process: u64) -> Option<u64> {
    pid_ns(mgr, ns).pid_map.get(&process).copied()
}

fn tid_of(mgr: &NsManager, ns: u64, thread: u64) -> Option<u64> {
    pid_ns(mgr, ns).get_tid(thread).copied()
}

fn three_levels() -> NsManager {
    let mut mgr = NsManager::init();
    PidNs::new_root(&mut mgr, 1, 9);
    PidNs::new_child(&mut mgr, 1, 2);
    PidNs::new_child(&mut mgr, 2, 3);
    PidNs::new_child(&mut mgr, 1, 4);
    mgr
}

#[test]
fn process_gets_pid_in_its_namespace_and_all_above() {
    let mut mgr = three_levels();
    assert!(PidNs::can_insert_pid(&mgr, 3));
    PidNs::insert_pid(&mut mgr, 3, 1000);
    assert_eq!(pid_of(&mgr, 3, 1000), Some(FIRST_ID));
    assert_eq!(pid_of(&mgr, 2, 1000), Some(1));
    assert_eq!(pid_of(&mgr, 1, 1000), Some(1));
    assert_eq!(pid_of(&mgr, 4, 1000), None);
    assert_eq!(tid_of(&mgr, 3, 1000), None);
}

#[test]
fn each_namespace_numbers_its_own_processes() {
    let mut mgr = three_levels();
    PidNs::insert_pid(&mut mgr, 1, 10);
    PidNs::insert_pid(&mut mgr, 2, 20);
    PidNs::insert_pid(&mut mgr, 3, 30);
    assert_eq!(pid_of(&mgr, 1, 10), Some(1));
    assert_eq!(pid_of(&mgr, 1, 20), Some(2));
    assert_eq!(pid_of(&mgr, 1, 30), Some(3));
    assert_eq!(pid_of(&mgr, 2, 20), Some(1));
    assert_eq!(pid_of(&mgr, 2, 30), Some(2));
    assert_eq!(pid_of(&mgr, 3, 30), Some(1));
    assert_eq!(pid_ns(&mgr, 3).next_pid, 2);
    assert_eq!(pid_ns(&mgr, 1).next_pid, 4);
}

#[test]
fn two_processes_never_share_a_pid() {
    let mut mgr = three_levels();
    PidNs::insert_pid(&mut mgr, 3, 100);
    PidNs::insert_pid(&mut mgr, 3, 200);
    for ns in [1u64, 2, 3].iter() {
        let a = pid_of(&mgr, *ns, 100).unwrap();
        let b = pid_of(&mgr, *ns, 200).unwrap();
        assert_ne!(a, b);
    }
}

#[test]
fn process_in_middle_is_not_seen_below() {
    let mut mgr = three_levels();
    PidNs::insert_pid(&mut mgr, 2, 2000);
    assert_eq!(pid_of(&mgr, 3, 2000), None);
    assert_eq!(pid_of(&mgr, 2, 2000), Some(1));
    assert_eq!(pid_of(&mgr, 1, 2000), Some(1));
    assert_eq!(pid_of(&mgr, 1, 2001), None);
}

#[test]
fn thread_gets_tid_here_and_pid_above() {
    let mut mgr = three_levels();
    PidNs::insert_pid(&mut mgr, 2, 77);
    assert!(PidNs::can_insert_tid(&mgr, 3));
    PidNs::insert_tid(&mut mgr, 3, 3000);
    assert_eq!(tid_of(&mgr, 3, 3000), Some(1));
    assert_eq!(pid_of(&mgr, 3, 3000), None);
    assert_eq!(pid_of(&mgr, 2, 3000), Some(2));
    assert_eq!(pid_of(&mgr, 1, 3000), Some(2));
    assert_eq!(tid_of(&mgr, 2, 3000), None);
    assert_eq!(pid_of(&mgr, 4, 3000), None);
    PidNs::insert_tid(&mut mgr, 3, 3001);
    assert_eq!(tid_of(&mgr, 3, 3001), Some(2));
}

#[test]
fn thread_in_root_stays_in_root() {
    let mut mgr = three_levels();
    PidNs::insert_tid(&mut mgr, 1, 4000);
    assert_eq!(tid_of(&mgr, 1, 4000), Some(1));
    assert_eq!(pid_of(&mgr, 1, 4000), None);
}

#[test]
fn entering_again_hands_out_a_new_pid() {
    let mut mgr = three_levels();
    PidNs::insert_pid(&mut mgr, 3, 5000);
    PidNs::insert_pid(&mut mgr, 3, 5000);
    assert_eq!(pid_of(&mgr, 1, 5000), Some(2));
    assert_eq!(pid_of(&mgr, 3, 5000), Some(2));
}

#[test]
fn pid_children_keep_owner_and_kind() {
    let mgr = three_levels();
    let p = pid_ns(&mgr, 3);
    assert_eq!(p.get_usr_ns(), 9);
    assert_eq!(p.get_parent_ns(), Some(2));
    assert_eq!(p.get_ns_type(), NSType::CLONE_NEWNS);
    assert_eq!(p.next_pid, FIRST_ID);
    assert_eq!(p.next_tid, FIRST_ID);
    assert_eq!(mgr.get_root().pid_ns, 1);
    assert_eq!(pid_ns(&mgr, 1).get_ns_base().child_ns_vec, vec![2, 4]);
}

#[test]
fn exhausted_numbers_are_reported() {
    let mut mgr = NsManager::init();
    let full = PidNs {
        base: NsBase::new(8, NSType::CLONE_NEWNS, None),
        pid_map: HashMap::new(),
        tid_map: HashMap::new(),
        next_pid: u64::MAX,
        next_tid: u64::MAX,
        usr_ns: 0,
    };
    mgr.insert(full.get_ns_instance());
    PidNs::new_child(&mut mgr, 8, 9);
    assert!(!PidNs::can_insert_pid(&mgr, 8));
    assert!(!PidNs::can_insert_pid(&mgr, 9));
    assert!(!PidNs::can_insert_tid(&mgr, 8));
    assert!(!PidNs::can_insert_tid(&mgr, 9));
    let mut ok = NsManager::init();
    PidNs::new_root(&mut ok, 1, 0);
    assert!(PidNs::can_insert_pid(&ok, 1));
    assert!(PidNs::can_insert_tid(&ok, 1));
}

#[test]
fn get_pid_looks_in_the_tid_table() {
    let mut mgr = three_levels();
    PidNs::insert_pid(&mut mgr, 3, 600);
    PidNs::insert_tid(&mut mgr, 3, 700);
    assert_eq!(pid_ns(&mgr, 3).get_pid(600), None);
    assert_eq!(pid_ns(&mgr, 3).get_pid(700), Some(&1));
    assert_eq!(pid_ns(&mgr, 3).get_tid(700), Some(&1));
}

#[test]
fn every_process_is_numbered_in_all_ancestors() {
    let mut mgr = three_levels();
    PidNs::insert_pid(&mut mgr, 3, 1);
    PidNs::insert_pid(&mut mgr, 2, 2);
    PidNs::insert_pid(&mut mgr, 4, 3);
    PidNs::insert_tid(&mut mgr, 3, 4);
    for ns in [2u64, 3, 4].iter() {
        let parent = pid_ns(&mgr, *ns).get_parent_ns().unwrap();
        for q in pid_ns(&mgr, *ns).pid_map.keys() {
            assert!(pid_ns(&mgr, parent).pid_map.contains_key(q));
            assert!(pid_ns(&mgr, 1).pid_map.contains_key(q));
        }
    }
}
