use linux_namespace::base::NS;
use linux_namespace::cgroupns::CgroupNs;
use linux_namespace::error::LxError;
use linux_namespace::manager::NsManager;
use linux_namespace::nsenum::NsEnum;
use linux_namespace::proxy::NsProxy;
use linux_namespace::syscall::Syscall;
use linux_namespace::utsns::{
    copy_utsname, get_domain_name, get_host_name, get_uname, set_domain_name, set_host_name,
    UtsNs, UtsRelease, UTS_FIELD_LEN,
};

fn release() -> UtsRelease {
    UtsRelease {
        release: String::from("0.1.0-zcore"),
        version: String::from("#1 SMP"),
        machine_arch: String::from("x86_64"),
    }
}

fn with_root() -> NsManager {
    let mut mgr = NsManager::init();
    UtsNs::new_root(&mut mgr, 1, 9, release());
    mgr
}

#[test]
fn root_has_default_names() {
    let mgr = with_root();
    assert_eq!(get_host_name(&mgr, 1), Some(String::from("zcore")));
    assert_eq!(get_domain_name(&mgr, 1), Some(String::from("rcore-os")));
    assert_eq!(mgr.get_root().uts_ns, 1);
    match mgr.get_ns(1).unwrap() {
        NsEnum::UtsNs(u) => {
            assert_eq!(u.sysname, "Linux");
            assert_eq!(u.release, "0.1.0-zcore");
            assert_eq!(u.get_usr_ns(), 9);
            assert_eq!(u.get_host_name(), "zcore");
            assert_eq!(u.get_domain_name(), "rcore-os");
        }
        _ => panic!("expected a UTS namespace"),
    }
}

#[test]
fn set_host_name_then_read_back() {
    let mut mgr = with_root();
    assert_eq!(set_host_name(&mut mgr, 1, b"myhost"), Some(String::from("myhost")));
    assert_eq!(get_host_name(&mgr, 1), Some(String::from("myhost")));
    assert_eq!(get_domain_name(&mgr, 1), Some(String::from("rcore-os")));
}

#[test]
fn set_domain_name_then_read_back() {
    let mut mgr = with_root();
    assert_eq!(set_domain_name(&mut mgr, 1, b"example.org"), Some(String::from("example.org")));
    assert_eq!(get_domain_name(&mgr, 1), Some(String::from("example.org")));
    assert_eq!(get_host_name(&mgr, 1), Some(String::from("zcore")));
}

#[test]
fn invalid_utf8_is_replaced() {
    let mut mgr = with_root();
    let got = set_host_name(&mut mgr, 1, &[b'a', 0xff, b'b']).unwrap();
    assert_eq!(got, "a\u{FFFD}b");
    assert_eq!(get_host_name(&mgr, 1), Some(String::from("a\u{FFFD}b")));
}

#[test]
fn names_need_a_uts_namespace() {
    let mut mgr = with_root();
    CgroupNs::new_root(&mut mgr, 2);
    assert_eq!(set_host_name(&mut mgr, 2, b"x"), None);
    assert_eq!(set_host_name(&mut mgr, 3, b"x"), None);
    assert_eq!(set_domain_name(&mut mgr, 3, b"x"), None);
    assert_eq!(get_host_name(&mgr, 2), None);
    assert_eq!(get_domain_name(&mgr, 3), None);
    assert_eq!(get_host_name(&mgr, 1), Some(String::from("zcore")));
}

#[test]
fn copy_utsname_copies_names_and_is_independent() {
    let mut mgr = with_root();
    set_host_name(&mut mgr, 1, b"parent");
    assert_eq!(copy_utsname(&mut mgr, 1, 2), Some(2));
    assert_eq!(get_host_name(&mgr, 2), Some(String::from("parent")));
    assert_eq!(get_domain_name(&mgr, 2), Some(String::from("rcore-os")));
    set_host_name(&mut mgr, 2, b"child");
    assert_eq!(get_host_name(&mgr, 2), Some(String::from("child")));
    assert_eq!(get_host_name(&mgr, 1), Some(String::from("parent")));
    assert_eq!(mgr.get_ns(2).unwrap().get_parent_ns(), Some(1));
    assert_eq!(mgr.get_ns(1).unwrap().get_ns_base().child_ns_vec, vec![2]);
    match mgr.get_ns(2).unwrap() {
        NsEnum::UtsNs(u) => {
            assert_eq!(u.release, "0.1.0-zcore");
            assert_eq!(u.version, "#1 SMP");
            assert_eq!(u.machine_arch, "x86_64");
            assert_eq!(u.get_usr_ns(), 9);
        }
        _ => panic!("expected a UTS namespace"),
    }
}

#[test]
fn copy_utsname_needs_a_uts_father() {
    let mut mgr = with_root();
    CgroupNs::new_root(&mut mgr, 5);
    assert_eq!(copy_utsname(&mut mgr, 5, 6), None);
    assert_eq!(copy_utsname(&mut mgr, 7, 6), None);
    assert!(mgr.get_ns(6).is_none());
}

#[test]
fn uname_writes_each_field_at_its_offset() {
    let mgr = with_root();
    let w = get_uname(&mgr, 1).unwrap();
    assert_eq!(w.len(), 6);
    let expect: [&str; 6] = ["Linux", "zcore", "0.1.0-zcore", "#1 SMP", "x86_64", "rcore-os"];
    for i in 0..6 {
        assert_eq!(w[i].0, i * UTS_FIELD_LEN);
        let mut bytes = expect[i].as_bytes().to_vec();
        bytes.push(0);
        assert_eq!(w[i].1, bytes);
    }
    assert_eq!(w[5].0, 325);
}

#[test]
fn uname_without_uts_namespace_is_undefined() {
    let mgr = with_root();
    assert_eq!(get_uname(&mgr, 2).err(), Some(LxError::EUNDEF));
}

#[test]
fn sethostname_through_the_callers_proxy() {
    let mut mgr = with_root();
    let sys = Syscall { nsproxy: mgr.get_root() };
    assert_eq!(sys.sethostname(&mut mgr, b"box"), Ok(0));
    assert_eq!(get_host_name(&mgr, 1), Some(String::from("box")));
    assert_eq!(sys.setdomainname(&mut mgr, b"lan"), Ok(0));
    assert_eq!(get_domain_name(&mgr, 1), Some(String::from("lan")));
    let w = get_uname(&mgr, 1).unwrap();
    assert_eq!(w[1].1, b"box\0".to_vec());
    assert_eq!(w[5].1, b"lan\0".to_vec());
}

#[test]
fn sethostname_without_uts_namespace_fails() {
    let mut mgr = with_root();
    let sys = Syscall { nsproxy: NsProxy::new() };
    assert_eq!(sys.sethostname(&mut mgr, b"box"), Err(LxError::EUNDEF));
    assert_eq!(sys.setdomainname(&mut mgr, b"lan"), Err(LxError::EUNDEF));
    assert_eq!(get_host_name(&mgr, 1), Some(String::from("zcore")));
}

#[test]
fn uts_methods_on_a_namespace() {
    let mut mgr = with_root();
    UtsNs::new_child(&mut mgr, 1, 2);
    assert_eq!(get_host_name(&mgr, 2), Some(String::from("zcore")));
    let sys = Syscall { nsproxy: { let mut p = NsProxy::new(); p.uts_ns = 2; p } };
    assert_eq!(sys.sethostname(&mut mgr, b"inner"), Ok(0));
    assert_eq!(get_host_name(&mgr, 2), Some(String::from("inner")));
    assert_eq!(get_host_name(&mgr, 1), Some(String::from("zcore")));
}
