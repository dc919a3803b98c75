//! The system calls that change the names of the calling process's UTS
//! namespace.
use vstd::prelude::*;
use vstd::utf8::{valid_utf8, decode_utf8};
use crate::nstype::NSType;
use crate::proxy::NsProxy;
use crate::manager::NsManager;
use crate::error::{LxError, SysResult};
use crate::utsns::{set_host_name, set_domain_name, has_uts, host_name_set, domain_name_set, utf8_lossy};

verus! {

/// The context of a system call: the namespaces of the calling process.
pub struct Syscall {
    pub nsproxy: NsProxy,
}

impl Syscall {
    /// `sethostname(2)`: sets the host name of the caller's UTS namespace to
    /// the text of `name`; `EUNDEF`, with nothing changed, when the caller's
    /// UTS namespace is not registered.
    pub fn sethostname(&self, mgr: &mut NsManager, name: &[u8]) -> (r: SysResult)
        requires
            old(mgr).wf(),
        ensures
            final(mgr).wf(),
            final(mgr).roots() == old(mgr).roots(),
            r == (if has_uts(old(mgr)@, self.nsproxy.uts_ns) {
                Ok::<usize, LxError>(0)
            } else {
                Err(LxError::EUNDEF)
            }),
            r is Ok <==> (old(mgr)@.contains_key(self.nsproxy.uts_ns)
                && old(mgr)@[self.nsproxy.uts_ns] is UtsNs),
            r is Err ==> final(mgr)@ == old(mgr)@,
            r is Ok && valid_utf8(name@) ==> utf8_lossy(name@) == decode_utf8(name@),
            r is Ok ==> {
                &&& final(mgr)@ == old(mgr)@.insert(
                    self.nsproxy.uts_ns,
                    final(mgr)@[self.nsproxy.uts_ns],
                )
                &&& host_name_set(
                    old(mgr)@[self.nsproxy.uts_ns],
                    final(mgr)@[self.nsproxy.uts_ns],
                    utf8_lossy(name@),
                )
            },
    {
        let uts_ns_id = self.nsproxy.get_proxy_ns(NSType::CLONE_NEWUTS);
        match uts_ns_id {
            Some(id) => {
                let res = set_host_name(mgr, id, name);
                match res {
                    Some(_) => Ok(0),
                    None => Err(LxError::EUNDEF),
                }
            },
            None => Err(LxError::EUNDEF),
        }
    }

    /// `setdomainname(2)`: sets the domain name of the caller's UTS
    /// namespace to the text of `name`; `EUNDEF`, with nothing changed, when
    /// the caller's UTS namespace is not registered.
    pub fn setdomainname(&self, mgr: &mut NsManager, name: &[u8]) -> (r: SysResult)
        requires
            old(mgr).wf(),
        ensures
            final(mgr).wf(),
            final(mgr).roots() == old(mgr).roots(),
            r == (if has_uts(old(mgr)@, self.nsproxy.uts_ns) {
                Ok::<usize, LxError>(0)
            } else {
                Err(LxError::EUNDEF)
            }),
            r is Ok <==> (old(mgr)@.contains_key(self.nsproxy.uts_ns)
                && old(mgr)@[self.nsproxy.uts_ns] is UtsNs),
            r is Err ==> final(mgr)@ == old(mgr)@,
            r is Ok && valid_utf8(name@) ==> utf8_lossy(name@) == decode_utf8(name@),
            r is Ok ==> {
                &&& final(mgr)@ == old(mgr)@.insert(
                    self.nsproxy.uts_ns,
                    final(mgr)@[self.nsproxy.uts_ns],
                )
                &&& domain_name_set(
                    old(mgr)@[self.nsproxy.uts_ns],
                    final(mgr)@[self.nsproxy.uts_ns],
                    utf8_lossy(name@),
                )
            },
    {
        let uts_ns_id = self.nsproxy.get_proxy_ns(NSType::CLONE_NEWUTS);
        match uts_ns_id {
            Some(id) => {
                let res = set_domain_name(mgr, id, name);
                match res {
                    Some(_) => Ok(0),
                    None => Err(LxError::EUNDEF),
                }
            },
            None => Err(LxError::EUNDEF),
        }
    }
}

} // verus!
