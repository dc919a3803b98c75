//! The set of namespaces a process lives in: one namespace id per kind.
use vstd::prelude::*;
use crate::KoID;
use crate::nstype::NSType;

verus! {

/// One namespace id per kind of namespace (time namespaces are not kept).
#[derive(Clone, Copy, Debug, PartialEq, Eq, Structural)]
pub struct NsProxy {
    pub mnt_ns: KoID,
    pub uts_ns: KoID,
    pub ipc_ns: KoID,
    pub pid_ns: KoID,
    pub net_ns: KoID,
    pub usr_ns: KoID,
    pub cgroup_ns: KoID,
}

/// The proxy with every id 0.
pub open spec fn proxy_zero() -> NsProxy {
    NsProxy { mnt_ns: 0, uts_ns: 0, ipc_ns: 0, pid_ns: 0, net_ns: 0, usr_ns: 0, cgroup_ns: 0 }
}

/// The namespace of kind `ns` that `p` names; `None` for the kinds that a
/// proxy does not hold (`NSTYPE_ANY`, `CLONE_NEWTIME`).
pub open spec fn proxy_ns(p: NsProxy, ns: NSType) -> Option<KoID> {
    match ns {
        NSType::CLONE_NEWCGROUP => Some(p.cgroup_ns),
        NSType::CLONE_NEWIPC => Some(p.ipc_ns),
        NSType::CLONE_NEWNET => Some(p.net_ns),
        NSType::CLONE_NEWNS => Some(p.mnt_ns),
        NSType::CLONE_NEWPID => Some(p.pid_ns),
        NSType::CLONE_NEWUSER => Some(p.usr_ns),
        NSType::CLONE_NEWUTS => Some(p.uts_ns),
        _ => None,
    }
}

/// `p` with the namespace of kind `ns` replaced by `id`; unchanged for the
/// kinds that a proxy does not hold.
pub open spec fn proxy_changed(p: NsProxy, ns: NSType, id: KoID) -> NsProxy {
    match ns {
        NSType::CLONE_NEWCGROUP => NsProxy { cgroup_ns: id, ..p },
        NSType::CLONE_NEWIPC => NsProxy { ipc_ns: id, ..p },
        NSType::CLONE_NEWNET => NsProxy { net_ns: id, ..p },
        NSType::CLONE_NEWNS => NsProxy { mnt_ns: id, ..p },
        NSType::CLONE_NEWPID => NsProxy { pid_ns: id, ..p },
        NSType::CLONE_NEWUSER => NsProxy { usr_ns: id, ..p },
        NSType::CLONE_NEWUTS => NsProxy { uts_ns: id, ..p },
        _ => p,
    }
}

impl Default for NsProxy {
    fn default() -> (r: NsProxy)
        ensures
            r == proxy_zero(),
    {
        NsProxy::new()
    }
}

impl NsProxy {
    /// A proxy that names namespace 0 for every kind.
    pub fn new() -> (r: NsProxy)
        ensures
            r == proxy_zero(),
    {
        NsProxy { mnt_ns: 0, uts_ns: 0, ipc_ns: 0, pid_ns: 0, net_ns: 0, usr_ns: 0, cgroup_ns: 0 }
    }

    /// Takes the proxy by value and makes that copy name `id` for kind `ns`;
    /// the copy is dropped, so the caller's proxy is left as it was, as in
    /// the kernel this library serves. Use `changed` for a proxy with the
    /// kind replaced.
    pub fn change_proxy(self, ns: NSType, id: KoID) {
        let _dropped = self.changed(ns, id);
    }

    /// This proxy with kind `ns` naming `id`; a kind that a proxy does not
    /// hold leaves it unchanged.
    pub fn changed(&self, ns: NSType, id: KoID) -> (r: NsProxy)
        ensures
            r == proxy_changed(*self, ns, id),
    {
        let mut p = *self;
        match ns {
            NSType::NSTYPE_ANY => (),
            NSType::CLONE_NEWCGROUP => p.cgroup_ns = id,
            NSType::CLONE_NEWIPC => p.ipc_ns = id,
            NSType::CLONE_NEWNET => p.net_ns = id,
            NSType::CLONE_NEWNS => p.mnt_ns = id,
            NSType::CLONE_NEWPID => p.pid_ns = id,
            NSType::CLONE_NEWTIME => (),
            NSType::CLONE_NEWUSER => p.usr_ns = id,
            NSType::CLONE_NEWUTS => p.uts_ns = id,
        }
        p
    }

    /// The namespace of kind `ns` that the proxy names, if it holds that kind.
    pub fn get_proxy_ns(&self, ns: NSType) -> (r: Option<KoID>)
        ensures
            r == proxy_ns(*self, ns),
    {
        match ns {
            NSType::CLONE_NEWCGROUP => Some(self.cgroup_ns),
            NSType::CLONE_NEWIPC => Some(self.ipc_ns),
            NSType::CLONE_NEWNET => Some(self.net_ns),
            NSType::CLONE_NEWNS => Some(self.mnt_ns),
            NSType::CLONE_NEWPID => Some(self.pid_ns),
            NSType::CLONE_NEWUSER => Some(self.usr_ns),
            NSType::CLONE_NEWUTS => Some(self.uts_ns),
            _ => None,
        }
    }
}

/// Reading a kind back after changing it gives the new id, for every kind
/// that a proxy holds; the other kinds read back as before.
pub proof fn lemma_change_proxy_read(p: NsProxy, ns: NSType, id: KoID, other: NSType)
    ensures
        proxy_ns(p, ns) is Some ==> proxy_ns(proxy_changed(p, ns, id), ns) == Some(id),
        proxy_ns(p, ns) is None ==> proxy_changed(p, ns, id) == p,
        other != ns ==> proxy_ns(proxy_changed(p, ns, id), other) == proxy_ns(p, other),
{
}

/// Changing a kind to the id it already has leaves the proxy as it was.
pub proof fn lemma_change_proxy_same(p: NsProxy, ns: NSType)
    ensures
        proxy_ns(p, ns) matches Some(id) ==> proxy_changed(p, ns, id) == p,
{
}

} // verus!
