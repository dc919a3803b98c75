//! Cgroup namespaces.
use vstd::prelude::*;
use crate::KoID;
use crate::nstype::NSType;
use crate::base::{NsBase, NS, fresh_base};
use crate::nsenum::NsEnum;
use crate::manager::{NsManager, child_registered};
use crate::proxy::proxy_changed;

verus! {

/// A cgroup namespace: only its place in the tree. It records
/// `CLONE_NEWCGROUP` as its kind flag, so that it converts into `NsEnum`.
pub struct CgroupNs {
    pub base: NsBase,
}

/// `e` is a cgroup namespace that has just been made with id `id` under
/// `parent`.
pub open spec fn fresh_cgroup(e: NsEnum, id: KoID, parent: Option<KoID>) -> bool {
    e matches NsEnum::CgroupNs(n) && fresh_base(n.base, id, NSType::CLONE_NEWCGROUP, parent)
}

impl NS for CgroupNs {
    open spec fn ns_base_spec(&self) -> NsBase {
        self.base
    }

    fn get_ns_id(&self) -> (r: KoID) {
        self.base.id
    }

    fn get_ns_type(&self) -> (r: NSType) {
        self.base.nstype
    }

    fn get_ns_base(&self) -> (r: &NsBase) {
        &self.base
    }

    fn get_parent_ns(&self) -> (r: Option<KoID>) {
        self.base.parent
    }

    fn get_ns_instance(self) -> (r: NsEnum)
        ensures
            r == NsEnum::CgroupNs(self),
    {
        NsEnum::CgroupNs(self)
    }
}

impl CgroupNs {
    fn new(id: KoID, parent: Option<KoID>) -> (r: CgroupNs)
        ensures
            fresh_cgroup(NsEnum::CgroupNs(r), id, parent),
    {
        CgroupNs { base: NsBase::new(id, NSType::CLONE_NEWCGROUP, parent) }
    }
}

impl CgroupNs {
    /// Makes the root cgroup namespace with id `id`, records it as the root
    /// of its kind and registers it; returns its id.
    pub fn new_root(mgr: &mut NsManager, id: KoID) -> (r: KoID)
        requires
            old(mgr).wf(),
            !old(mgr)@.contains_key(id),
        ensures
            r == id,
            final(mgr).wf(),
            final(mgr)@ == old(mgr)@.insert(id, final(mgr)@[id]),
            fresh_cgroup(final(mgr)@[id], id, None),
            final(mgr).roots() == proxy_changed(old(mgr).roots(), NSType::CLONE_NEWCGROUP, id),
    {
        let root = CgroupNs::new(id, None);
        let root_id = root.get_ns_id();
        mgr.set_init_ns(NSType::CLONE_NEWCGROUP, root_id);
        mgr.insert(root.get_ns_instance());
        root_id
    }

    /// Makes a cgroup namespace with id `id` under the cgroup namespace
    /// `parent`, lists it as the parent's newest child and registers it;
    /// returns its id.
    pub fn new_child(mgr: &mut NsManager, parent: KoID, id: KoID) -> (r: KoID)
        requires
            old(mgr).wf(),
            old(mgr)@.contains_key(parent),
            old(mgr)@[parent] is CgroupNs,
            !old(mgr)@.contains_key(id),
        ensures
            r == id,
            final(mgr).wf(),
            final(mgr).roots() == old(mgr).roots(),
            child_registered(old(mgr)@, final(mgr)@, parent, id, final(mgr)@[id]),
            fresh_cgroup(final(mgr)@[id], id, Some(parent)),
    {
        let child = CgroupNs::new(id, Some(parent));
        mgr.register_child(parent, child.get_ns_instance())
    }
}

} // verus!
