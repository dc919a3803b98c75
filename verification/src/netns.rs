//! Network namespaces.
use vstd::prelude::*;
use crate::KoID;
use crate::nstype::NSType;
use crate::base::{NsBase, NS, fresh_base};
use crate::nsenum::NsEnum;
use crate::manager::{NsManager, child_registered};
use crate::proxy::proxy_changed;

verus! {

/// A network namespace and the user namespace that owns it.
pub struct NetNs {
    pub base: NsBase,
    pub usr_ns: KoID,
}

/// `e` is a network namespace that has just been made with id `id` under
/// `parent`, owned by user namespace `usr_id`; it records `CLONE_NEWNS`
/// as its kind flag.
pub open spec fn fresh_net(e: NsEnum, id: KoID, parent: Option<KoID>, usr_id: KoID) -> bool {
    e matches NsEnum::NetNs(n) && fresh_base(n.base, id, NSType::CLONE_NEWNS, parent) && n.usr_ns
        == usr_id
}

impl NS for NetNs {
    open spec fn ns_base_spec(&self) -> NsBase {
        self.base
    }

    fn get_ns_id(&self) -> (r: KoID) {
        self.base.id
    }

    fn get_ns_type(&self) -> (r: NSType) {
        self.base.nstype
    }

    fn get_ns_base(&self) -> (r: &NsBase) {
        &self.base
    }

    fn get_parent_ns(&self) -> (r: Option<KoID>) {
        self.base.parent
    }

    fn get_ns_instance(self) -> (r: NsEnum)
        ensures
            r == NsEnum::NetNs(self),
    {
        NsEnum::NetNs(self)
    }
}

impl NetNs {
    /// The user namespace that owns this one.
    pub fn get_usr_ns(&self) -> (r: KoID)
        ensures
            r == self.usr_ns,
    {
        self.usr_ns
    }

    fn new(id: KoID, parent: Option<KoID>, usr_id: KoID) -> (r: NetNs)
        ensures
            fresh_net(NsEnum::NetNs(r), id, parent, usr_id),
    {
        NetNs { base: NsBase::new(id, NSType::CLONE_NEWNS, parent), usr_ns: usr_id }
    }
}

impl NetNs {
    /// Makes the root network namespace with id `id`, owned by `usr_id`,
    /// records it as the root of its kind and registers it; returns its id.
    pub fn new_root(mgr: &mut NsManager, id: KoID, usr_id: KoID) -> (r: KoID)
        requires
            old(mgr).wf(),
            !old(mgr)@.contains_key(id),
        ensures
            r == id,
            final(mgr).wf(),
            final(mgr)@ == old(mgr)@.insert(id, final(mgr)@[id]),
            fresh_net(final(mgr)@[id], id, None, usr_id),
            final(mgr).roots() == proxy_changed(old(mgr).roots(), NSType::CLONE_NEWNET, id),
    {
        let root = NetNs::new(id, None, usr_id);
        let root_id = root.get_ns_id();
        mgr.set_init_ns(NSType::CLONE_NEWNET, root_id);
        mgr.insert(root.get_ns_instance());
        root_id
    }

    /// Makes a network namespace with id `id` under the network namespace
    /// `parent`, with the parent's owner, lists it as the parent's newest
    /// child and registers it; returns its id.
    pub fn new_child(mgr: &mut NsManager, parent: KoID, id: KoID) -> (r: KoID)
        requires
            old(mgr).wf(),
            old(mgr)@.contains_key(parent),
            old(mgr)@[parent] is NetNs,
            !old(mgr)@.contains_key(id),
        ensures
            r == id,
            final(mgr).wf(),
            final(mgr).roots() == old(mgr).roots(),
            child_registered(old(mgr)@, final(mgr)@, parent, id, final(mgr)@[id]),
            old(mgr)@[parent] matches NsEnum::NetNs(p) && fresh_net(
                final(mgr)@[id],
                id,
                Some(parent),
                p.usr_ns,
            ),
    {
        let usr_id = match mgr.get_ns(parent) {
            Some(NsEnum::NetNs(p)) => p.usr_ns,
            _ => {
                proof {
                    assert(false);
                }
                0
            },
        };
        let child = NetNs::new(id, Some(parent), usr_id);
        mgr.register_child(parent, child.get_ns_instance())
    }
}

} // verus!
