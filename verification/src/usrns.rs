//! User namespaces.
use vstd::prelude::*;
use crate::KoID;
use crate::nstype::NSType;
use crate::base::{NsBase, NS, fresh_base};
use crate::nsenum::NsEnum;
use crate::manager::{NsManager, child_registered};

verus! {

/// A user namespace and the name of its user. It records `CLONE_NEWUSER` as
/// its kind flag, so that it converts into `NsEnum`.
pub struct UsrNs {
    pub base: NsBase,
    pub usrname: String,
}

/// `e` is a user namespace that has just been made with id `id` under
/// `parent`, for the user `zcore`.
pub open spec fn fresh_usr(e: NsEnum, id: KoID, parent: Option<KoID>) -> bool {
    &&& e matches NsEnum::UsrNs(n)
    &&& fresh_base(n.base, id, NSType::CLONE_NEWUSER, parent)
    &&& n.usrname@ == "zcore"@
}

impl NS for UsrNs {
    open spec fn ns_base_spec(&self) -> NsBase {
        self.base
    }

    fn get_ns_id(&self) -> (r: KoID) {
        self.base.id
    }

    fn get_ns_type(&self) -> (r: NSType) {
        self.base.nstype
    }

    fn get_ns_base(&self) -> (r: &NsBase) {
        &self.base
    }

    fn get_parent_ns(&self) -> (r: Option<KoID>) {
        self.base.parent
    }

    fn get_ns_instance(self) -> (r: NsEnum)
        ensures
            r == NsEnum::UsrNs(self),
    {
        NsEnum::UsrNs(self)
    }
}

impl UsrNs {
    fn new(id: KoID, parent: Option<KoID>) -> (r: UsrNs)
        ensures
            fresh_usr(NsEnum::UsrNs(r), id, parent),
    {
        UsrNs { base: NsBase::new(id, NSType::CLONE_NEWUSER, parent), usrname: "zcore".to_string() }
    }

    /// A root user namespace with id `id`. It is handed to the caller and
    /// not registered anywhere.
    pub fn new_root(id: KoID) -> (r: UsrNs)
        ensures
            fresh_usr(NsEnum::UsrNs(r), id, None),
    {
        UsrNs::new(id, None)
    }

    /// The name of the user.
    pub fn get_usrname(&self) -> (r: &str)
        ensures
            r@ == self.usrname@,
    {
        self.usrname.as_str()
    }
}

impl UsrNs {
    /// Makes a user namespace with id `id` under the user namespace
    /// `parent`, lists it as the parent's newest child and registers it;
    /// returns its id.
    pub fn new_child(mgr: &mut NsManager, parent: KoID, id: KoID) -> (r: KoID)
        requires
            old(mgr).wf(),
            old(mgr)@.contains_key(parent),
            old(mgr)@[parent] is UsrNs,
            !old(mgr)@.contains_key(id),
        ensures
            r == id,
            final(mgr).wf(),
            final(mgr).roots() == old(mgr).roots(),
            child_registered(old(mgr)@, final(mgr)@, parent, id, final(mgr)@[id]),
            fresh_usr(final(mgr)@[id], id, Some(parent)),
    {
        let child = UsrNs::new(id, Some(parent));
        mgr.register_child(parent, child.get_ns_instance())
    }
}

} // verus!
