//! What every namespace has: its id, its kind, its parent and its children,
//! and the operations common to all kinds.
use vstd::prelude::*;
use crate::KoID;
use crate::nstype::NSType;
use crate::nsenum::NsEnum;

verus! {

/// The part of a namespace that places it in the tree of namespaces of
/// its kind.
pub struct NsBase {
    /// The kernel object id of the namespace.
    pub id: KoID,
    /// The kind of the namespace.
    pub nstype: NSType,
    /// The namespace it was created from; `None` for a root.
    pub parent: Option<KoID>,
    /// The namespaces created from it, oldest first.
    pub child_ns_vec: Vec<KoID>,
}

/// `b` is the base of a namespace that has just been made: id `id`, kind
/// `t`, parent `parent` and no children yet.
pub open spec fn fresh_base(b: NsBase, id: KoID, t: NSType, parent: Option<KoID>) -> bool {
    &&& b.id == id
    &&& b.nstype == t
    &&& b.parent == parent
    &&& b.child_ns_vec@ == Seq::<KoID>::empty()
}

impl NsBase {
    /// The base of a new namespace of kind `nstype` with id `id`, under
    /// `parent`, without children.
    pub fn new(id: KoID, nstype: NSType, parent: Option<KoID>) -> (r: NsBase)
        ensures
            fresh_base(r, id, nstype, parent),
    {
        NsBase { id: id, nstype: nstype, parent: parent, child_ns_vec: Vec::new() }
    }
}

/// The operations that every kind of namespace offers.
pub trait NS: Sized {
    /// The base of the namespace.
    spec fn ns_base_spec(&self) -> NsBase;

    /// The id of the namespace.
    fn get_ns_id(&self) -> (r: KoID)
        ensures
            r == self.ns_base_spec().id,
    ;

    /// The kind recorded in the namespace.
    fn get_ns_type(&self) -> (r: NSType)
        ensures
            r == self.ns_base_spec().nstype,
    ;

    /// The base of the namespace.
    fn get_ns_base(&self) -> (r: &NsBase)
        ensures
            *r == self.ns_base_spec(),
    ;

    /// The id of the parent namespace, if any.
    fn get_parent_ns(&self) -> (r: Option<KoID>)
        ensures
            r == self.ns_base_spec().parent,
    ;

    /// The namespace as a value of the enum that the manager stores.
    fn get_ns_instance(self) -> (r: NsEnum)
        ensures
            r.spec_base() == self.ns_base_spec(),
    ;
}

} // verus!
