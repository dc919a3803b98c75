//! Mount namespaces.
use vstd::prelude::*;
use crate::KoID;
use crate::nstype::NSType;
use crate::base::{NsBase, NS, fresh_base};
use crate::nsenum::NsEnum;
use crate::manager::{NsManager, child_registered};
use crate::proxy::proxy_changed;

verus! {

/// Handle of a file system object that the caller keeps; the namespace only
/// carries it.
pub type FsHandle = u64;

/// Handle of the root inode that the caller built for a mount namespace.
pub type InodeHandle = u64;

/// A mount namespace: the file system it was made from and its own root
/// inode, and the user namespace that owns it.
pub struct MntNs {
    pub base: NsBase,
    pub usr_ns: KoID,
    pub rootfs: FsHandle,
    pub root_inode: InodeHandle,
}

/// `e` is a mount namespace that has just been made with id `id` under
/// `parent`, with the given owner, file system and root inode.
pub open spec fn fresh_mnt(
    e: NsEnum,
    id: KoID,
    parent: Option<KoID>,
    usr_id: KoID,
    rootfs: FsHandle,
    root_inode: InodeHandle,
) -> bool {
    &&& e matches NsEnum::MntNs(n)
    &&& fresh_base(n.base, id, NSType::CLONE_NEWNS, parent)
    &&& n.usr_ns == usr_id
    &&& n.rootfs == rootfs
    &&& n.root_inode == root_inode
}

impl NS for MntNs {
    open spec fn ns_base_spec(&self) -> NsBase {
        self.base
    }

    fn get_ns_id(&self) -> (r: KoID) {
        self.base.id
    }

    fn get_ns_type(&self) -> (r: NSType) {
        self.base.nstype
    }

    fn get_ns_base(&self) -> (r: &NsBase) {
        &self.base
    }

    fn get_parent_ns(&self) -> (r: Option<KoID>) {
        self.base.parent
    }

    fn get_ns_instance(self) -> (r: NsEnum)
        ensures
            r == NsEnum::MntNs(self),
    {
        NsEnum::MntNs(self)
    }
}

impl MntNs {
    /// The user namespace that owns this one.
    pub fn get_usr_ns(&self) -> (r: KoID)
        ensures
            r == self.usr_ns,
    {
        self.usr_ns
    }

    /// The file system the namespace was made from.
    pub fn get_root_fs(&self) -> (r: &FsHandle)
        ensures
            *r == self.rootfs,
    {
        &self.rootfs
    }

    /// The root inode of the namespace.
    pub fn get_root_inode(&self) -> (r: &InodeHandle)
        ensures
            *r == self.root_inode,
    {
        &self.root_inode
    }

    fn new(
        id: KoID,
        parent: Option<KoID>,
        init_root_fs: FsHandle,
        usr_id: KoID,
        root_inode: InodeHandle,
    ) -> (r: MntNs)
        ensures
            fresh_mnt(NsEnum::MntNs(r), id, parent, usr_id, init_root_fs, root_inode),
    {
        MntNs {
            base: NsBase::new(id, NSType::CLONE_NEWNS, parent),
            rootfs: init_root_fs,
            usr_ns: usr_id,
            root_inode: root_inode,
        }
    }
}

impl MntNs {
    /// Makes the root mount namespace with id `id` on file system
    /// `init_root_fs` with root inode `root_inode`, owned by `usr_id`,
    /// records it as the root of its kind and registers it; returns its id.
    pub fn new_root(
        mgr: &mut NsManager,
        id: KoID,
        init_root_fs: FsHandle,
        usr_id: KoID,
        root_inode: InodeHandle,
    ) -> (r: KoID)
        requires
            old(mgr).wf(),
            !old(mgr)@.contains_key(id),
        ensures
            r == id,
            final(mgr).wf(),
            final(mgr)@ == old(mgr)@.insert(id, final(mgr)@[id]),
            fresh_mnt(final(mgr)@[id], id, None, usr_id, init_root_fs, root_inode),
            final(mgr).roots() == proxy_changed(old(mgr).roots(), NSType::CLONE_NEWNS, id),
    {
        let root = MntNs::new(id, None, init_root_fs, usr_id, root_inode);
        let root_id = root.get_ns_id();
        mgr.set_init_ns(NSType::CLONE_NEWNS, root_id);
        mgr.insert(root.get_ns_instance());
        root_id
    }

    /// Makes a mount namespace with id `id` under the mount namespace
    /// `parent`, on the parent's file system and owner, with its own root
    /// inode `root_inode`; lists it as the parent's newest child and
    /// registers it; returns its id.
    pub fn new_child(mgr: &mut NsManager, parent: KoID, id: KoID, root_inode: InodeHandle) -> (r:
        KoID)
        requires
            old(mgr).wf(),
            old(mgr)@.contains_key(parent),
            old(mgr)@[parent] is MntNs,
            !old(mgr)@.contains_key(id),
        ensures
            r == id,
            final(mgr).wf(),
            final(mgr).roots() == old(mgr).roots(),
            child_registered(old(mgr)@, final(mgr)@, parent, id, final(mgr)@[id]),
            old(mgr)@[parent] matches NsEnum::MntNs(p) && fresh_mnt(
                final(mgr)@[id],
                id,
                Some(parent),
                p.usr_ns,
                p.rootfs,
                root_inode,
            ),
    {
        let (rootfs, usr_id) = match mgr.get_ns(parent) {
            Some(NsEnum::MntNs(p)) => (p.rootfs, p.usr_ns),
            _ => {
                proof {
                    assert(false);
                }
                (0, 0)
            },
        };
        let child = MntNs::new(id, Some(parent), rootfs, usr_id, root_inode);
        mgr.register_child(parent, child.get_ns_instance())
    }
}

} // verus!
