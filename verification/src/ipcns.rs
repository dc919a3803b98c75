//! IPC namespaces: which semaphore sets and shared memory segments a
//! namespace may reach.
use vstd::prelude::*;
use crate::KoID;
use crate::nstype::NSType;
use crate::base::{NsBase, NS, fresh_base};
use crate::nsenum::NsEnum;
use crate::manager::{NsManager, child_registered};
use crate::proxy::proxy_changed;

verus! {

/// Id of a semaphore set.
pub type SemId = usize;

/// Id of a shared memory segment.
pub type ShmId = usize;

/// An IPC namespace: the owning user namespace and the semaphore sets and
/// shared memory segments registered in it, in order of registration.
pub struct IpcNs {
    pub base: NsBase,
    pub usr_ns: KoID,
    pub sem_ids: Vec<SemId>,
    pub shm_ids: Vec<ShmId>,
}

/// `e` is an IPC namespace that has just been made with id `id` under
/// `parent`, owned by `usr_id`, with nothing registered; it records `CLONE_NEWNS`
/// as its kind flag.
pub open spec fn fresh_ipc(e: NsEnum, id: KoID, parent: Option<KoID>, usr_id: KoID) -> bool {
    &&& e matches NsEnum::IpcNs(n)
    &&& fresh_base(n.base, id, NSType::CLONE_NEWNS, parent)
    &&& n.usr_ns == usr_id
    &&& n.sem_ids@ == Seq::<SemId>::empty()
    &&& n.shm_ids@ == Seq::<ShmId>::empty()
}

/// Whether an IPC namespace reaches the entry at `idx` of a registration
/// list: the list is looked up by position, so every position below its
/// length is reachable.
pub open spec fn ipc_reaches(ids: Seq<usize>, idx: usize) -> bool {
    idx < ids.len()
}

impl NS for IpcNs {
    open spec fn ns_base_spec(&self) -> NsBase {
        self.base
    }

    fn get_ns_id(&self) -> (r: KoID) {
        self.base.id
    }

    fn get_ns_type(&self) -> (r: NSType) {
        self.base.nstype
    }

    fn get_ns_base(&self) -> (r: &NsBase) {
        &self.base
    }

    fn get_parent_ns(&self) -> (r: Option<KoID>) {
        self.base.parent
    }

    fn get_ns_instance(self) -> (r: NsEnum)
        ensures
            r == NsEnum::IpcNs(self),
    {
        NsEnum::IpcNs(self)
    }
}

impl IpcNs {
    /// The user namespace that owns this one.
    pub fn get_usr_ns(&self) -> (r: KoID)
        ensures
            r == self.usr_ns,
    {
        self.usr_ns
    }

    fn new(id: KoID, parent: Option<KoID>, usr_id: KoID) -> (r: IpcNs)
        ensures
            fresh_ipc(NsEnum::IpcNs(r), id, parent, usr_id),
    {
        IpcNs {
            base: NsBase::new(id, NSType::CLONE_NEWNS, parent),
            usr_ns: usr_id,
            sem_ids: Vec::new(),
            shm_ids: Vec::new(),
        }
    }

    /// Registers a semaphore set at the end of the list.
    pub fn insert_sem(&mut self, sem_id: SemId)
        ensures
            final(self).sem_ids@ == old(self).sem_ids@.push(sem_id),
            *final(self) == (IpcNs { sem_ids: final(self).sem_ids, ..*old(self) }),
    {
        self.sem_ids.push(sem_id);
    }

    /// Registers a shared memory segment at the end of the list.
    pub fn insert_shm(&mut self, shm_id: ShmId)
        ensures
            final(self).shm_ids@ == old(self).shm_ids@.push(shm_id),
            *final(self) == (IpcNs { shm_ids: final(self).shm_ids, ..*old(self) }),
    {
        self.shm_ids.push(shm_id);
    }

    /// Whether the semaphore list has an entry at position `sem_id`.
    pub fn sem_accessible(&self, sem_id: SemId) -> (r: bool)
        ensures
            r == ipc_reaches(self.sem_ids@, sem_id),
            r == (sem_id < self.sem_ids@.len()),
    {
        let search = self.sem_ids.get(sem_id);
        match search {
            Some(_) => true,
            None => false,
        }
    }

    /// Whether the shared memory list has an entry at position `shm_id`.
    pub fn shm_accessible(&self, shm_id: ShmId) -> (r: bool)
        ensures
            r == ipc_reaches(self.shm_ids@, shm_id),
            r == (shm_id < self.shm_ids@.len()),
    {
        let search = self.shm_ids.get(shm_id);
        match search {
            Some(_) => true,
            None => false,
        }
    }
}

impl IpcNs {
    /// Makes the root IPC namespace with id `id`, owned by `usr_id`,
    /// records it as the root of its kind and registers it; returns its id.
    pub fn new_root(mgr: &mut NsManager, id: KoID, usr_id: KoID) -> (r: KoID)
        requires
            old(mgr).wf(),
            !old(mgr)@.contains_key(id),
        ensures
            r == id,
            final(mgr).wf(),
            final(mgr)@ == old(mgr)@.insert(id, final(mgr)@[id]),
            fresh_ipc(final(mgr)@[id], id, None, usr_id),
            final(mgr).roots() == proxy_changed(old(mgr).roots(), NSType::CLONE_NEWIPC, id),
    {
        let root = IpcNs::new(id, None, usr_id);
        let root_id = root.get_ns_id();
        mgr.set_init_ns(NSType::CLONE_NEWIPC, root_id);
        mgr.insert(root.get_ns_instance());
        root_id
    }

    /// Makes a IPC namespace with id `id` under the IPC namespace
    /// `parent`, with the parent's owner, lists it as the parent's newest
    /// child and registers it; returns its id.
    pub fn new_child(mgr: &mut NsManager, parent: KoID, id: KoID) -> (r: KoID)
        requires
            old(mgr).wf(),
            old(mgr)@.contains_key(parent),
            old(mgr)@[parent] is IpcNs,
            !old(mgr)@.contains_key(id),
        ensures
            r == id,
            final(mgr).wf(),
            final(mgr).roots() == old(mgr).roots(),
            child_registered(old(mgr)@, final(mgr)@, parent, id, final(mgr)@[id]),
            old(mgr)@[parent] matches NsEnum::IpcNs(p) && fresh_ipc(
                final(mgr)@[id],
                id,
                Some(parent),
                p.usr_ns,
            ),
    {
        let usr_id = match mgr.get_ns(parent) {
            Some(NsEnum::IpcNs(p)) => p.usr_ns,
            _ => {
                proof {
                    assert(false);
                }
                0
            },
        };
        let child = IpcNs::new(id, Some(parent), usr_id);
        mgr.register_child(parent, child.get_ns_instance())
    }
}

/// `m` holds an IPC namespace under `ns_id`.
pub open spec fn has_ipc(m: Map<KoID, NsEnum>, ns_id: KoID) -> bool {
    m.contains_key(ns_id) && m[ns_id] is IpcNs
}

/// `m` holds an IPC namespace under `ns_id` that reaches semaphore entry
/// `sem_id`.
pub open spec fn sem_reachable(m: Map<KoID, NsEnum>, ns_id: KoID, sem_id: SemId) -> bool {
    &&& m.contains_key(ns_id)
    &&& m[ns_id] matches NsEnum::IpcNs(i)
    &&& ipc_reaches(i.sem_ids@, sem_id)
}

/// `m` holds an IPC namespace under `ns_id` that reaches shared memory entry
/// `shm_id`.
pub open spec fn shm_reachable(m: Map<KoID, NsEnum>, ns_id: KoID, shm_id: ShmId) -> bool {
    &&& m.contains_key(ns_id)
    &&& m[ns_id] matches NsEnum::IpcNs(i)
    &&& ipc_reaches(i.shm_ids@, shm_id)
}

/// `new` is the IPC namespace `old` with `sem_id` appended to its semaphore
/// list and nothing else changed.
pub open spec fn sem_registered(old: NsEnum, new: NsEnum, sem_id: SemId) -> bool {
    &&& old matches NsEnum::IpcNs(o)
    &&& new matches NsEnum::IpcNs(n)
    &&& n == IpcNs { sem_ids: n.sem_ids, ..o }
    &&& n.sem_ids@ == o.sem_ids@.push(sem_id)
}

/// `new` is the IPC namespace `old` with `shm_id` appended to its shared
/// memory list and nothing else changed.
pub open spec fn shm_registered(old: NsEnum, new: NsEnum, shm_id: ShmId) -> bool {
    &&& old matches NsEnum::IpcNs(o)
    &&& new matches NsEnum::IpcNs(n)
    &&& n == IpcNs { shm_ids: n.shm_ids, ..o }
    &&& n.shm_ids@ == o.shm_ids@.push(shm_id)
}

/// Registers semaphore set `sem_id` in the IPC namespace `ns_id`; nothing
/// changes when there is no IPC namespace under that id.
pub fn insert_sem(mgr: &mut NsManager, ns_id: KoID, sem_id: SemId)
    requires
        old(mgr).wf(),
    ensures
        final(mgr).wf(),
        final(mgr).roots() == old(mgr).roots(),
        !has_ipc(old(mgr)@, ns_id) ==> final(mgr)@ == old(mgr)@,
        has_ipc(old(mgr)@, ns_id) ==> {
            &&& final(mgr)@ == old(mgr)@.insert(ns_id, final(mgr)@[ns_id])
            &&& sem_registered(old(mgr)@[ns_id], final(mgr)@[ns_id], sem_id)
        },        old(mgr)@.contains_key(ns_id) && old(mgr)@[ns_id] is IpcNs ==> {
            &&& final(mgr)@.dom() == old(mgr)@.dom()
            &&& final(mgr)@[ns_id] is IpcNs
            &&& final(mgr)@[ns_id]->IpcNs_0.sem_ids@ == old(mgr)@[ns_id]->IpcNs_0.sem_ids@.push(sem_id)
            &&& forall|k: KoID| #![trigger final(mgr)@[k]]
                old(mgr)@.contains_key(k) && k != ns_id ==> final(mgr)@[k] == old(mgr)@[k]
        },
        !(old(mgr)@.contains_key(ns_id) && old(mgr)@[ns_id] is IpcNs) ==> final(mgr)@ == old(mgr)@,
{
    let found = match mgr.get_ns(ns_id) {
        Some(NsEnum::IpcNs(_)) => true,
        _ => false,
    };
    if found {
        let e = mgr.get_ns_mut(ns_id);
        match e {
            NsEnum::IpcNs(i) => i.insert_sem(sem_id),
            _ => (),
        }
    }
}

/// Registers shared memory segment `shm_id` in the IPC namespace `ns_id`;
/// nothing changes when there is no IPC namespace under that id.
pub fn insert_shm(mgr: &mut NsManager, ns_id: KoID, shm_id: ShmId)
    requires
        old(mgr).wf(),
    ensures
        final(mgr).wf(),
        final(mgr).roots() == old(mgr).roots(),
        !has_ipc(old(mgr)@, ns_id) ==> final(mgr)@ == old(mgr)@,
        has_ipc(old(mgr)@, ns_id) ==> {
            &&& final(mgr)@ == old(mgr)@.insert(ns_id, final(mgr)@[ns_id])
            &&& shm_registered(old(mgr)@[ns_id], final(mgr)@[ns_id], shm_id)
        },        old(mgr)@.contains_key(ns_id) && old(mgr)@[ns_id] is IpcNs ==> {
            &&& final(mgr)@.dom() == old(mgr)@.dom()
            &&& final(mgr)@[ns_id] is IpcNs
            &&& final(mgr)@[ns_id]->IpcNs_0.shm_ids@ == old(mgr)@[ns_id]->IpcNs_0.shm_ids@.push(shm_id)
            &&& forall|k: KoID| #![trigger final(mgr)@[k]]
                old(mgr)@.contains_key(k) && k != ns_id ==> final(mgr)@[k] == old(mgr)@[k]
        },
        !(old(mgr)@.contains_key(ns_id) && old(mgr)@[ns_id] is IpcNs) ==> final(mgr)@ == old(mgr)@,
{
    let found = match mgr.get_ns(ns_id) {
        Some(NsEnum::IpcNs(_)) => true,
        _ => false,
    };
    if found {
        let e = mgr.get_ns_mut(ns_id);
        match e {
            NsEnum::IpcNs(i) => i.insert_shm(shm_id),
            _ => (),
        }
    }
}

/// Whether the IPC namespace `ns_id` reaches semaphore entry `sem_id`;
/// `false` when there is no IPC namespace under that id.
pub fn sem_accessible(mgr: &NsManager, ns_id: KoID, sem_id: SemId) -> (r: bool)
    ensures
        r == sem_reachable(mgr@, ns_id, sem_id),
        r == (mgr@.contains_key(ns_id) && mgr@[ns_id] is IpcNs && sem_id
            < mgr@[ns_id]->IpcNs_0.sem_ids@.len()),
{
    match mgr.get_ns(ns_id) {
        Some(NsEnum::IpcNs(i)) => i.sem_accessible(sem_id),
        _ => false,
    }
}

/// Whether the IPC namespace `ns_id` reaches shared memory entry `shm_id`;
/// `false` when there is no IPC namespace under that id.
pub fn shm_accessible(mgr: &NsManager, ns_id: KoID, shm_id: ShmId) -> (r: bool)
    ensures
        r == shm_reachable(mgr@, ns_id, shm_id),
        r == (mgr@.contains_key(ns_id) && mgr@[ns_id] is IpcNs && shm_id
            < mgr@[ns_id]->IpcNs_0.shm_ids@.len()),
{
    match mgr.get_ns(ns_id) {
        Some(NsEnum::IpcNs(i)) => i.shm_accessible(shm_id),
        _ => false,
    }
}

/// Registering an entry keeps every reachable position reachable, and makes
/// the position it was appended at reachable; so an id no larger than the
/// number of entries before it is reachable once registered.
pub proof fn lemma_registered_sem_reachable(old: NsEnum, new: NsEnum, sem_id: SemId, idx: usize)
    requires
        sem_registered(old, new, sem_id),
    ensures
        old matches NsEnum::IpcNs(o) && new matches NsEnum::IpcNs(n) && {
            &&& ipc_reaches(o.sem_ids@, idx) ==> ipc_reaches(n.sem_ids@, idx)
            &&& idx == o.sem_ids@.len() ==> ipc_reaches(n.sem_ids@, idx)
            &&& sem_id <= o.sem_ids@.len() ==> ipc_reaches(n.sem_ids@, sem_id)
            &&& n.sem_ids@[o.sem_ids@.len() as int] == sem_id
        },
{
}

/// The same for shared memory entries.
pub proof fn lemma_registered_shm_reachable(old: NsEnum, new: NsEnum, shm_id: ShmId, idx: usize)
    requires
        shm_registered(old, new, shm_id),
    ensures
        old matches NsEnum::IpcNs(o) && new matches NsEnum::IpcNs(n) && {
            &&& ipc_reaches(o.shm_ids@, idx) ==> ipc_reaches(n.shm_ids@, idx)
            &&& idx == o.shm_ids@.len() ==> ipc_reaches(n.shm_ids@, idx)
            &&& shm_id <= o.shm_ids@.len() ==> ipc_reaches(n.shm_ids@, shm_id)
            &&& n.shm_ids@[o.shm_ids@.len() as int] == shm_id
        },
{
}

/// Whether a namespace reaches semaphore set entry `sem_id` depends only on that
/// namespace: two managers that hold the same entry under `ns_id` agree,
/// whatever their other namespaces (the parent included) have registered.
pub proof fn lemma_sem_reach_is_local(
    m1: Map<KoID, NsEnum>,
    m2: Map<KoID, NsEnum>,
    ns_id: KoID,
    sem_id: SemId,
)
    requires
        m1.contains_key(ns_id) == m2.contains_key(ns_id),
        m1.contains_key(ns_id) ==> m1[ns_id] == m2[ns_id],
    ensures
        sem_reachable(m1, ns_id, sem_id) == sem_reachable(m2, ns_id, sem_id),
{
}

/// A namespace reaches semaphore set entry `sem_id` exactly when it is an IPC
/// namespace whose own list has more than `sem_id` entries; every IPC
/// namespace may register, whatever its children.
pub proof fn lemma_sem_reach_own_list(m: Map<KoID, NsEnum>, ns_id: KoID, sem_id: SemId, i: IpcNs)
    requires
        m.contains_key(ns_id),
        m[ns_id] == NsEnum::IpcNs(i),
    ensures
        sem_reachable(m, ns_id, sem_id) <==> sem_id < i.sem_ids@.len(),
        has_ipc(m, ns_id),
        sem_reachable(m, ns_id, sem_id) ==> sem_id < i.sem_ids@.len(),
{
}

/// Without an IPC namespace under `ns_id` no entry is reachable.
pub proof fn lemma_sem_reach_needs_ipc(m: Map<KoID, NsEnum>, ns_id: KoID, sem_id: SemId)
    requires
        !(m.contains_key(ns_id) && m[ns_id] is IpcNs),
    ensures
        !sem_reachable(m, ns_id, sem_id),
        !has_ipc(m, ns_id),
{
}

/// Registering an entry in an IPC namespace appends it to that namespace's
/// own list, so the position it lands at becomes reachable there.
pub proof fn lemma_sem_registered_appends(old: NsEnum, new: NsEnum, sem_id: SemId)
    requires
        sem_registered(old, new, sem_id),
    ensures
        old is IpcNs,
        new is IpcNs,
        new->IpcNs_0.sem_ids@ == old->IpcNs_0.sem_ids@.push(sem_id),
        new->IpcNs_0.base == old->IpcNs_0.base,
{
}

/// Whether a namespace reaches shared memory segment entry `shm_id` depends only on that
/// namespace: two managers that hold the same entry under `ns_id` agree,
/// whatever their other namespaces (the parent included) have registered.
pub proof fn lemma_shm_reach_is_local(
    m1: Map<KoID, NsEnum>,
    m2: Map<KoID, NsEnum>,
    ns_id: KoID,
    shm_id: ShmId,
)
    requires
        m1.contains_key(ns_id) == m2.contains_key(ns_id),
        m1.contains_key(ns_id) ==> m1[ns_id] == m2[ns_id],
    ensures
        shm_reachable(m1, ns_id, shm_id) == shm_reachable(m2, ns_id, shm_id),
{
}

/// A namespace reaches shared memory segment entry `shm_id` exactly when it is an IPC
/// namespace whose own list has more than `shm_id` entries; every IPC
/// namespace may register, whatever its children.
pub proof fn lemma_shm_reach_own_list(m: Map<KoID, NsEnum>, ns_id: KoID, shm_id: ShmId, i: IpcNs)
    requires
        m.contains_key(ns_id),
        m[ns_id] == NsEnum::IpcNs(i),
    ensures
        shm_reachable(m, ns_id, shm_id) <==> shm_id < i.shm_ids@.len(),
        has_ipc(m, ns_id),
        shm_reachable(m, ns_id, shm_id) ==> shm_id < i.shm_ids@.len(),
{
}

/// Without an IPC namespace under `ns_id` no entry is reachable.
pub proof fn lemma_shm_reach_needs_ipc(m: Map<KoID, NsEnum>, ns_id: KoID, shm_id: ShmId)
    requires
        !(m.contains_key(ns_id) && m[ns_id] is IpcNs),
    ensures
        !shm_reachable(m, ns_id, shm_id),
        !has_ipc(m, ns_id),
{
}

/// Registering an entry in an IPC namespace appends it to that namespace's
/// own list, so the position it lands at becomes reachable there.
pub proof fn lemma_shm_registered_appends(old: NsEnum, new: NsEnum, shm_id: ShmId)
    requires
        shm_registered(old, new, shm_id),
    ensures
        old is IpcNs,
        new is IpcNs,
        new->IpcNs_0.shm_ids@ == old->IpcNs_0.shm_ids@.push(shm_id),
        new->IpcNs_0.base == old->IpcNs_0.base,
{
}

} // verus!
