//! The manager that holds every namespace by id, keeps the namespaces of
//! each kind in a tree, and records the root namespace of each kind.
use vstd::prelude::*;
use hashbrown::HashMap;
use crate::KoID;
use crate::nstype::NSType;
use crate::base::NS;
use crate::nsenum::NsEnum;
use crate::pidns::{pid_keys, pids_visible_upward};
use crate::proxy::{NsProxy, proxy_changed, proxy_zero, proxy_ns};
use crate::table::{ns_table, ns_table_new, ns_table_insert, ns_table_get, ns_table_get_mut};

verus! {

/// The parent of `k` in `m`, if `k` is there and has one.
pub open spec fn parent_in(m: Map<KoID, NsEnum>, k: KoID) -> Option<KoID> {
    if m.contains_key(k) {
        m[k].spec_base().parent
    } else {
        None
    }
}

/// The children of `k` in `m`.
pub open spec fn children_in(m: Map<KoID, NsEnum>, k: KoID) -> Seq<KoID> {
    m[k].spec_base().child_ns_vec@
}

/// The ancestor of `k` that is `n` steps up in `m`: `k` itself for 0 steps.
pub open spec fn ancestor(m: Map<KoID, NsEnum>, k: KoID, n: nat) -> Option<KoID>
    decreases n,
{
    if n == 0 {
        Some(k)
    } else {
        match ancestor(m, k, (n - 1) as nat) {
            Some(a) => parent_in(m, a),
            None => None,
        }
    }
}

/// `k` is `start` or one of its ancestors in `m`.
pub open spec fn on_chain(m: Map<KoID, NsEnum>, start: KoID, k: KoID) -> bool {
    exists|n: nat| #[trigger] ancestor(m, start, n) == Some(k)
}

/// `ns` can join a manager as a new root: no parent, no children, its kind
/// recorded correctly.
pub open spec fn is_lone_root(ns: NsEnum) -> bool {
    &&& ns.spec_base().parent is None
    &&& ns.spec_base().child_ns_vec@ == Seq::<KoID>::empty()
    &&& ns.kind_ok()
    &&& ns.payload_wf()
}

/// `new` is `old` with `c` appended to its children and nothing else changed.
pub open spec fn child_appended(old: NsEnum, new: NsEnum, c: KoID) -> bool {
    &&& new == old.with_base(new.spec_base())
    &&& new.spec_base().id == old.spec_base().id
    &&& new.spec_base().nstype == old.spec_base().nstype
    &&& new.spec_base().parent == old.spec_base().parent
    &&& new.spec_base().child_ns_vec@ == old.spec_base().child_ns_vec@.push(c)
}

/// `new` is `old` with namespace `id` added under `parent`: the parent lists
/// it as its last child, it holds `ns`, and every other entry is unchanged.
pub open spec fn child_registered(
    old: Map<KoID, NsEnum>,
    new: Map<KoID, NsEnum>,
    parent: KoID,
    id: KoID,
    ns: NsEnum,
) -> bool {
    &&& new.dom() == old.dom().insert(id)
    &&& new[id] == ns
    &&& child_appended(old[parent], new[parent], id)
    &&& forall|k: KoID| old.contains_key(k) && k != parent ==> new[k] == old[k]
}

/// The entry under `k` is consistent with the rest of the table: it carries
/// id `k` and its own kind, its parent is present, of the same kind, lists
/// it among its children and lies strictly closer to the root, and each of
/// its children, listed once, is present and names it as parent.
spec fn entry_wf(m: Map<KoID, NsEnum>, d: Map<KoID, nat>, k: KoID) -> bool {
    let b = m[k].spec_base();
    &&& b.id == k
    &&& m[k].kind_ok()
    &&& m[k].payload_wf()
    &&& d.contains_key(k)
    &&& b.child_ns_vec@.no_duplicates()
    &&& (b.parent matches Some(p) ==> {
        &&& m.contains_key(p)
        &&& m[p].kind() == m[k].kind()
        &&& m[p].spec_base().child_ns_vec@.contains(k)
        &&& d[p] < d[k]
    })
    &&& forall|i: int|
        0 <= i < b.child_ns_vec@.len() ==> child_ok(m, k, #[trigger] b.child_ns_vec@[i])
}

spec fn child_ok(m: Map<KoID, NsEnum>, k: KoID, c: KoID) -> bool {
    m.contains_key(c) && m[c].spec_base().parent == Some(k)
}

spec fn tree_wf(m: Map<KoID, NsEnum>, d: Map<KoID, nat>) -> bool {
    forall|k: KoID| m.contains_key(k) ==> #[trigger] entry_wf(m, d, k)
}

/// Every namespace, by id, with the root namespace of each kind.
pub struct NsManager {
    ns_hash: HashMap<KoID, NsEnum>,
    init_ns: NsProxy,
    depth: Ghost<Map<KoID, nat>>,
}

impl View for NsManager {
    type V = Map<KoID, NsEnum>;

    closed spec fn view(&self) -> Map<KoID, NsEnum> {
        ns_table(self.ns_hash)
    }
}

impl NsManager {
    /// The root namespace of each kind, as a proxy.
    pub closed spec fn roots(&self) -> NsProxy {
        self.init_ns
    }

    /// How many steps namespace `k` lies below its root.
    pub closed spec fn depth_of(&self, k: KoID) -> nat {
        self.depth@[k]
    }

    /// The namespaces of each kind form a tree, as `entry_wf` describes.
    pub closed spec fn shape_wf(&self) -> bool {
        tree_wf(self@, self.depth@)
    }

    /// The namespaces form trees, and every process that a PID namespace
    /// numbers is numbered by its parent too.
    pub open spec fn wf(&self) -> bool {
        &&& self.shape_wf()
        &&& pids_visible_upward(self@)
    }

    /// An empty manager whose roots are all namespace 0.
    pub fn init() -> (r: NsManager)
        ensures
            r.wf(),
            r@ == Map::<KoID, NsEnum>::empty(),
            r.roots() == proxy_zero(),
    {
        NsManager { ns_hash: ns_table_new(), init_ns: NsProxy::new(), depth: Ghost(Map::empty()) }
    }

    /// The root namespace of each kind.
    pub fn get_root(&self) -> (r: NsProxy)
        ensures
            r == self.roots(),
    {
        self.init_ns
    }

    /// The namespace with id `ns_id`, if there is one.
    pub fn get_ns(&self, ns_id: KoID) -> (r: Option<&NsEnum>)
        ensures
            r == (if self@.contains_key(ns_id) { Some(&self@[ns_id]) } else { None }),
    {
        ns_table_get(&self.ns_hash, ns_id)
    }

    /// Stores `ns` under its own id, replacing what was there, and returns
    /// the id. A lone root under a new id keeps the manager well formed.
    pub fn insert(&mut self, ns: NsEnum) -> (r: KoID)
        ensures
            r == ns.spec_base().id,
            final(self)@ == old(self)@.insert(r, ns),
            final(self).roots() == old(self).roots(),
            old(self).wf() && !old(self)@.contains_key(r) && is_lone_root(ns) ==> final(self).wf(),
    {
        let id = ns.get_ns_id();
        proof {
            let ghost m = self@;
            let ghost d = self.depth@;
            if tree_wf(m, d) && !m.contains_key(id) && is_lone_root(ns) {
                lemma_insert_root_wf(m, d, id, ns);
                if pids_visible_upward(m) {
                    lemma_insert_root_visible(m, d, id, ns);
                }
            }
            self.depth@ = self.depth@.insert(id, 0);
        }
        ns_table_insert(&mut self.ns_hash, id, ns);
        id
    }

    /// Records `ns` as the root namespace of kind `nstype`.
    pub fn set_init_ns(&mut self, nstype: NSType, ns: KoID)
        ensures
            final(self).roots() == proxy_changed(old(self).roots(), nstype, ns),
            final(self)@ == old(self)@,
            old(self).wf() ==> final(self).wf(),
    {
        self.init_ns = self.init_ns.changed(nstype, ns);
    }

    /// A reference to the namespace `ns_id`. The manager stays well formed
    /// if the namespace keeps its base and its kind and its state stays
    /// consistent.
    pub(crate) fn get_ns_mut(&mut self, ns_id: KoID) -> (r: &mut NsEnum)
        requires
            old(self)@.contains_key(ns_id),
        ensures
            *r == old(self)@[ns_id],
            final(self)@ == old(self)@.insert(ns_id, *final(r)),
            final(self).roots() == old(self).roots(),
            forall|k: KoID| #[trigger] final(self).depth_of(k) == old(self).depth_of(k),
            old(self).shape_wf() && final(r).spec_base() == old(self)@[ns_id].spec_base()
                && final(r).kind() == old(self)@[ns_id].kind() && final(r).payload_wf()
                ==> final(self).shape_wf(),
            old(self).wf() && final(r).spec_base() == old(self)@[ns_id].spec_base()
                && final(r).kind() == old(self)@[ns_id].kind() && final(r).payload_wf() && pid_keys(
                *final(r),
            ) == pid_keys(old(self)@[ns_id]) ==> final(self).wf(),
    {
        proof {
            let ghost m = self@;
            let ghost d = self.depth@;
            if tree_wf(m, d) {
                lemma_replace_keeps_wf(m, d, ns_id);
                if pids_visible_upward(m) {
                    lemma_replace_keeps_visible(m, d, ns_id);
                }
            }
        }
        ns_table_get_mut(&mut self.ns_hash, ns_id)
    }

    /// Adds `ns` under its id as the newest child of `parent`.
    pub(crate) fn register_child(&mut self, parent: KoID, ns: NsEnum) -> (r: KoID)
        requires
            old(self).wf(),
            old(self)@.contains_key(parent),
            !old(self)@.contains_key(ns.spec_base().id),
            ns.spec_base().parent == Some(parent),
            ns.spec_base().child_ns_vec@ == Seq::<KoID>::empty(),
            ns.kind_ok(),
            ns.payload_wf(),
            pid_keys(ns) =~= Set::<KoID>::empty(),
            ns.kind() == old(self)@[parent].kind(),
        ensures
            r == ns.spec_base().id,
            final(self).wf(),
            final(self).roots() == old(self).roots(),
            child_registered(old(self)@, final(self)@, parent, r, ns),
    {
        let id = ns.get_ns_id();
        let ghost m0 = self@;
        let ghost d0 = self.depth@;
        let p = ns_table_get_mut(&mut self.ns_hash, parent);
        p.push_child(id);
        let ghost m1 = self@;
        ns_table_insert(&mut self.ns_hash, id, ns);
        proof {
            self.depth@ = d0.insert(id, d0[parent] + 1);
            assert(m1.dom() =~= m0.dom());
            lemma_add_child_wf(m0, d0, parent, id, ns, m1, self@, self.depth@);
            lemma_add_child_visible(m0, d0, parent, id, ns, m1, self@);
        }
        id
    }
}

proof fn lemma_insert_root_visible(m: Map<KoID, NsEnum>, d: Map<KoID, nat>, id: KoID, ns: NsEnum)
    requires
        tree_wf(m, d),
        pids_visible_upward(m),
        !m.contains_key(id),
        is_lone_root(ns),
        ns.spec_base().id == id,
    ensures
        pids_visible_upward(m.insert(id, ns)),
{
    let m2 = m.insert(id, ns);
    assert forall|k: KoID| m2.contains_key(k) && #[trigger] parent_in(m2, k) is Some implies pid_keys(
        m2[k],
    ).subset_of(pid_keys(m2[parent_in(m2, k).unwrap()])) by {
        assert(k != id);
        assert(parent_in(m, k) is Some);
        assert(entry_wf(m, d, k));
    }
}

proof fn lemma_replace_keeps_visible(m: Map<KoID, NsEnum>, d: Map<KoID, nat>, id: KoID)
    requires
        tree_wf(m, d),
        pids_visible_upward(m),
        m.contains_key(id),
    ensures
        forall|v: NsEnum|
            v.spec_base() == m[id].spec_base() && pid_keys(v) == pid_keys(m[id])
                ==> #[trigger] pids_visible_upward(m.insert(id, v)),
{
    assert forall|v: NsEnum|
        v.spec_base() == m[id].spec_base() && pid_keys(v) == pid_keys(m[id])
        implies #[trigger] pids_visible_upward(m.insert(id, v)) by {
        let m2 = m.insert(id, v);
        assert forall|k: KoID| m2.contains_key(k) && #[trigger] parent_in(m2, k) is Some implies pid_keys(
            m2[k],
        ).subset_of(pid_keys(m2[parent_in(m2, k).unwrap()])) by {
            assert(parent_in(m2, k) == parent_in(m, k));
            assert(parent_in(m, k) is Some);
        }
    }
}

proof fn lemma_add_child_visible(
    m0: Map<KoID, NsEnum>,
    d0: Map<KoID, nat>,
    parent: KoID,
    id: KoID,
    ns: NsEnum,
    m1: Map<KoID, NsEnum>,
    m2: Map<KoID, NsEnum>,
)
    requires
        tree_wf(m0, d0),
        pids_visible_upward(m0),
        m0.contains_key(parent),
        !m0.contains_key(id),
        ns.spec_base().parent == Some(parent),
        pid_keys(ns) =~= Set::<KoID>::empty(),
        m1.dom() == m0.dom(),
        child_appended(m0[parent], m1[parent], id),
        forall|k: KoID| m0.contains_key(k) && k != parent ==> m1[k] == m0[k],
        m2 == m1.insert(id, ns),
    ensures
        pids_visible_upward(m2),
{
    assert(pid_keys(m1[parent]) == pid_keys(m0[parent]));
    assert forall|k: KoID| m2.contains_key(k) && #[trigger] parent_in(m2, k) is Some implies pid_keys(
        m2[k],
    ).subset_of(pid_keys(m2[parent_in(m2, k).unwrap()])) by {
        if k != id {
            assert(m2[k].spec_base().parent == m0[k].spec_base().parent);
            assert(parent_in(m0, k) is Some);
            assert(pid_keys(m2[k]) == pid_keys(m0[k]));
            assert(entry_wf(m0, d0, k));
            let p = parent_in(m0, k).unwrap();
            assert(p != id);
            assert(pid_keys(m2[p]) == pid_keys(m0[p]));
        }
    }
}

proof fn lemma_insert_root_wf(m: Map<KoID, NsEnum>, d: Map<KoID, nat>, id: KoID, ns: NsEnum)
    requires
        tree_wf(m, d),
        !m.contains_key(id),
        is_lone_root(ns),
        ns.spec_base().id == id,
    ensures
        tree_wf(m.insert(id, ns), d.insert(id, 0)),
{
    let m2 = m.insert(id, ns);
    let d2 = d.insert(id, 0);
    assert forall|k: KoID| m2.contains_key(k) implies #[trigger] entry_wf(m2, d2, k) by {
        if k != id {
            assert(entry_wf(m, d, k));
            let b = m[k].spec_base();
            assert forall|i: int| 0 <= i < b.child_ns_vec@.len() implies child_ok(
                m2,
                k,
                #[trigger] b.child_ns_vec@[i],
            ) by {
                assert(child_ok(m, k, b.child_ns_vec@[i]));
            }
        }
    }
}

proof fn lemma_replace_keeps_wf(m: Map<KoID, NsEnum>, d: Map<KoID, nat>, id: KoID)
    requires
        tree_wf(m, d),
        m.contains_key(id),
    ensures
        forall|v: NsEnum|
            v.spec_base() == m[id].spec_base() && v.kind() == m[id].kind() && v.payload_wf()
                ==> #[trigger] tree_wf(m.insert(id, v), d),
{
    assert forall|v: NsEnum|
        v.spec_base() == m[id].spec_base() && v.kind() == m[id].kind() && v.payload_wf()
        implies #[trigger] tree_wf(
        m.insert(id, v),
        d,
    ) by {
        let m2 = m.insert(id, v);
        assert forall|k: KoID| m2.contains_key(k) implies #[trigger] entry_wf(m2, d, k) by {
            assert(entry_wf(m, d, k));
            let b = m[k].spec_base();
            assert(m2[k].spec_base() == b);
            assert forall|i: int| 0 <= i < b.child_ns_vec@.len() implies child_ok(
                m2,
                k,
                #[trigger] b.child_ns_vec@[i],
            ) by {
                assert(child_ok(m, k, b.child_ns_vec@[i]));
            }
        }
    }
}

proof fn lemma_add_child_wf(
    m0: Map<KoID, NsEnum>,
    d0: Map<KoID, nat>,
    parent: KoID,
    id: KoID,
    ns: NsEnum,
    m1: Map<KoID, NsEnum>,
    m2: Map<KoID, NsEnum>,
    d2: Map<KoID, nat>,
)
    requires
        tree_wf(m0, d0),
        m0.contains_key(parent),
        !m0.contains_key(id),
        ns.spec_base().id == id,
        ns.spec_base().parent == Some(parent),
        ns.spec_base().child_ns_vec@ == Seq::<KoID>::empty(),
        ns.kind_ok(),
        ns.payload_wf(),
        ns.kind() == m0[parent].kind(),
        m1.dom() == m0.dom(),
        child_appended(m0[parent], m1[parent], id),
        forall|k: KoID| m0.contains_key(k) && k != parent ==> m1[k] == m0[k],
        m2 == m1.insert(id, ns),
        d2 == d0.insert(id, d0[parent] + 1),
    ensures
        tree_wf(m2, d2),
        child_registered(m0, m2, parent, id, ns),
{
    assert(entry_wf(m0, d0, parent));
    assert(m1[parent].kind() == m0[parent].kind());
    assert(m1[parent].spec_base().child_ns_vec@.contains(id)) by {
        assert(m1[parent].spec_base().child_ns_vec@.last() == id);
    }
    assert forall|k: KoID| m2.contains_key(k) implies #[trigger] entry_wf(m2, d2, k) by {
        if k == id {
            assert(m2[parent] == m1[parent]);
        } else {
            assert(entry_wf(m0, d0, k));
            let b0 = m0[k].spec_base();
            let b2 = m2[k].spec_base();
            assert(b2.id == b0.id && b2.parent == b0.parent && b2.nstype == b0.nstype);
            assert(m2[k].kind() == m0[k].kind());
            if let Some(p) = b0.parent {
                assert(entry_wf(m0, d0, p));
                assert(m2[p].kind() == m0[p].kind());
                if p == parent {
                    assert(m2[p].spec_base().child_ns_vec@ == m0[p].spec_base().child_ns_vec@.push(
                        id,
                    ));
                    let j = choose|j: int|
                        0 <= j < m0[p].spec_base().child_ns_vec@.len()
                            && m0[p].spec_base().child_ns_vec@[j] == k;
                    assert(m2[p].spec_base().child_ns_vec@[j] == k);
                }
            }
            if k == parent {
                assert(!b0.child_ns_vec@.contains(id)) by {
                    if b0.child_ns_vec@.contains(id) {
                        let j = choose|j: int|
                            0 <= j < b0.child_ns_vec@.len() && b0.child_ns_vec@[j] == id;
                        assert(child_ok(m0, k, b0.child_ns_vec@[j]));
                    }
                }
                assert forall|i: int| 0 <= i < b2.child_ns_vec@.len() implies child_ok(
                    m2,
                    k,
                    #[trigger] b2.child_ns_vec@[i],
                ) by {
                    if i < b0.child_ns_vec@.len() {
                        assert(b2.child_ns_vec@[i] == b0.child_ns_vec@[i]);
                        assert(child_ok(m0, k, b0.child_ns_vec@[i]));
                        let c = b0.child_ns_vec@[i];
                        if c == parent {
                            assert(m0[c].spec_base().parent == Some(parent));
                        }
                    }
                }
            } else {
                assert(b2.child_ns_vec@ == b0.child_ns_vec@);
                assert forall|i: int| 0 <= i < b2.child_ns_vec@.len() implies child_ok(
                    m2,
                    k,
                    #[trigger] b2.child_ns_vec@[i],
                ) by {
                    assert(child_ok(m0, k, b0.child_ns_vec@[i]));
                    let c = b0.child_ns_vec@[i];
                    if c == parent {
                        assert(m2[c].spec_base().parent == m0[c].spec_base().parent);
                    }
                }
            }
        }
    }
    assert(m2.dom() =~= m0.dom().insert(id));
}

/// In a well-formed manager a namespace carries its id, its kind and
/// consistent state of that kind; its parent is present, is of
/// the same kind, lists it among its children, and lies closer to the root.
pub proof fn lemma_parent_present(mgr: &NsManager, k: KoID)
    requires
        mgr.wf(),
        mgr@.contains_key(k),
    ensures
        mgr@[k].spec_base().id == k,
        mgr@[k].kind_ok(),
        mgr@[k].payload_wf(),
        mgr@[k].spec_base().parent matches Some(p) ==> {
            &&& mgr@.contains_key(p)
            &&& mgr@[p].kind() == mgr@[k].kind()
            &&& children_in(mgr@, p).contains(k)
            &&& mgr.depth_of(p) < mgr.depth_of(k)
        },
{
    assert(entry_wf(mgr@, mgr.depth@, k));
}

/// In a well-formed manager every child that a namespace lists is present,
/// names it as parent, and is listed only once.
pub proof fn lemma_children_present(mgr: &NsManager, k: KoID, c: KoID)
    requires
        mgr.wf(),
        mgr@.contains_key(k),
        children_in(mgr@, k).contains(c),
    ensures
        mgr@.contains_key(c),
        parent_in(mgr@, c) == Some(k),
        children_in(mgr@, k).no_duplicates(),
{
    assert(entry_wf(mgr@, mgr.depth@, k));
    let j = choose|j: int| 0 <= j < children_in(mgr@, k).len() && children_in(mgr@, k)[j] == c;
    assert(child_ok(mgr@, k, children_in(mgr@, k)[j]));
}

/// Every ancestor of a namespace in a well-formed manager is present and of
/// the same kind, and a proper ancestor lies strictly closer to the root.
pub proof fn lemma_ancestor_closer(mgr: &NsManager, k: KoID, n: nat)
    requires
        mgr.wf(),
        mgr@.contains_key(k),
    ensures
        ancestor(mgr@, k, n) matches Some(a) ==> {
            &&& mgr@.contains_key(a)
            &&& mgr@[a].kind() == mgr@[k].kind()
            &&& n > 0 ==> mgr.depth_of(a) < mgr.depth_of(k)
        },
    decreases n,
{
    if n > 0 {
        lemma_ancestor_closer(mgr, k, (n - 1) as nat);
        if let Some(a) = ancestor(mgr@, k, (n - 1) as nat) {
            lemma_parent_present(mgr, a);
        }
    }
}

/// No namespace is its own proper ancestor: the parent links hold no cycle.
pub proof fn lemma_no_cycle(mgr: &NsManager, k: KoID, n: nat)
    requires
        mgr.wf(),
        mgr@.contains_key(k),
        n > 0,
    ensures
        ancestor(mgr@, k, n) != Some(k),
{
    lemma_ancestor_closer(mgr, k, n);
}

/// Once the walk up from `k` has left the table, it stays out.
pub proof fn lemma_ancestor_none_stays(m: Map<KoID, NsEnum>, k: KoID, j: nat, j2: nat)
    requires
        ancestor(m, k, j) is None,
        j <= j2,
    ensures
        ancestor(m, k, j2) is None,
    decreases j2 - j,
{
    if j < j2 {
        lemma_ancestor_none_stays(m, k, j, (j2 - 1) as nat);
    }
}

/// Two tables with the same keys and the same parent links have the same
/// ancestors.
pub proof fn lemma_same_links_same_ancestors(
    m1: Map<KoID, NsEnum>,
    m2: Map<KoID, NsEnum>,
    k: KoID,
    n: nat,
)
    requires
        forall|x: KoID| #[trigger] parent_in(m1, x) == parent_in(m2, x),
    ensures
        ancestor(m1, k, n) == ancestor(m2, k, n),
    decreases n,
{
    if n > 0 {
        lemma_same_links_same_ancestors(m1, m2, k, (n - 1) as nat);
    }
}

/// A namespace is never found by walking up from its parent: the walk up
/// from a parent never comes back down to its child.
pub proof fn lemma_not_above_itself(mgr: &NsManager, k: KoID)
    requires
        mgr.wf(),
        mgr@.contains_key(k),
    ensures
        parent_in(mgr@, k) matches Some(p) ==> !on_chain(mgr@, p, k),
{
    if let Some(p) = parent_in(mgr@, k) {
        lemma_parent_present(mgr, k);
        if on_chain(mgr@, p, k) {
            let j = choose|j: nat| #[trigger] ancestor(mgr@, p, j) == Some(k);
            lemma_ancestor_closer(mgr, p, j);
        }
    }
}

/// Walking up from a namespace, each step lands strictly closer to the
/// root, so the walk never meets the same namespace twice.
pub proof fn lemma_ancestors_strictly_closer(mgr: &NsManager, k: KoID, i: nat, j: nat)
    requires
        mgr.wf(),
        mgr@.contains_key(k),
        i < j,
        ancestor(mgr@, k, j) is Some,
    ensures
        ancestor(mgr@, k, i) is Some,
        mgr.depth_of(ancestor(mgr@, k, j).unwrap()) < mgr.depth_of(ancestor(mgr@, k, i).unwrap()),
        ancestor(mgr@, k, i) != ancestor(mgr@, k, j),
    decreases j,
{
    let prev = ancestor(mgr@, k, (j - 1) as nat);
    assert(prev is Some);
    lemma_ancestor_closer(mgr, k, (j - 1) as nat);
    lemma_parent_present(mgr, prev.unwrap());
    if i < j - 1 {
        lemma_ancestors_strictly_closer(mgr, k, i, (j - 1) as nat);
    }
}

/// A namespace made by `new_child` names the given parent, which is not
/// itself, and is the parent's newest child.
pub proof fn lemma_child_names_parent(
    old: Map<KoID, NsEnum>,
    new: Map<KoID, NsEnum>,
    parent: KoID,
    id: KoID,
    ns: NsEnum,
)
    requires
        child_registered(old, new, parent, id, ns),
        ns.spec_base().parent == Some(parent),
        old.contains_key(parent),
        !old.contains_key(id),
    ensures
        parent_in(new, id) == Some(parent),
        id != parent,
        children_in(new, parent).last() == id,
{
    assert(new.dom().contains(id));
}

/// Reading the root of a kind after recording a root for it gives the
/// recorded id, for every kind that the roots hold.
pub proof fn lemma_root_read_back(old: &NsManager, new: &NsManager, t: NSType, id: KoID)
    requires
        new.roots() == proxy_changed(old.roots(), t, id),
        proxy_ns(old.roots(), t) is Some,
    ensures
        proxy_ns(new.roots(), t) == Some(id),
{
}

} // verus!
