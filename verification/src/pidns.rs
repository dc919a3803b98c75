//! PID namespaces: the pid and tid that each process and thread has in a
//! namespace, each namespace numbering its own.
use vstd::prelude::*;
use hashbrown::HashMap;
use crate::KoID;
use crate::nstype::NSType;
use crate::base::{NsBase, NS, fresh_base};
use crate::nsenum::NsEnum;
use crate::manager::{
    NsManager, child_registered, ancestor, on_chain, parent_in, lemma_parent_present,
    lemma_ancestor_none_stays, lemma_same_links_same_ancestors, lemma_not_above_itself,
    lemma_ancestors_strictly_closer, lemma_ancestor_closer,
};
use crate::proxy::proxy_changed;
use crate::table::{id_table, id_table_new, id_table_insert, id_table_get};

verus! {

/// A process id inside a PID namespace.
pub type NsPid = u64;

/// A thread id inside a PID namespace.
pub type NsTid = u64;

/// The first pid and the first tid that a PID namespace hands out. Each
/// namespace counts its own numbers from here, so that no two processes (or
/// threads) of one namespace share a number; the kernel this library serves
/// handed out 0 to every process.
pub const FIRST_ID: u64 = 1;

/// A PID namespace: for each process (by kernel object id) its pid here,
/// for each thread its tid here, the next pid and tid to hand out, and the
/// owning user namespace.
pub struct PidNs {
    pub base: NsBase,
    pub pid_map: HashMap<KoID, NsPid>,
    pub tid_map: HashMap<KoID, NsTid>,
    pub next_pid: NsPid,
    pub next_tid: NsTid,
    pub usr_ns: KoID,
}

/// No two keys of `m` share a value.
pub open spec fn injective_on(m: Map<KoID, u64>) -> bool {
    forall|a: KoID, b: KoID|
        #![trigger m[a], m[b]]
        m.contains_key(a) && m.contains_key(b) && a != b ==> m[a] != m[b]
}

/// Every value of `m` is below `bound`.
pub open spec fn all_below(m: Map<KoID, u64>, bound: u64) -> bool {
    forall|a: KoID| m.contains_key(a) ==> #[trigger] m[a] < bound
}

/// The tables of a PID namespace are consistent: no two processes share a
/// pid, no two threads share a tid, and every number in use is below the
/// next one to be handed out.
pub open spec fn pid_tables_wf(p: PidNs) -> bool {
    &&& injective_on(id_table(p.pid_map))
    &&& all_below(id_table(p.pid_map), p.next_pid)
    &&& injective_on(id_table(p.tid_map))
    &&& all_below(id_table(p.tid_map), p.next_tid)
}

/// `e` is a PID namespace that has just been made with id `id` under
/// `parent`, owned by `usr_id`, with no process or thread in it; it records `CLONE_NEWNS`
/// as its kind flag.
pub open spec fn fresh_pid(e: NsEnum, id: KoID, parent: Option<KoID>, usr_id: KoID) -> bool {
    &&& e matches NsEnum::PidNs(n)
    &&& fresh_base(n.base, id, NSType::CLONE_NEWNS, parent)
    &&& n.usr_ns == usr_id
    &&& id_table(n.pid_map) == Map::<KoID, NsPid>::empty()
    &&& id_table(n.tid_map) == Map::<KoID, NsTid>::empty()
    &&& n.next_pid == FIRST_ID
    &&& n.next_tid == FIRST_ID
}

/// The processes that `e` numbers, if it is a PID namespace; nothing for
/// any other kind.
pub open spec fn pid_keys(e: NsEnum) -> Set<KoID> {
    match e {
        NsEnum::PidNs(p) => id_table(p.pid_map).dom(),
        _ => Set::empty(),
    }
}

/// Every process that a namespace numbers is numbered by its parent too.
pub open spec fn pids_visible_upward(m: Map<KoID, NsEnum>) -> bool {
    forall|k: KoID|
        m.contains_key(k) && #[trigger] parent_in(m, k) is Some ==> pid_keys(m[k]).subset_of(
            pid_keys(m[parent_in(m, k).unwrap()]),
        )
}

/// Entering a process into every namespace on the walk up from `start`, and
/// nowhere else, keeps every process numbered by each parent.
proof fn lemma_entering_keeps_visible(
    m0: Map<KoID, NsEnum>,
    m1: Map<KoID, NsEnum>,
    start: KoID,
    p: KoID,
)
    requires
        pids_visible_upward(m0),
        forall|k: KoID|
            m0.contains_key(k) && #[trigger] parent_in(m0, k) is Some ==> m0.contains_key(
                parent_in(m0, k).unwrap(),
            ),
        m1.dom() == m0.dom(),
        forall|k: KoID|
            m0.contains_key(k) && on_chain(m0, start, k) ==> pid_entered(m0[k], m1[k], p),
        forall|k: KoID| m0.contains_key(k) && !on_chain(m0, start, k) ==> m1[k] == m0[k],
    ensures
        pids_visible_upward(m1),
{
    assert forall|k: KoID| m1.contains_key(k) && #[trigger] parent_in(m1, k) is Some implies pid_keys(
        m1[k],
    ).subset_of(pid_keys(m1[parent_in(m1, k).unwrap()])) by {
        assert(m1[k].spec_base().parent == m0[k].spec_base().parent);
        assert(parent_in(m0, k) is Some);
        let q = parent_in(m0, k).unwrap();
        assert(pid_keys(m0[k]).subset_of(pid_keys(m0[q])));
        if on_chain(m0, start, k) {
            let j = choose|j: nat| #[trigger] ancestor(m0, start, j) == Some(k);
            assert(ancestor(m0, start, j + 1) == Some(q));
            assert(on_chain(m0, start, q));
            assert(pid_keys(m1[k]) == pid_keys(m0[k]).insert(p));
            assert(pid_keys(m1[q]) == pid_keys(m0[q]).insert(p));
        } else {
            assert(pid_keys(m1[k]) == pid_keys(m0[k]));
            if on_chain(m0, start, q) {
                assert(pid_keys(m1[q]) == pid_keys(m0[q]).insert(p));
            }
        }
    }
}

/// `new` is `old` with process `p` entered into its pid table under the
/// next pid, that pid used up, and nothing else changed; no other process
/// there has the pid `p` got.
pub open spec fn pid_entered(old: NsEnum, new: NsEnum, p: KoID) -> bool {
    &&& old matches NsEnum::PidNs(o)
    &&& new matches NsEnum::PidNs(n)
    &&& n == PidNs { pid_map: n.pid_map, next_pid: n.next_pid, ..o }
    &&& n.next_pid == o.next_pid + 1
    &&& id_table(n.pid_map) == id_table(o.pid_map).insert(p, o.next_pid)
    &&& forall|q: KoID|
        #[trigger] id_table(n.pid_map).contains_key(q) && q != p ==> id_table(n.pid_map)[q]
            != id_table(n.pid_map)[p]
}

/// `new` is `old` with thread `t` entered into its tid table under the next
/// tid, that tid used up, and nothing else changed; no other thread there
/// has the tid `t` got.
pub open spec fn tid_entered(old: NsEnum, new: NsEnum, t: KoID) -> bool {
    &&& old matches NsEnum::PidNs(o)
    &&& new matches NsEnum::PidNs(n)
    &&& n == PidNs { tid_map: n.tid_map, next_tid: n.next_tid, ..o }
    &&& n.next_tid == o.next_tid + 1
    &&& id_table(n.tid_map) == id_table(o.tid_map).insert(t, o.next_tid)
    &&& forall|q: KoID|
        #[trigger] id_table(n.tid_map).contains_key(q) && q != t ==> id_table(n.tid_map)[q]
            != id_table(n.tid_map)[t]
}

impl NS for PidNs {
    open spec fn ns_base_spec(&self) -> NsBase {
        self.base
    }

    fn get_ns_id(&self) -> (r: KoID) {
        self.base.id
    }

    fn get_ns_type(&self) -> (r: NSType) {
        self.base.nstype
    }

    fn get_ns_base(&self) -> (r: &NsBase) {
        &self.base
    }

    fn get_parent_ns(&self) -> (r: Option<KoID>) {
        self.base.parent
    }

    fn get_ns_instance(self) -> (r: NsEnum)
        ensures
            r == NsEnum::PidNs(self),
    {
        NsEnum::PidNs(self)
    }
}

impl PidNs {
    /// The user namespace that owns this one.
    pub fn get_usr_ns(&self) -> (r: KoID)
        ensures
            r == self.usr_ns,
    {
        self.usr_ns
    }

    fn new(id: KoID, parent: Option<KoID>, usr_id: KoID) -> (r: PidNs)
        ensures
            fresh_pid(NsEnum::PidNs(r), id, parent, usr_id),
            pid_tables_wf(r),
    {
        PidNs {
            base: NsBase::new(id, NSType::CLONE_NEWNS, parent),
            pid_map: id_table_new(),
            tid_map: id_table_new(),
            next_pid: FIRST_ID,
            next_tid: FIRST_ID,
            usr_ns: usr_id,
        }
    }

    /// Hands out the next pid of this namespace and uses it up.
    fn get_new_pid(&mut self) -> (r: NsPid)
        requires
            old(self).next_pid < u64::MAX,
        ensures
            r == old(self).next_pid,
            *final(self) == (PidNs { next_pid: (r + 1) as u64, ..*old(self) }),
    {
        let pid = self.next_pid;
        self.next_pid = pid + 1;
        pid
    }

    /// Hands out the next tid of this namespace and uses it up.
    fn get_new_tid(&mut self) -> (r: NsTid)
        requires
            old(self).next_tid < u64::MAX,
        ensures
            r == old(self).next_tid,
            *final(self) == (PidNs { next_tid: (r + 1) as u64, ..*old(self) }),
    {
        let tid = self.next_tid;
        self.next_tid = tid + 1;
        tid
    }

    /// Gives process `processer_id` a new pid in this namespace alone.
    pub(crate) fn enter_pid(&mut self, processer_id: KoID)
        requires
            pid_tables_wf(*old(self)),
            old(self).next_pid < u64::MAX,
        ensures
            pid_entered(NsEnum::PidNs(*old(self)), NsEnum::PidNs(*final(self)), processer_id),
            pid_tables_wf(*final(self)),
    {
        let ghost o = *self;
        let namespace_pid = self.get_new_pid();
        id_table_insert(&mut self.pid_map, processer_id, namespace_pid);
        proof {
            let mo = id_table(o.pid_map);
            let mn = id_table(self.pid_map);
            assert forall|a: KoID, b: KoID|
                #![trigger mn[a], mn[b]]
                mn.contains_key(a) && mn.contains_key(b) && a != b implies mn[a] != mn[b] by {
                if a != processer_id && b != processer_id {
                    assert(mo[a] != mo[b]);
                } else if a == processer_id {
                    assert(mo[b] < o.next_pid);
                } else {
                    assert(mo[a] < o.next_pid);
                }
            }
            assert forall|a: KoID| mn.contains_key(a) implies #[trigger] mn[a] < self.next_pid by {
                if a != processer_id {
                    assert(mo[a] < o.next_pid);
                }
            }
        }
    }

    /// Gives thread `thread_id` a new tid in this namespace alone.
    pub(crate) fn enter_tid(&mut self, thread_id: KoID)
        requires
            pid_tables_wf(*old(self)),
            old(self).next_tid < u64::MAX,
        ensures
            tid_entered(NsEnum::PidNs(*old(self)), NsEnum::PidNs(*final(self)), thread_id),
            pid_tables_wf(*final(self)),
    {
        let ghost o = *self;
        let namespace_tid = self.get_new_tid();
        id_table_insert(&mut self.tid_map, thread_id, namespace_tid);
        proof {
            let mo = id_table(o.tid_map);
            let mn = id_table(self.tid_map);
            assert forall|a: KoID, b: KoID|
                #![trigger mn[a], mn[b]]
                mn.contains_key(a) && mn.contains_key(b) && a != b implies mn[a] != mn[b] by {
                if a != thread_id && b != thread_id {
                    assert(mo[a] != mo[b]);
                } else if a == thread_id {
                    assert(mo[b] < o.next_tid);
                } else {
                    assert(mo[a] < o.next_tid);
                }
            }
            assert forall|a: KoID| mn.contains_key(a) implies #[trigger] mn[a] < self.next_tid by {
                if a != thread_id {
                    assert(mo[a] < o.next_tid);
                }
            }
        }
    }

    /// The entry for `processer_id` in the tid table of this namespace, if
    /// there is one. The lookup goes to the tid table, as the kernel's own
    /// lookup does; a process's pid is the entry under it in `pid_map`.
    pub fn get_pid(&self, processer_id: KoID) -> (r: Option<&u64>)
        ensures
            r == (if id_table(self.tid_map).contains_key(processer_id) {
                Some(&id_table(self.tid_map)[processer_id])
            } else {
                None
            }),
    {
        id_table_get(&self.tid_map, processer_id)
    }

    /// The tid of thread `thread_id` in this namespace, if it has one.
    pub fn get_tid(&self, thread_id: KoID) -> (r: Option<&NsTid>)
        ensures
            r == (if id_table(self.tid_map).contains_key(thread_id) {
                Some(&id_table(self.tid_map)[thread_id])
            } else {
                None
            }),
    {
        id_table_get(&self.tid_map, thread_id)
    }
}

impl PidNs {
    /// Makes the root PID namespace with id `id`, owned by `usr_id`,
    /// records it as the root of its kind and registers it; returns its id.
    pub fn new_root(mgr: &mut NsManager, id: KoID, usr_id: KoID) -> (r: KoID)
        requires
            old(mgr).wf(),
            !old(mgr)@.contains_key(id),
        ensures
            r == id,
            final(mgr).wf(),
            final(mgr)@ == old(mgr)@.insert(id, final(mgr)@[id]),
            fresh_pid(final(mgr)@[id], id, None, usr_id),
            final(mgr).roots() == proxy_changed(old(mgr).roots(), NSType::CLONE_NEWPID, id),
    {
        let root = PidNs::new(id, None, usr_id);
        let root_id = root.get_ns_id();
        mgr.set_init_ns(NSType::CLONE_NEWPID, root_id);
        mgr.insert(root.get_ns_instance());
        root_id
    }

    /// Makes a PID namespace with id `id` under the PID namespace
    /// `parent`, with the parent's owner, lists it as the parent's newest
    /// child and registers it; returns its id.
    pub fn new_child(mgr: &mut NsManager, parent: KoID, id: KoID) -> (r: KoID)
        requires
            old(mgr).wf(),
            old(mgr)@.contains_key(parent),
            old(mgr)@[parent] is PidNs,
            !old(mgr)@.contains_key(id),
        ensures
            r == id,
            final(mgr).wf(),
            final(mgr).roots() == old(mgr).roots(),
            child_registered(old(mgr)@, final(mgr)@, parent, id, final(mgr)@[id]),
            old(mgr)@[parent] matches NsEnum::PidNs(p) && fresh_pid(
                final(mgr)@[id],
                id,
                Some(parent),
                p.usr_ns,
            ),
    {
        let usr_id = match mgr.get_ns(parent) {
            Some(NsEnum::PidNs(p)) => p.usr_ns,
            _ => {
                proof {
                    assert(false);
                }
                0
            },
        };
        let child = PidNs::new(id, Some(parent), usr_id);
        mgr.register_child(parent, child.get_ns_instance())
    }
}

/// `m` holds a PID namespace under `ns_id`.
pub open spec fn has_pid(m: Map<KoID, NsEnum>, ns_id: KoID) -> bool {
    m.contains_key(ns_id) && m[ns_id] is PidNs
}

/// The PID namespace `k` of `m` has a pid left to hand out.
pub open spec fn pid_room(m: Map<KoID, NsEnum>, k: KoID) -> bool {
    m[k] matches NsEnum::PidNs(n) && n.next_pid < u64::MAX
}

/// The PID namespace `k` of `m` has a tid left to hand out.
pub open spec fn tid_room(m: Map<KoID, NsEnum>, k: KoID) -> bool {
    m[k] matches NsEnum::PidNs(n) && n.next_tid < u64::MAX
}

/// Every namespace met walking up from `start` has a pid left to hand out.
pub open spec fn pid_chain_room(m: Map<KoID, NsEnum>, start: KoID) -> bool {
    forall|k: KoID| m.contains_key(k) && on_chain(m, start, k) ==> #[trigger] pid_room(m, k)
}

/// `ns_id` has a tid left, and every namespace strictly above it has a pid
/// left.
pub open spec fn tid_chain_room(m: Map<KoID, NsEnum>, ns_id: KoID) -> bool {
    &&& tid_room(m, ns_id)
    &&& parent_in(m, ns_id) matches Some(p) ==> pid_chain_room(m, p)
}

/// `k` lies strictly above `ns_id`: on the walk up from its parent.
pub open spec fn strictly_above(m: Map<KoID, NsEnum>, ns_id: KoID, k: KoID) -> bool {
    parent_in(m, ns_id) matches Some(p) && on_chain(m, p, k)
}

/// `k` is among the first `n` namespaces met walking up from `start`.
spec fn chain_prefix(m: Map<KoID, NsEnum>, start: KoID, n: nat, k: KoID) -> bool {
    exists|i: nat| i < n && #[trigger] ancestor(m, start, i) == Some(k)
}

/// Once the walk up from `start` has left the table after `n` steps, the
/// namespaces met on it are exactly the first `n`.
proof fn lemma_chain_is_prefix(m: Map<KoID, NsEnum>, start: KoID, n: nat)
    requires
        ancestor(m, start, n) is None,
    ensures
        forall|k: KoID| on_chain(m, start, k) <==> #[trigger] chain_prefix(m, start, n, k),
{
    assert forall|k: KoID| on_chain(m, start, k) <==> #[trigger] chain_prefix(m, start, n, k) by {
        if on_chain(m, start, k) {
            let j = choose|j: nat| #[trigger] ancestor(m, start, j) == Some(k);
            if j >= n {
                lemma_ancestor_none_stays(m, start, n, j);
            }
        }
        if chain_prefix(m, start, n, k) {
            let i = choose|i: nat| i < n && #[trigger] ancestor(m, start, i) == Some(k);
        }
    }
}

/// After one more step of the walk, the namespaces met are those met before
/// and the one just reached.
proof fn lemma_chain_prefix_step(m: Map<KoID, NsEnum>, start: KoID, n: nat, cur: KoID)
    requires
        ancestor(m, start, n) == Some(cur),
    ensures
        forall|k: KoID|
            #[trigger] chain_prefix(m, start, n + 1, k) <==> (chain_prefix(m, start, n, k) || k
                == cur),
{
    assert forall|k: KoID|
        #[trigger] chain_prefix(m, start, n + 1, k) <==> (chain_prefix(m, start, n, k) || k
            == cur) by {
        if k == cur {
            assert(ancestor(m, start, n) == Some(k));
        }
        if chain_prefix(m, start, n + 1, k) && k != cur {
            let i = choose|i: nat| i < n + 1 && #[trigger] ancestor(m, start, i) == Some(k);
            assert(i < n);
        }
        if chain_prefix(m, start, n, k) {
            let i = choose|i: nat| i < n && #[trigger] ancestor(m, start, i) == Some(k);
            assert(i < n + 1);
        }
    }
}

impl PidNs {
    /// Whether every PID namespace from `ns_id` up to the root has a pid left
    /// to hand out, so that `insert_pid` can be called.
    pub fn can_insert_pid(mgr: &NsManager, ns_id: KoID) -> (r: bool)
        requires
            mgr.wf(),
            has_pid(mgr@, ns_id),
        ensures
            r == pid_chain_room(mgr@, ns_id),
    {
        let ghost m = mgr@;
        let mut next: Option<KoID> = Some(ns_id);
        let ghost mut n: nat = 0;
        while next.is_some()
            invariant
                mgr.wf(),
                m == mgr@,
                ancestor(m, ns_id, n) == next,
                next matches Some(c) ==> has_pid(m, c),
                forall|k: KoID|
                    m.contains_key(k) && #[trigger] chain_prefix(m, ns_id, n, k) ==> pid_room(
                        m,
                        k,
                    ),
            decreases
                match next {
                    Some(c) => mgr.depth_of(c) + 1,
                    None => 0,
                },
        {
            let cur = next.unwrap();
            proof {
                lemma_parent_present(mgr, cur);
                lemma_chain_prefix_step(m, ns_id, n, cur);
            }
            let (room, parent) = match mgr.get_ns(cur) {
                Some(NsEnum::PidNs(p)) => (p.next_pid < u64::MAX, p.base.parent),
                _ => {
                    proof {
                        assert(false);
                    }
                    (false, None)
                },
            };
            if !room {
                proof {
                    assert(ancestor(m, ns_id, n) == Some(cur));
                    assert(on_chain(m, ns_id, cur));
                    assert(m.contains_key(cur));
                    assert(!pid_room(m, cur));
                }
                return false;
            }
            proof {
                assert(parent == parent_in(m, cur));
                assert(ancestor(m, ns_id, n + 1) == parent);
                if let Some(p) = parent {
                    assert(m[p].kind() == NSType::CLONE_NEWPID);
                }
                n = n + 1;
            }
            next = parent;
        }
        proof {
            lemma_chain_is_prefix(m, ns_id, n);
            assert forall|k: KoID| m.contains_key(k) && on_chain(m, ns_id, k) implies #[trigger] pid_room(
                m,
                k,
            ) by {
                assert(chain_prefix(m, ns_id, n, k));
            }
        }
        true
    }

    /// Whether `ns_id` has a tid left to hand out and every PID namespace
    /// above it a pid, so that `insert_tid` can be called.
    pub fn can_insert_tid(mgr: &NsManager, ns_id: KoID) -> (r: bool)
        requires
            mgr.wf(),
            has_pid(mgr@, ns_id),
        ensures
            r == tid_chain_room(mgr@, ns_id),
    {
        proof {
            lemma_parent_present(mgr, ns_id);
        }
        match mgr.get_ns(ns_id) {
            Some(NsEnum::PidNs(p)) => {
                if p.next_tid == u64::MAX {
                    false
                } else {
                    match p.base.parent {
                        Some(parent) => {
                            proof {
                                assert(mgr@[parent].kind() == NSType::CLONE_NEWPID);
                            }
                            PidNs::can_insert_pid(mgr, parent)
                        },
                        None => true,
                    }
                }
            },
            _ => false,
        }
    }

    /// Gives process `processer_id` a new pid in the PID namespace `ns_id`
    /// and in every namespace above it, up to the root; in each of them the
    /// pid is one that no other process there has. The walk up is a loop
    /// over the manager; the kernel's version recursed while holding the
    /// manager's lock and so never returned from a namespace with a parent.
    pub fn insert_pid(mgr: &mut NsManager, ns_id: KoID, processer_id: KoID)
        requires
            old(mgr).wf(),
            has_pid(old(mgr)@, ns_id),
            pid_chain_room(old(mgr)@, ns_id),
        ensures
            final(mgr).wf(),
            final(mgr).roots() == old(mgr).roots(),
            final(mgr)@.dom() == old(mgr)@.dom(),
            forall|k: KoID|
                old(mgr)@.contains_key(k) && on_chain(old(mgr)@, ns_id, k) ==> pid_entered(
                    old(mgr)@[k],
                    final(mgr)@[k],
                    processer_id,
                ),
            forall|k: KoID|
                old(mgr)@.contains_key(k) && !on_chain(old(mgr)@, ns_id, k) ==> final(mgr)@[k]
                    == old(mgr)@[k],
    {
        let ghost g0: NsManager = *mgr;
        let ghost m0 = mgr@;
        let mut next: Option<KoID> = Some(ns_id);
        let ghost mut n: nat = 0;
        while next.is_some()
            invariant
                g0.wf(),
                m0 == g0@,
                has_pid(m0, ns_id),
                pid_chain_room(m0, ns_id),
                mgr.shape_wf(),
                mgr.roots() == g0.roots(),
                forall|k: KoID| #[trigger] mgr.depth_of(k) == g0.depth_of(k),
                mgr@.dom() == m0.dom(),
                ancestor(m0, ns_id, n) == next,
                next matches Some(c) ==> has_pid(m0, c),
                forall|k: KoID|
                    m0.contains_key(k) && chain_prefix(m0, ns_id, n, k) ==> pid_entered(
                        m0[k],
                        #[trigger] mgr@[k],
                        processer_id,
                    ),
                forall|k: KoID|
                    m0.contains_key(k) && !chain_prefix(m0, ns_id, n, k) ==> #[trigger] mgr@[k]
                        == m0[k],
            decreases
                match next {
                    Some(c) => g0.depth_of(c) + 1,
                    None => 0,
                },
        {
            let cur = next.unwrap();
            let ghost prev = mgr@;
            proof {
                lemma_parent_present(&g0, cur);
                lemma_chain_prefix_step(m0, ns_id, n, cur);
                if chain_prefix(m0, ns_id, n, cur) {
                    let i = choose|i: nat| i < n && #[trigger] ancestor(m0, ns_id, i) == Some(cur);
                    lemma_ancestors_strictly_closer(&g0, ns_id, i, n);
                }
                assert(prev[cur] == m0[cur]);
                assert(on_chain(m0, ns_id, cur));
                assert(pid_room(m0, cur));
            }
            let e = mgr.get_ns_mut(cur);
            let parent = match e {
                NsEnum::PidNs(p) => {
                    p.enter_pid(processer_id);
                    p.base.parent
                },
                _ => None,
            };
            proof {
                assert(pid_entered(m0[cur], mgr@[cur], processer_id));
                assert(parent == parent_in(m0, cur));
                assert(ancestor(m0, ns_id, n + 1) == parent);
                if let Some(p) = parent {
                    assert(m0[p].kind() == NSType::CLONE_NEWPID);
                }
                n = n + 1;
            }
            next = parent;
        }
        proof {
            lemma_chain_is_prefix(m0, ns_id, n);
            assert forall|k: KoID|
                m0.contains_key(k) && #[trigger] parent_in(m0, k) is Some implies m0.contains_key(
                parent_in(m0, k).unwrap(),
            ) by {
                lemma_parent_present(&g0, k);
            }
            lemma_entering_keeps_visible(m0, mgr@, ns_id, processer_id);
        }
    }

    /// Gives thread `thread_id` a new tid in the PID namespace `ns_id`, and a
    /// new pid in every namespace above it, up to the root; in each of them
    /// the number is one that no other thread, or process, there has.
    pub fn insert_tid(mgr: &mut NsManager, ns_id: KoID, thread_id: KoID)
        requires
            old(mgr).wf(),
            has_pid(old(mgr)@, ns_id),
            tid_chain_room(old(mgr)@, ns_id),
        ensures
            final(mgr).wf(),
            final(mgr).roots() == old(mgr).roots(),
            final(mgr)@.dom() == old(mgr)@.dom(),
            tid_entered(old(mgr)@[ns_id], final(mgr)@[ns_id], thread_id),
            forall|k: KoID|
                old(mgr)@.contains_key(k) && strictly_above(old(mgr)@, ns_id, k) ==> pid_entered(
                    old(mgr)@[k],
                    final(mgr)@[k],
                    thread_id,
                ),
            forall|k: KoID|
                old(mgr)@.contains_key(k) && k != ns_id && !strictly_above(old(mgr)@, ns_id, k)
                    ==> final(mgr)@[k] == old(mgr)@[k],
    {
        let ghost g0: NsManager = *mgr;
        let ghost m0 = mgr@;
        proof {
            lemma_parent_present(&g0, ns_id);
            lemma_not_above_itself(&g0, ns_id);
        }
        let e = mgr.get_ns_mut(ns_id);
        let parent = match e {
            NsEnum::PidNs(p) => {
                p.enter_tid(thread_id);
                p.base.parent
            },
            _ => None,
        };
        let ghost m1 = mgr@;
        proof {
            assert(parent == parent_in(m0, ns_id));
            assert forall|x: KoID| #[trigger] parent_in(m0, x) == parent_in(m1, x) by {
                if x == ns_id {
                    assert(m1[x].spec_base() == m0[x].spec_base());
                }
            }
        }
        match parent {
            Some(p) => {
                proof {
                    assert(m0[p].kind() == NSType::CLONE_NEWPID);
                    assert(m1[p] == m0[p]);
                    assert forall|k: KoID| #![trigger on_chain(m0, p, k)]
                        m0.contains_key(k) implies on_chain(m0, p, k) == on_chain(m1, p, k) by {
                        if on_chain(m0, p, k) {
                            let j = choose|j: nat| #[trigger] ancestor(m0, p, j) == Some(k);
                            lemma_same_links_same_ancestors(m0, m1, p, j);
                        }
                        if on_chain(m1, p, k) {
                            let j = choose|j: nat| #[trigger] ancestor(m1, p, j) == Some(k);
                            lemma_same_links_same_ancestors(m0, m1, p, j);
                        }
                    }
                    assert forall|k: KoID|
                        m1.contains_key(k) && on_chain(m1, p, k) implies #[trigger] pid_room(
                        m1,
                        k,
                    ) by {
                        assert(on_chain(m0, p, k));
                        assert(pid_room(m0, k));
                        assert(k != ns_id);
                    }
                }
                PidNs::insert_pid(mgr, p, thread_id);
            },
            None => {},
        }
    }
}

/// A process entered into a PID namespace gets the pid that was next there,
/// no other process there has that pid, and every other process keeps the
/// pid it had.
pub proof fn lemma_entered_pid_visible(old: NsEnum, new: NsEnum, p: KoID, q: KoID)
    requires
        pid_entered(old, new, p),
    ensures
        old matches NsEnum::PidNs(o) && new matches NsEnum::PidNs(n) && {
            &&& id_table(n.pid_map).contains_key(p)
            &&& id_table(n.pid_map)[p] == o.next_pid
            &&& q != p && id_table(n.pid_map).contains_key(q) ==> id_table(n.pid_map)[q]
                != id_table(n.pid_map)[p]
            &&& q != p ==> id_table(n.pid_map).contains_key(q) == id_table(o.pid_map).contains_key(q)
            &&& q != p ==> id_table(n.pid_map)[q] == id_table(o.pid_map)[q]
            &&& n.tid_map == o.tid_map
        },
{
}

/// A thread entered into a PID namespace gets the tid that was next there,
/// no other thread there has that tid, and every other thread keeps the tid
/// it had.
pub proof fn lemma_entered_tid_visible(old: NsEnum, new: NsEnum, t: KoID, q: KoID)
    requires
        tid_entered(old, new, t),
    ensures
        old matches NsEnum::PidNs(o) && new matches NsEnum::PidNs(n) && {
            &&& id_table(n.tid_map).contains_key(t)
            &&& id_table(n.tid_map)[t] == o.next_tid
            &&& q != t && id_table(n.tid_map).contains_key(q) ==> id_table(n.tid_map)[q]
                != id_table(n.tid_map)[t]
            &&& q != t ==> id_table(n.tid_map).contains_key(q) == id_table(o.tid_map).contains_key(q)
            &&& q != t ==> id_table(n.tid_map)[q] == id_table(o.tid_map)[q]
            &&& n.pid_map == o.pid_map
        },
{
}

/// In a well-formed manager no two processes share a pid, and no two
/// threads share a tid, within any one PID namespace.
pub proof fn lemma_numbers_distinct(mgr: &NsManager, k: KoID, a: KoID, b: KoID)
    requires
        mgr.wf(),
        has_pid(mgr@, k),
    ensures
        mgr@[k] matches NsEnum::PidNs(n) && {
            &&& a != b && id_table(n.pid_map).contains_key(a) && id_table(n.pid_map).contains_key(
                b,
            ) ==> id_table(n.pid_map)[a] != id_table(n.pid_map)[b]
            &&& a != b && id_table(n.tid_map).contains_key(a) && id_table(n.tid_map).contains_key(
                b,
            ) ==> id_table(n.tid_map)[a] != id_table(n.tid_map)[b]
        },
{
    lemma_parent_present(mgr, k);
}

/// Every process that a PID namespace numbers is numbered by each of its
/// ancestors as well: a parent sees the processes of all namespaces below it.
pub proof fn lemma_pid_visible_in_ancestors(mgr: &NsManager, k: KoID, n: nat)
    requires
        mgr.wf(),
        mgr@.contains_key(k),
    ensures
        ancestor(mgr@, k, n) matches Some(a) ==> pid_keys(mgr@[k]).subset_of(pid_keys(mgr@[a])),
    decreases n,
{
    if n > 0 {
        lemma_pid_visible_in_ancestors(mgr, k, (n - 1) as nat);
        lemma_ancestor_closer(mgr, k, (n - 1) as nat);
        if let Some(b) = ancestor(mgr@, k, (n - 1) as nat) {
            if let Some(a) = parent_in(mgr@, b) {
                assert(pid_keys(mgr@[b]).subset_of(pid_keys(mgr@[a])));
            }
        }
    }
}

} // verus!
