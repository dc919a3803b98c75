//! The hash tables of the manager and of PID namespaces, held in
//! `hashbrown::HashMap`, and what the library relies on from them.
use vstd::prelude::*;
use hashbrown::HashMap;
use crate::nsenum::NsEnum;

verus! {

/// `hashbrown::HashMap`, opaque: its entries are read through the names below.
#[verifier::external_type_specification]
#[verifier::external_body]
#[verifier::reject_recursive_types(K)]
#[verifier::reject_recursive_types(V)]
#[verifier::reject_recursive_types(S)]
pub struct ExHashMap<K, V, S>(HashMap<K, V, S>);

/// The hasher that `hashbrown::HashMap` uses by default, opaque.
#[verifier::external_type_specification]
#[verifier::external_body]
pub struct ExDefaultHashBuilder(hashbrown::hash_map::DefaultHashBuilder);

/// The entries of a table from ids to ids.
pub uninterp spec fn id_table(m: HashMap<u64, u64>) -> Map<u64, u64>;

/// `hashbrown::HashMap::new`: an empty table.
#[verifier::external_body]
pub(crate) fn id_table_new() -> (r: HashMap<u64, u64>)
    ensures
        id_table(r) =~= Map::empty(),
{
    HashMap::new()
}

/// `hashbrown::HashMap::insert`: the key maps to the value afterwards, every
/// other entry stays; the entry that was replaced, if any, is handed back.
#[verifier::external_body]
pub(crate) fn id_table_insert(m: &mut HashMap<u64, u64>, k: u64, v: u64) -> (r: Option<u64>)
    ensures
        id_table(*final(m)) == id_table(*old(m)).insert(k, v),
        r == (if id_table(*old(m)).contains_key(k) { Some(id_table(*old(m))[k]) } else { None }),
{
    m.insert(k, v)
}

/// `hashbrown::HashMap::get`: the value stored under the key, if any.
#[verifier::external_body]
pub(crate) fn id_table_get(m: &HashMap<u64, u64>, k: u64) -> (r: Option<&u64>)
    ensures
        r == (if id_table(*m).contains_key(k) { Some(&id_table(*m)[k]) } else { None }),
{
    m.get(&k)
}

/// The entries of the table from ids to namespaces.
pub uninterp spec fn ns_table(m: HashMap<u64, NsEnum>) -> Map<u64, NsEnum>;

/// `hashbrown::HashMap::new`: an empty table.
#[verifier::external_body]
pub(crate) fn ns_table_new() -> (r: HashMap<u64, NsEnum>)
    ensures
        ns_table(r) =~= Map::empty(),
{
    HashMap::new()
}

/// `hashbrown::HashMap::insert`: the key maps to the value afterwards, every
/// other entry stays; the value that was replaced, if any, is handed back.
#[verifier::external_body]
pub(crate) fn ns_table_insert(m: &mut HashMap<u64, NsEnum>, k: u64, v: NsEnum) -> (r: Option<
    NsEnum,
>)
    ensures
        ns_table(*final(m)) == ns_table(*old(m)).insert(k, v),
        r == (if ns_table(*old(m)).contains_key(k) { Some(ns_table(*old(m))[k]) } else { None }),
{
    m.insert(k, v)
}

/// `hashbrown::HashMap::get`: the value stored under the key, if any.
#[verifier::external_body]
pub(crate) fn ns_table_get(m: &HashMap<u64, NsEnum>, k: u64) -> (r: Option<&NsEnum>)
    ensures
        r == (if ns_table(*m).contains_key(k) { Some(&ns_table(*m)[k]) } else { None }),
{
    m.get(&k)
}

/// `hashbrown::HashMap::get_mut`, on a key that is present: a reference to
/// the stored value, which is what the table holds under the key once the
/// reference is given up.
#[verifier::external_body]
pub(crate) fn ns_table_get_mut(m: &mut HashMap<u64, NsEnum>, k: u64) -> (r: &mut NsEnum)
    requires
        ns_table(*old(m)).contains_key(k),
    ensures
        *r == ns_table(*old(m))[k],
        ns_table(*final(m)) == ns_table(*old(m)).insert(k, *final(r)),
{
    m.get_mut(&k).unwrap()
}

} // verus!
