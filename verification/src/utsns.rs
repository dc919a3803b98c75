//! UTS namespaces: the names that `uname(2)` reports, and the host and
//! domain names that a namespace may change.
use vstd::prelude::*;
use vstd::utf8::*;
use vstd::string::*;
use crate::KoID;
use crate::nstype::NSType;
use crate::base::{NsBase, NS, fresh_base};
use crate::nsenum::NsEnum;
use crate::manager::{NsManager, child_registered};
use crate::proxy::proxy_changed;
use crate::error::LxError;

verus! {

/// Width of each field of `struct utsname`, the terminating NUL included.
pub const UTS_FIELD_LEN: usize = 65;

/// The release strings of the running kernel, fixed when it is built.
pub struct UtsRelease {
    pub release: String,
    pub version: String,
    pub machine_arch: String,
}

/// The machine names that a kernel reports: one of its target
/// architectures, or `unknown` on any other target.
pub open spec fn known_arch(s: Seq<char>) -> bool {
    ||| s == "x86_64"@
    ||| s == "aarch64"@
    ||| s == "riscv64"@
    ||| s == "unknown"@
}

/// A UTS namespace.
pub struct UtsNs {
    pub base: NsBase,
    pub usr_ns: KoID,
    pub sysname: String,
    /// Also the node name.
    pub hostname: String,
    pub release: String,
    pub version: String,
    pub machine_arch: String,
    pub domainname: String,
}

/// `e` is a UTS namespace that has just been made with id `id` under
/// `parent`, owned by `usr_id`, with the given names and system name `Linux`;
/// like every UTS namespace it records `CLONE_NEWNS` as its kind flag.
pub open spec fn fresh_uts(
    e: NsEnum,
    id: KoID,
    parent: Option<KoID>,
    usr_id: KoID,
    hostname: Seq<char>,
    domainname: Seq<char>,
    release: Seq<char>,
    version: Seq<char>,
    machine_arch: Seq<char>,
) -> bool {
    &&& e matches NsEnum::UtsNs(n)
    &&& fresh_base(n.base, id, NSType::CLONE_NEWNS, parent)
    &&& n.usr_ns == usr_id
    &&& n.sysname@ == "Linux"@
    &&& n.hostname@ == hostname
    &&& n.domainname@ == domainname
    &&& n.release@ == release
    &&& n.version@ == version
    &&& n.machine_arch@ == machine_arch
}

/// Name for the text that `String::from_utf8_lossy` makes of a byte string.
pub uninterp spec fn utf8_lossy(bytes: Seq<u8>) -> Seq<char>;

/// `String::from_utf8_lossy` on `bytes`, made an owned `String`. Stated: the
/// result is the named text of the bytes, and for valid UTF-8 it is exactly
/// the decoded text. Left unsaid: how invalid sequences are replaced.
#[verifier::external_body]
fn text_from_bytes(bytes: &[u8]) -> (r: String)
    ensures
        r@ == utf8_lossy(bytes@),
        valid_utf8(bytes@) ==> r@ == decode_utf8(bytes@),
{
    String::from_utf8_lossy(bytes).into_owned()
}

/// The six fields of `struct utsname`, in order.
pub open spec fn uname_fields(u: UtsNs) -> Seq<Seq<char>> {
    seq![u.sysname@, u.hostname@, u.release@, u.version@, u.machine_arch@, u.domainname@]
}

/// The bytes of `s` as a C string: its UTF-8 encoding and a NUL.
pub open spec fn cstring_bytes(s: Seq<char>) -> Seq<u8> {
    encode_utf8(s).push(0)
}

/// The writes that fill a `struct utsname` buffer, to be done in order:
/// field `i` as a C string at offset `i * UTS_FIELD_LEN`.
pub open spec fn uname_writes_of(u: UtsNs, w: Seq<(usize, Vec<u8>)>) -> bool {
    &&& w.len() == 6
    &&& forall|i: int|
        0 <= i < 6 ==> (#[trigger] w[i]).0 == i * UTS_FIELD_LEN && w[i].1@ == cstring_bytes(
            uname_fields(u)[i],
        )
}

fn cstring(s: &String) -> (r: Vec<u8>)
    ensures
        r@ == cstring_bytes(s@),
{
    let mut b = s.as_str().as_bytes_vec();
    b.push(0);
    b
}

impl NS for UtsNs {
    open spec fn ns_base_spec(&self) -> NsBase {
        self.base
    }

    fn get_ns_id(&self) -> (r: KoID) {
        self.base.id
    }

    fn get_ns_type(&self) -> (r: NSType) {
        self.base.nstype
    }

    fn get_ns_base(&self) -> (r: &NsBase) {
        &self.base
    }

    fn get_parent_ns(&self) -> (r: Option<KoID>) {
        self.base.parent
    }

    fn get_ns_instance(self) -> (r: NsEnum)
        ensures
            r == NsEnum::UtsNs(self),
    {
        NsEnum::UtsNs(self)
    }
}

impl UtsNs {
    /// The user namespace that owns this one.
    pub fn get_usr_ns(&self) -> (r: KoID)
        ensures
            r == self.usr_ns,
    {
        self.usr_ns
    }

    fn new(
        id: KoID,
        parent: Option<KoID>,
        hostname: String,
        domainname: String,
        usr_id: KoID,
        release: String,
        version: String,
        machine_arch: String,
    ) -> (r: UtsNs)
        ensures
            fresh_uts(
                NsEnum::UtsNs(r),
                id,
                parent,
                usr_id,
                hostname@,
                domainname@,
                release@,
                version@,
                machine_arch@,
            ),
    {
        UtsNs {
            base: NsBase::new(id, NSType::CLONE_NEWNS, parent),
            usr_ns: usr_id,
            sysname: "Linux".to_string(),
            hostname: hostname,
            release: release,
            version: version,
            machine_arch: machine_arch,
            domainname: domainname,
        }
    }

    /// Sets the host name to the text of `name` (invalid UTF-8 replaced) and
    /// returns it.
    pub fn set_host_name(&mut self, name: &[u8]) -> (r: String)
        ensures
            r@ == utf8_lossy(name@),
            valid_utf8(name@) ==> r@ == decode_utf8(name@),
            *final(self) == (UtsNs { hostname: final(self).hostname, ..*old(self) }),
            final(self).hostname@ == r@,
    {
        let s = text_from_bytes(name);
        let res = s.clone();
        self.hostname = s;
        res
    }

    /// Sets the domain name to the text of `name` (invalid UTF-8 replaced)
    /// and returns it.
    pub fn set_domain_name(&mut self, name: &[u8]) -> (r: String)
        ensures
            r@ == utf8_lossy(name@),
            valid_utf8(name@) ==> r@ == decode_utf8(name@),
            *final(self) == (UtsNs { domainname: final(self).domainname, ..*old(self) }),
            final(self).domainname@ == r@,
    {
        let s = text_from_bytes(name);
        let res = s.clone();
        self.domainname = s;
        res
    }

    /// The host name.
    pub fn get_host_name(&self) -> (r: String)
        ensures
            r@ == self.hostname@,
    {
        self.hostname.clone()
    }

    /// The domain name.
    pub fn get_domain_name(&self) -> (r: String)
        ensures
            r@ == self.domainname@,
    {
        self.domainname.clone()
    }

    /// The writes that fill a caller's `struct utsname` with this
    /// namespace's names.
    pub fn uname_writes(&self) -> (r: Vec<(usize, Vec<u8>)>)
        ensures
            uname_writes_of(*self, r@),
            r@.len() == 6,
            r@[0].0 == 0 && r@[0].1@ == encode_utf8(self.sysname@).push(0),
            r@[1].0 == 65 && r@[1].1@ == encode_utf8(self.hostname@).push(0),
            r@[2].0 == 130 && r@[2].1@ == encode_utf8(self.release@).push(0),
            r@[3].0 == 195 && r@[3].1@ == encode_utf8(self.version@).push(0),
            r@[4].0 == 260 && r@[4].1@ == encode_utf8(self.machine_arch@).push(0),
            r@[5].0 == 325 && r@[5].1@ == encode_utf8(self.domainname@).push(0),
    {
        let mut w: Vec<(usize, Vec<u8>)> = Vec::new();
        w.push((0, cstring(&self.sysname)));
        w.push((UTS_FIELD_LEN, cstring(&self.hostname)));
        w.push((2 * UTS_FIELD_LEN, cstring(&self.release)));
        w.push((3 * UTS_FIELD_LEN, cstring(&self.version)));
        w.push((4 * UTS_FIELD_LEN, cstring(&self.machine_arch)));
        w.push((5 * UTS_FIELD_LEN, cstring(&self.domainname)));
        w
    }
}

/// `new` is the UTS namespace `old` with only its host name changed, to
/// `name`.
pub open spec fn host_name_set(old: NsEnum, new: NsEnum, name: Seq<char>) -> bool {
    &&& old matches NsEnum::UtsNs(o)
    &&& new matches NsEnum::UtsNs(n)
    &&& n == UtsNs { hostname: n.hostname, ..o }
    &&& n.hostname@ == name
}

/// `new` is the UTS namespace `old` with only its domain name changed, to
/// `name`.
pub open spec fn domain_name_set(old: NsEnum, new: NsEnum, name: Seq<char>) -> bool {
    &&& old matches NsEnum::UtsNs(o)
    &&& new matches NsEnum::UtsNs(n)
    &&& n == UtsNs { domainname: n.domainname, ..o }
    &&& n.domainname@ == name
}

/// `m` holds a UTS namespace under `ns_id`.
pub open spec fn has_uts(m: Map<KoID, NsEnum>, ns_id: KoID) -> bool {
    m.contains_key(ns_id) && m[ns_id] is UtsNs
}

impl UtsNs {
    /// Makes the root UTS namespace with id `id`, owned by `usr_id`, with host
    /// name `zcore`, domain name `rcore-os` and the kernel's release strings
    /// (whose machine name is one the kernel reports); records it as the root of its kind and registers it; returns
    /// its id.
    pub fn new_root(mgr: &mut NsManager, id: KoID, usr_id: KoID, rel: UtsRelease) -> (r: KoID)
        requires
            old(mgr).wf(),
            !old(mgr)@.contains_key(id),
            known_arch(rel.machine_arch@),
        ensures
            r == id,
            final(mgr).wf(),
            final(mgr)@ == old(mgr)@.insert(id, final(mgr)@[id]),
            fresh_uts(
                final(mgr)@[id],
                id,
                None,
                usr_id,
                "zcore"@,
                "rcore-os"@,
                rel.release@,
                rel.version@,
                rel.machine_arch@,
            ),
            final(mgr).roots() == proxy_changed(old(mgr).roots(), NSType::CLONE_NEWUTS, id),
    {
        let root = UtsNs::new(
            id,
            None,
            "zcore".to_string(),
            "rcore-os".to_string(),
            usr_id,
            rel.release,
            rel.version,
            rel.machine_arch,
        );
        let root_id = root.get_ns_id();
        mgr.set_init_ns(NSType::CLONE_NEWUTS, root_id);
        mgr.insert(root.get_ns_instance());
        root_id
    }

    /// Makes a UTS namespace with id `id` under the UTS namespace `parent`,
    /// with a copy of the parent's names and owner; lists it as the parent's
    /// newest child and registers it; returns its id.
    pub fn new_child(mgr: &mut NsManager, parent: KoID, id: KoID) -> (r: KoID)
        requires
            old(mgr).wf(),
            has_uts(old(mgr)@, parent),
            !old(mgr)@.contains_key(id),
        ensures
            r == id,
            final(mgr).wf(),
            final(mgr).roots() == old(mgr).roots(),
            child_registered(old(mgr)@, final(mgr)@, parent, id, final(mgr)@[id]),
            old(mgr)@[parent] matches NsEnum::UtsNs(p) && fresh_uts(
                final(mgr)@[id],
                id,
                Some(parent),
                p.usr_ns,
                p.hostname@,
                p.domainname@,
                p.release@,
                p.version@,
                p.machine_arch@,
            ),
    {
        let (hostname, domainname, usr_id, release, version, machine_arch) = match mgr.get_ns(
            parent,
        ) {
            Some(NsEnum::UtsNs(p)) => (
                p.hostname.clone(),
                p.domainname.clone(),
                p.usr_ns,
                p.release.clone(),
                p.version.clone(),
                p.machine_arch.clone(),
            ),
            _ => {
                proof {
                    assert(false);
                }
                (String::new(), String::new(), 0, String::new(), String::new(), String::new())
            },
        };
        let child = UtsNs::new(
            id,
            Some(parent),
            hostname,
            domainname,
            usr_id,
            release,
            version,
            machine_arch,
        );
        mgr.register_child(parent, child.get_ns_instance())
    }
}

/// Makes a copy of the UTS namespace `father_ns_id` as its new child with id
/// `id`; `None`, with nothing changed, when there is no UTS namespace under
/// that id.
pub fn copy_utsname(mgr: &mut NsManager, father_ns_id: KoID, id: KoID) -> (r: Option<KoID>)
    requires
        old(mgr).wf(),
        !old(mgr)@.contains_key(id),
    ensures
        final(mgr).wf(),
        final(mgr).roots() == old(mgr).roots(),
        r is Some <==> has_uts(old(mgr)@, father_ns_id),
        r is Some <==> (old(mgr)@.contains_key(father_ns_id) && old(mgr)@[father_ns_id] is UtsNs),
        r is None ==> final(mgr)@ == old(mgr)@,
        r matches Some(c) ==> {
            &&& c == id
            &&& child_registered(old(mgr)@, final(mgr)@, father_ns_id, id, final(mgr)@[id])
            &&& old(mgr)@[father_ns_id] matches NsEnum::UtsNs(p) && fresh_uts(
                final(mgr)@[id],
                id,
                Some(father_ns_id),
                p.usr_ns,
                p.hostname@,
                p.domainname@,
                p.release@,
                p.version@,
                p.machine_arch@,
            )
        },
{
    let found = match mgr.get_ns(father_ns_id) {
        Some(NsEnum::UtsNs(_)) => true,
        _ => false,
    };
    if found {
        Some(UtsNs::new_child(mgr, father_ns_id, id))
    } else {
        None
    }
}

/// Sets the host name of the UTS namespace `ns_id` to the text of `name`
/// and returns it; `None`, with nothing changed, when there is no UTS
/// namespace under that id.
pub fn set_host_name(mgr: &mut NsManager, ns_id: KoID, name: &[u8]) -> (r: Option<String>)
    requires
        old(mgr).wf(),
    ensures
        final(mgr).wf(),
        final(mgr).roots() == old(mgr).roots(),
        r is Some <==> has_uts(old(mgr)@, ns_id),
        r is Some <==> (old(mgr)@.contains_key(ns_id) && old(mgr)@[ns_id] is UtsNs),
        r matches Some(t) ==> final(mgr)@.dom() == old(mgr)@.dom() && final(mgr)@[ns_id] is UtsNs
            && final(mgr)@[ns_id]->UtsNs_0.hostname@ == t@ && t@ == utf8_lossy(name@),
        r is None ==> final(mgr)@ == old(mgr)@,
        r matches Some(s) ==> {
            &&& s@ == utf8_lossy(name@)
            &&& valid_utf8(name@) ==> s@ == decode_utf8(name@)
            &&& final(mgr)@ == old(mgr)@.insert(ns_id, final(mgr)@[ns_id])
            &&& host_name_set(old(mgr)@[ns_id], final(mgr)@[ns_id], s@)
        },
{
    let found = match mgr.get_ns(ns_id) {
        Some(NsEnum::UtsNs(_)) => true,
        _ => false,
    };
    if !found {
        return None;
    }
    let e = mgr.get_ns_mut(ns_id);
    match e {
        NsEnum::UtsNs(uts) => Some(uts.set_host_name(name)),
        _ => None,
    }
}

/// Sets the domain name of the UTS namespace `ns_id` to the text of `name`
/// and returns it; `None`, with nothing changed, when there is no UTS
/// namespace under that id.
pub fn set_domain_name(mgr: &mut NsManager, ns_id: KoID, name: &[u8]) -> (r: Option<String>)
    requires
        old(mgr).wf(),
    ensures
        final(mgr).wf(),
        final(mgr).roots() == old(mgr).roots(),
        r is Some <==> has_uts(old(mgr)@, ns_id),
        r is Some <==> (old(mgr)@.contains_key(ns_id) && old(mgr)@[ns_id] is UtsNs),
        r matches Some(t) ==> final(mgr)@.dom() == old(mgr)@.dom() && final(mgr)@[ns_id] is UtsNs
            && final(mgr)@[ns_id]->UtsNs_0.domainname@ == t@ && t@ == utf8_lossy(name@),
        r is None ==> final(mgr)@ == old(mgr)@,
        r matches Some(s) ==> {
            &&& s@ == utf8_lossy(name@)
            &&& valid_utf8(name@) ==> s@ == decode_utf8(name@)
            &&& final(mgr)@ == old(mgr)@.insert(ns_id, final(mgr)@[ns_id])
            &&& domain_name_set(old(mgr)@[ns_id], final(mgr)@[ns_id], s@)
        },
{
    let found = match mgr.get_ns(ns_id) {
        Some(NsEnum::UtsNs(_)) => true,
        _ => false,
    };
    if !found {
        return None;
    }
    let e = mgr.get_ns_mut(ns_id);
    match e {
        NsEnum::UtsNs(uts) => Some(uts.set_domain_name(name)),
        _ => None,
    }
}

/// The host name of the UTS namespace `ns_id`, if there is one.
pub fn get_host_name(mgr: &NsManager, ns_id: KoID) -> (r: Option<String>)
    ensures
        r is Some <==> has_uts(mgr@, ns_id),
        r is Some <==> (mgr@.contains_key(ns_id) && mgr@[ns_id] is UtsNs),
        r matches Some(t) ==> t@ == mgr@[ns_id]->UtsNs_0.hostname@,
        r matches Some(s) ==> mgr@[ns_id] matches NsEnum::UtsNs(u) && s@ == u.hostname@,
{
    match mgr.get_ns(ns_id) {
        Some(NsEnum::UtsNs(uts)) => Some(uts.get_host_name()),
        _ => None,
    }
}

/// The domain name of the UTS namespace `ns_id`, if there is one.
pub fn get_domain_name(mgr: &NsManager, ns_id: KoID) -> (r: Option<String>)
    ensures
        r is Some <==> has_uts(mgr@, ns_id),
        r is Some <==> (mgr@.contains_key(ns_id) && mgr@[ns_id] is UtsNs),
        r matches Some(t) ==> t@ == mgr@[ns_id]->UtsNs_0.domainname@,
        r matches Some(s) ==> mgr@[ns_id] matches NsEnum::UtsNs(u) && s@ == u.domainname@,
{
    match mgr.get_ns(ns_id) {
        Some(NsEnum::UtsNs(uts)) => Some(uts.get_domain_name()),
        _ => None,
    }
}

/// The writes that fill a caller's `struct utsname` with the names of the
/// UTS namespace `ns_id`; `EUNDEF` when there is no UTS namespace under that
/// id.
pub fn get_uname(mgr: &NsManager, ns_id: KoID) -> (r: Result<Vec<(usize, Vec<u8>)>, LxError>)
    ensures
        r is Ok <==> has_uts(mgr@, ns_id),
        r is Ok <==> (mgr@.contains_key(ns_id) && mgr@[ns_id] is UtsNs),
        r matches Ok(w) ==> w@.len() == 6 && w@[1].1@ == encode_utf8(mgr@[ns_id]->UtsNs_0.hostname@).push(0)
            && w@[5].1@ == encode_utf8(mgr@[ns_id]->UtsNs_0.domainname@).push(0),
        r matches Err(e) ==> e == LxError::EUNDEF,
        r matches Ok(w) ==> mgr@[ns_id] matches NsEnum::UtsNs(u) && uname_writes_of(u, w@),
{
    match mgr.get_ns(ns_id) {
        Some(NsEnum::UtsNs(uts)) => Ok(uts.uname_writes()),
        _ => Err(LxError::EUNDEF),
    }
}

/// After the host name of a UTS namespace is set, reading it back gives the
/// new name, and `uname` reports the new name as the node name with every
/// other field as before.
pub proof fn lemma_host_name_read_back(old: NsEnum, new: NsEnum, name: Seq<char>)
    requires
        host_name_set(old, new, name),
    ensures
        new matches NsEnum::UtsNs(n) && n.hostname@ == name,
        old matches NsEnum::UtsNs(o) && new matches NsEnum::UtsNs(n) && uname_fields(n)
            == uname_fields(o).update(1, name),
        new.spec_base() == old.spec_base(),
{
    if let (NsEnum::UtsNs(o), NsEnum::UtsNs(n)) = (old, new) {
        assert(uname_fields(n) =~= uname_fields(o).update(1, name));
    }
}

/// After the domain name of a UTS namespace is set, reading it back gives
/// the new name, and `uname` reports it as the domain name with every other
/// field as before.
pub proof fn lemma_domain_name_read_back(old: NsEnum, new: NsEnum, name: Seq<char>)
    requires
        domain_name_set(old, new, name),
    ensures
        new matches NsEnum::UtsNs(n) && n.domainname@ == name,
        old matches NsEnum::UtsNs(o) && new matches NsEnum::UtsNs(n) && uname_fields(n)
            == uname_fields(o).update(5, name),
        new.spec_base() == old.spec_base(),
{
    if let (NsEnum::UtsNs(o), NsEnum::UtsNs(n)) = (old, new) {
        assert(uname_fields(n) =~= uname_fields(o).update(5, name));
    }
}

/// A child made by copying reports through `uname` exactly what its parent
/// reports.
pub proof fn lemma_copy_reports_same(
    parent: UtsNs,
    child: NsEnum,
    id: KoID,
    parent_id: KoID,
)
    requires
        fresh_uts(
            child,
            id,
            Some(parent_id),
            parent.usr_ns,
            parent.hostname@,
            parent.domainname@,
            parent.release@,
            parent.version@,
            parent.machine_arch@,
        ),
        parent.sysname@ == "Linux"@,
    ensures
        child matches NsEnum::UtsNs(c) && uname_fields(c) == uname_fields(parent),
{
    if let NsEnum::UtsNs(c) = child {
        assert(uname_fields(c) =~= uname_fields(parent));
    }
}

/// The C string of a text is its whole UTF-8 encoding and one NUL: one byte
/// longer than the encoding, ending in 0, and giving back the encoding when
/// the last byte is dropped.
pub proof fn lemma_cstring_is_whole_text(s: Seq<char>)
    ensures
        cstring_bytes(s).len() == encode_utf8(s).len() + 1,
        cstring_bytes(s).last() == 0,
        cstring_bytes(s).drop_last() == encode_utf8(s),
{
    assert(cstring_bytes(s).drop_last() =~= encode_utf8(s));
}

/// The writes that fill `struct utsname` carry each name whole: field `i`
/// at offset `i * 65`, as its full UTF-8 encoding followed by one NUL, in
/// the order system name, node (host) name, release, version, machine,
/// domain name.
pub proof fn lemma_uname_writes_exact(u: UtsNs, w: Seq<(usize, Vec<u8>)>)
    requires
        uname_writes_of(u, w),
    ensures
        w.len() == 6,
        w[0].0 == 0 && w[0].1@ == encode_utf8(u.sysname@).push(0),
        w[1].0 == 65 && w[1].1@ == encode_utf8(u.hostname@).push(0),
        w[2].0 == 130 && w[2].1@ == encode_utf8(u.release@).push(0),
        w[3].0 == 195 && w[3].1@ == encode_utf8(u.version@).push(0),
        w[4].0 == 260 && w[4].1@ == encode_utf8(u.machine_arch@).push(0),
        w[5].0 == 325 && w[5].1@ == encode_utf8(u.domainname@).push(0),
{
    assert(w[0].0 == 0 * UTS_FIELD_LEN);
    assert(w[1].0 == 1 * UTS_FIELD_LEN);
    assert(w[2].0 == 2 * UTS_FIELD_LEN);
    assert(w[3].0 == 3 * UTS_FIELD_LEN);
    assert(w[4].0 == 4 * UTS_FIELD_LEN);
    assert(w[5].0 == 5 * UTS_FIELD_LEN);
}

/// A UTS namespace counts as present whatever its names are, and nothing
/// else does: the host and domain names can be read, set and reported for
/// exactly the namespaces of this kind.
pub proof fn lemma_uts_present_whatever_names(m: Map<KoID, NsEnum>, ns_id: KoID, u: UtsNs)
    ensures
        has_uts(m, ns_id) <==> (m.contains_key(ns_id) && m[ns_id] is UtsNs),
        has_uts(m.insert(ns_id, NsEnum::UtsNs(u)), ns_id),
{
}

/// Setting a name and reading it back give the same text: after the host
/// name is set to `t`, the namespace is still there and its host name is
/// `t`; likewise for the domain name.
pub proof fn lemma_set_then_get(old: Map<KoID, NsEnum>, new: Map<KoID, NsEnum>, ns_id: KoID, t: Seq<char>)
    requires
        old.contains_key(ns_id),
        new == old.insert(ns_id, new[ns_id]),
        host_name_set(old[ns_id], new[ns_id], t) || domain_name_set(old[ns_id], new[ns_id], t),
    ensures
        has_uts(new, ns_id),
        host_name_set(old[ns_id], new[ns_id], t) ==> new[ns_id]->UtsNs_0.hostname@ == t,
        domain_name_set(old[ns_id], new[ns_id], t) ==> new[ns_id]->UtsNs_0.domainname@ == t,
        new[ns_id].spec_base() == old[ns_id].spec_base(),
{
}

} // verus!
