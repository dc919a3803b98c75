//! A namespace of any kind, as the manager stores it.
use vstd::prelude::*;
use crate::KoID;
use crate::nstype::NSType;
use crate::base::{NsBase, NS};
use crate::cgroupns::CgroupNs;
use crate::ipcns::IpcNs;
use crate::mntns::MntNs;
use crate::netns::NetNs;
use crate::pidns::{PidNs, pid_tables_wf};
use crate::usrns::UsrNs;
use crate::utsns::UtsNs;
use vstd::std_specs::convert::TryFromSpecImpl;

verus! {

/// A namespace of any kind.
pub enum NsEnum {
    MntNs(MntNs),
    UtsNs(UtsNs),
    IpcNs(IpcNs),
    PidNs(PidNs),
    NetNs(NetNs),
    UsrNs(UsrNs),
    CgroupNs(CgroupNs),
}

impl NsEnum {
    /// The base of the namespace, whatever its kind.
    pub open spec fn spec_base(&self) -> NsBase {
        match self {
            NsEnum::MntNs(n) => n.base,
            NsEnum::UtsNs(n) => n.base,
            NsEnum::IpcNs(n) => n.base,
            NsEnum::PidNs(n) => n.base,
            NsEnum::NetNs(n) => n.base,
            NsEnum::UsrNs(n) => n.base,
            NsEnum::CgroupNs(n) => n.base,
        }
    }

    /// The kind that the variant stands for.
    pub open spec fn kind(&self) -> NSType {
        match self {
            NsEnum::MntNs(_) => NSType::CLONE_NEWNS,
            NsEnum::UtsNs(_) => NSType::CLONE_NEWUTS,
            NsEnum::IpcNs(_) => NSType::CLONE_NEWIPC,
            NsEnum::PidNs(_) => NSType::CLONE_NEWPID,
            NsEnum::NetNs(_) => NSType::CLONE_NEWNET,
            NsEnum::UsrNs(_) => NSType::CLONE_NEWUSER,
            NsEnum::CgroupNs(_) => NSType::CLONE_NEWCGROUP,
        }
    }

    /// The kind flag that a namespace of this variant records in its base.
    /// UTS, IPC, PID and network namespaces record `CLONE_NEWNS`, as the
    /// kernel always has; mount, user and cgroup namespaces record their own
    /// flag (recording `CLONE_NEWNS` would make a user or cgroup namespace
    /// fail its own conversion into this enum, so no such namespace could be
    /// registered).
    pub open spec fn recorded_type(&self) -> NSType {
        match self {
            NsEnum::UsrNs(_) => NSType::CLONE_NEWUSER,
            NsEnum::CgroupNs(_) => NSType::CLONE_NEWCGROUP,
            _ => NSType::CLONE_NEWNS,
        }
    }

    /// The base records the flag that its variant records.
    pub open spec fn kind_ok(&self) -> bool {
        self.spec_base().nstype == self.recorded_type()
    }

    /// The state particular to the kind is consistent; only PID namespaces
    /// have such state.
    pub open spec fn payload_wf(&self) -> bool {
        match self {
            NsEnum::PidNs(p) => pid_tables_wf(*p),
            _ => true,
        }
    }

    /// The same namespace with its base replaced by `b`.
    pub open spec fn with_base(self, b: NsBase) -> NsEnum {
        match self {
            NsEnum::MntNs(n) => NsEnum::MntNs(MntNs { base: b, ..n }),
            NsEnum::UtsNs(n) => NsEnum::UtsNs(UtsNs { base: b, ..n }),
            NsEnum::IpcNs(n) => NsEnum::IpcNs(IpcNs { base: b, ..n }),
            NsEnum::PidNs(n) => NsEnum::PidNs(PidNs { base: b, ..n }),
            NsEnum::NetNs(n) => NsEnum::NetNs(NetNs { base: b, ..n }),
            NsEnum::UsrNs(n) => NsEnum::UsrNs(UsrNs { base: b, ..n }),
            NsEnum::CgroupNs(n) => NsEnum::CgroupNs(CgroupNs { base: b, ..n }),
        }
    }

    /// Appends `id` to the children of the namespace, leaving everything
    /// else as it was.
    pub(crate) fn push_child(&mut self, id: KoID)
        ensures
            *final(self) == old(self).with_base(final(self).spec_base()),
            final(self).spec_base() == (NsBase {
                child_ns_vec: final(self).spec_base().child_ns_vec,
                ..old(self).spec_base()
            }),
            final(self).spec_base().child_ns_vec@ == old(self).spec_base().child_ns_vec@.push(id),
    {
        match self {
            NsEnum::MntNs(n) => n.base.child_ns_vec.push(id),
            NsEnum::UtsNs(n) => n.base.child_ns_vec.push(id),
            NsEnum::IpcNs(n) => n.base.child_ns_vec.push(id),
            NsEnum::PidNs(n) => n.base.child_ns_vec.push(id),
            NsEnum::NetNs(n) => n.base.child_ns_vec.push(id),
            NsEnum::UsrNs(n) => n.base.child_ns_vec.push(id),
            NsEnum::CgroupNs(n) => n.base.child_ns_vec.push(id),
        }
    }
}

impl NS for NsEnum {
    open spec fn ns_base_spec(&self) -> NsBase {
        self.spec_base()
    }

    fn get_ns_id(&self) -> (r: KoID) {
        match self {
            NsEnum::CgroupNs(ns) => ns.get_ns_id(),
            NsEnum::IpcNs(ns) => ns.get_ns_id(),
            NsEnum::MntNs(ns) => ns.get_ns_id(),
            NsEnum::NetNs(ns) => ns.get_ns_id(),
            NsEnum::PidNs(ns) => ns.get_ns_id(),
            NsEnum::UsrNs(ns) => ns.get_ns_id(),
            NsEnum::UtsNs(ns) => ns.get_ns_id(),
        }
    }

    fn get_ns_type(&self) -> (r: NSType) {
        match self {
            NsEnum::CgroupNs(ns) => ns.get_ns_type(),
            NsEnum::IpcNs(ns) => ns.get_ns_type(),
            NsEnum::MntNs(ns) => ns.get_ns_type(),
            NsEnum::NetNs(ns) => ns.get_ns_type(),
            NsEnum::PidNs(ns) => ns.get_ns_type(),
            NsEnum::UsrNs(ns) => ns.get_ns_type(),
            NsEnum::UtsNs(ns) => ns.get_ns_type(),
        }
    }

    fn get_ns_base(&self) -> (r: &NsBase) {
        match self {
            NsEnum::CgroupNs(ns) => ns.get_ns_base(),
            NsEnum::IpcNs(ns) => ns.get_ns_base(),
            NsEnum::MntNs(ns) => ns.get_ns_base(),
            NsEnum::NetNs(ns) => ns.get_ns_base(),
            NsEnum::PidNs(ns) => ns.get_ns_base(),
            NsEnum::UsrNs(ns) => ns.get_ns_base(),
            NsEnum::UtsNs(ns) => ns.get_ns_base(),
        }
    }

    fn get_parent_ns(&self) -> (r: Option<KoID>) {
        match self {
            NsEnum::CgroupNs(ns) => ns.get_parent_ns(),
            NsEnum::IpcNs(ns) => ns.get_parent_ns(),
            NsEnum::MntNs(ns) => ns.get_parent_ns(),
            NsEnum::NetNs(ns) => ns.get_parent_ns(),
            NsEnum::PidNs(ns) => ns.get_parent_ns(),
            NsEnum::UsrNs(ns) => ns.get_parent_ns(),
            NsEnum::UtsNs(ns) => ns.get_parent_ns(),
        }
    }

    fn get_ns_instance(self) -> (r: NsEnum)
        ensures
            r == self,
    {
        self
    }
}

/// The result of converting a namespace of one kind into the enum: the
/// matching variant when the kind recorded in its base is `t`, else the
/// unit error.
pub open spec fn checked_variant(b: NsBase, t: NSType, e: NsEnum) -> Result<NsEnum, ()> {
    if b.nstype == t {
        Ok(e)
    } else {
        Err(())
    }
}

impl TryFrom<MntNs> for NsEnum {
    type Error = ();

    fn try_from(value: MntNs) -> (r: Result<Self, Self::Error>) {
        if value.get_ns_type() == NSType::CLONE_NEWNS {
            Ok(NsEnum::MntNs(value))
        } else {
            Err(())
        }
    }
}

impl TryFromSpecImpl<MntNs> for NsEnum {
    open spec fn obeys_try_from_spec() -> bool {
        true
    }

    open spec fn try_from_spec(v: MntNs) -> Result<Self, Self::Error> {
        checked_variant(v.base, NSType::CLONE_NEWNS, NsEnum::MntNs(v))
    }
}

impl TryFrom<UtsNs> for NsEnum {
    type Error = ();

    fn try_from(value: UtsNs) -> (r: Result<Self, Self::Error>) {
        if value.get_ns_type() == NSType::CLONE_NEWUTS {
            Ok(NsEnum::UtsNs(value))
        } else {
            Err(())
        }
    }
}

impl TryFromSpecImpl<UtsNs> for NsEnum {
    open spec fn obeys_try_from_spec() -> bool {
        true
    }

    open spec fn try_from_spec(v: UtsNs) -> Result<Self, Self::Error> {
        checked_variant(v.base, NSType::CLONE_NEWUTS, NsEnum::UtsNs(v))
    }
}

impl TryFrom<IpcNs> for NsEnum {
    type Error = ();

    fn try_from(value: IpcNs) -> (r: Result<Self, Self::Error>) {
        if value.get_ns_type() == NSType::CLONE_NEWIPC {
            Ok(NsEnum::IpcNs(value))
        } else {
            Err(())
        }
    }
}

impl TryFromSpecImpl<IpcNs> for NsEnum {
    open spec fn obeys_try_from_spec() -> bool {
        true
    }

    open spec fn try_from_spec(v: IpcNs) -> Result<Self, Self::Error> {
        checked_variant(v.base, NSType::CLONE_NEWIPC, NsEnum::IpcNs(v))
    }
}

impl TryFrom<PidNs> for NsEnum {
    type Error = ();

    fn try_from(value: PidNs) -> (r: Result<Self, Self::Error>) {
        if value.get_ns_type() == NSType::CLONE_NEWPID {
            Ok(NsEnum::PidNs(value))
        } else {
            Err(())
        }
    }
}

impl TryFromSpecImpl<PidNs> for NsEnum {
    open spec fn obeys_try_from_spec() -> bool {
        true
    }

    open spec fn try_from_spec(v: PidNs) -> Result<Self, Self::Error> {
        checked_variant(v.base, NSType::CLONE_NEWPID, NsEnum::PidNs(v))
    }
}

impl TryFrom<NetNs> for NsEnum {
    type Error = ();

    fn try_from(value: NetNs) -> (r: Result<Self, Self::Error>) {
        if value.get_ns_type() == NSType::CLONE_NEWNET {
            Ok(NsEnum::NetNs(value))
        } else {
            Err(())
        }
    }
}

impl TryFromSpecImpl<NetNs> for NsEnum {
    open spec fn obeys_try_from_spec() -> bool {
        true
    }

    open spec fn try_from_spec(v: NetNs) -> Result<Self, Self::Error> {
        checked_variant(v.base, NSType::CLONE_NEWNET, NsEnum::NetNs(v))
    }
}

impl TryFrom<UsrNs> for NsEnum {
    type Error = ();

    fn try_from(value: UsrNs) -> (r: Result<Self, Self::Error>) {
        if value.get_ns_type() == NSType::CLONE_NEWUSER {
            Ok(NsEnum::UsrNs(value))
        } else {
            Err(())
        }
    }
}

impl TryFromSpecImpl<UsrNs> for NsEnum {
    open spec fn obeys_try_from_spec() -> bool {
        true
    }

    open spec fn try_from_spec(v: UsrNs) -> Result<Self, Self::Error> {
        checked_variant(v.base, NSType::CLONE_NEWUSER, NsEnum::UsrNs(v))
    }
}

impl TryFrom<CgroupNs> for NsEnum {
    type Error = ();

    fn try_from(value: CgroupNs) -> (r: Result<Self, Self::Error>) {
        if value.get_ns_type() == NSType::CLONE_NEWCGROUP {
            Ok(NsEnum::CgroupNs(value))
        } else {
            Err(())
        }
    }
}

impl TryFromSpecImpl<CgroupNs> for NsEnum {
    open spec fn obeys_try_from_spec() -> bool {
        true
    }

    open spec fn try_from_spec(v: CgroupNs) -> Result<Self, Self::Error> {
        checked_variant(v.base, NSType::CLONE_NEWCGROUP, NsEnum::CgroupNs(v))
    }
}

} // verus!
