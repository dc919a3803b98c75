//! Linux namespaces for a kernel object model: the namespace tree, the
//! per-process namespace proxy, and the per-kind state of UTS, IPC and PID
//! namespaces, all kept in one manager keyed by kernel object id.
use vstd::prelude::*;

pub mod base;
pub mod cgroupns;
pub mod error;
pub mod ipcns;
pub mod manager;
pub mod mntns;
pub mod netns;
pub mod nsenum;
pub mod nstype;
pub mod pidns;
pub mod proxy;
pub mod syscall;
pub mod table;
pub mod usrns;
pub mod utsns;

verus! {

/// Kernel object id: the key under which every namespace is registered.
pub type KoID = u64;

} // verus!
