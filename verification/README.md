# linux_namespace

Linux namespaces for a kernel built on kernel objects, verified with Verus.

* `src/manager.rs` — `NsManager`: every namespace by kernel object id, the
  tree of namespaces of each kind (parent, children, no cycles), and the root
  namespace of each kind.
* `src/{cgroupns,ipcns,mntns,netns,pidns,usrns,utsns}.rs` — one module per
  kind: creating roots and children, and the per-kind state (IPC
  registrations, PID/TID tables that reach up to the root, UTS names and the
  `uname` layout).
* `src/proxy.rs` — `NsProxy`, the namespaces a process lives in.
* `src/syscall.rs` — `sethostname` / `setdomainname`.
* `src/table.rs` — the `hashbrown` tables and what the proofs rely on from them.
* `app/` — the shared global manager, build-time release strings and the
  user-memory side of the system calls.
