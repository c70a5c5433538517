//! The `memory` controller: how much memory a cgroup may use.

use crate::cgroups::subsystems::subsystem::{
    plan_apply, plan_remove, plan_set, FsAction, ResourceConfig, ResourceConfigView, Subsystem,
};
use crate::cgroups::subsystems::util::is_cgroup_v2;
use crate::error::RuntimeError;
use vstd::prelude::*;

verus! {

/// The `memory` controller.
pub struct MemorySubsystem {}

impl Subsystem for MemorySubsystem {
    open spec fn spec_name(&self) -> Seq<char> {
        "memory"@
    }

    /// The limit goes as it is given to `memory.limit_in_bytes` under the
    /// older layout and to `memory.max` under the unified one. The kernel
    /// reads it as a number of bytes; it is not converted here.
    open spec fn spec_limit(&self, res: ResourceConfigView, v2: bool) -> Option<
        (Seq<char>, Seq<char>),
    > {
        match res.memory_limit {
            None => None,
            Some(limit) => if v2 {
                Some(("memory.max"@, limit))
            } else {
                Some(("memory.limit_in_bytes"@, limit))
            },
        }
    }

    fn name(&self) -> (name: &'static str) {
        "memory"
    }

    fn set(&self, cgroup_path: &str, res: &ResourceConfig, mountinfo: &str) -> (plan: Result<
        Vec<FsAction>,
        RuntimeError,
    >) {
        let limit = match &res.memory_limit {
            None => None,
            Some(limit) => if is_cgroup_v2(mountinfo) {
                Some(("memory.max", limit.clone()))
            } else {
                Some(("memory.limit_in_bytes", limit.clone()))
            },
        };
        plan_set(self.name(), limit, cgroup_path, mountinfo)
    }

    fn apply(&self, cgroup_path: &str, pid: i32, mountinfo: &str) -> (plan: Result<
        Vec<FsAction>,
        RuntimeError,
    >) {
        plan_apply(self.name(), cgroup_path, pid, mountinfo)
    }

    fn remove(&self, cgroup_path: &str, mountinfo: &str) -> (plan: Result<
        Vec<FsAction>,
        RuntimeError,
    >) {
        plan_remove(self.name(), cgroup_path, mountinfo)
    }
}

impl MemorySubsystem {
    /// The controller.
    pub fn new() -> (s: MemorySubsystem)
        ensures
            s == (MemorySubsystem {  }),
    {
        MemorySubsystem {  }
    }
}

} // verus!
