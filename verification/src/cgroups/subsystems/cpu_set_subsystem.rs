//! The `cpuset` controller: the processors that a cgroup may run on.

use crate::cgroups::subsystems::subsystem::{
    plan_apply, plan_remove, plan_set, FsAction, ResourceConfig, ResourceConfigView, Subsystem,
};
use crate::error::RuntimeError;
use vstd::prelude::*;

verus! {

/// The `cpuset` controller.
pub struct CpusetSubsystem {}

impl Subsystem for CpusetSubsystem {
    open spec fn spec_name(&self) -> Seq<char> {
        "cpuset"@
    }

    /// The processors go to `cpuset.cpus` as they are given, under either
    /// layout.
    open spec fn spec_limit(&self, res: ResourceConfigView, v2: bool) -> Option<
        (Seq<char>, Seq<char>),
    > {
        match res.cpu_set {
            None => None,
            Some(cpus) => Some(("cpuset.cpus"@, cpus)),
        }
    }

    fn name(&self) -> (name: &'static str) {
        "cpuset"
    }

    fn set(&self, cgroup_path: &str, res: &ResourceConfig, mountinfo: &str) -> (plan: Result<
        Vec<FsAction>,
        RuntimeError,
    >) {
        let limit = match &res.cpu_set {
            None => None,
            Some(cpus) => Some(("cpuset.cpus", cpus.clone())),
        };
        plan_set(self.name(), limit, cgroup_path, mountinfo)
    }

    fn apply(&self, cgroup_path: &str, pid: i32, mountinfo: &str) -> (plan: Result<
        Vec<FsAction>,
        RuntimeError,
    >) {
        plan_apply(self.name(), cgroup_path, pid, mountinfo)
    }

    fn remove(&self, cgroup_path: &str, mountinfo: &str) -> (plan: Result<
        Vec<FsAction>,
        RuntimeError,
    >) {
        plan_remove(self.name(), cgroup_path, mountinfo)
    }
}

impl CpusetSubsystem {
    /// The controller.
    pub fn new() -> (s: CpusetSubsystem)
        ensures
            s == (CpusetSubsystem {  }),
    {
        CpusetSubsystem {  }
    }
}

} // verus!
