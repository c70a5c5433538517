//! What a controller is asked to do, and what it asks of the file system in
//! return.

use crate::cgroups::subsystems::cpu_set_subsystem::CpusetSubsystem;
use crate::cgroups::subsystems::cpu_subsystem::CpuSubsystem;
use crate::cgroups::subsystems::memory_subsystem::MemorySubsystem;
use crate::cgroups::subsystems::util::{get_cgroup_path, is_cgroup_v2, mount_point_of, shows_v2};
use crate::error::{RuntimeError, RuntimeErrorView};
use crate::text::{join, join_path, opt_text, signed_decimal, signed_decimal_string};
use vstd::prelude::*;

verus! {

/// The limits that a user asks for. A field that is absent asks for nothing.
#[derive(Debug)]
pub struct ResourceConfig {
    pub memory_limit: Option<String>,
    pub cpu_shares: Option<String>,
    pub cpu_set: Option<String>,
}

/// A `ResourceConfig` with its texts as sequences of characters.
pub struct ResourceConfigView {
    pub memory_limit: Option<Seq<char>>,
    pub cpu_shares: Option<Seq<char>>,
    pub cpu_set: Option<Seq<char>>,
}

impl View for ResourceConfig {
    type V = ResourceConfigView;

    open spec fn view(&self) -> ResourceConfigView {
        ResourceConfigView {
            memory_limit: opt_text(self.memory_limit),
            cpu_shares: opt_text(self.cpu_shares),
            cpu_set: opt_text(self.cpu_set),
        }
    }
}

impl Default for ResourceConfig {
    fn default() -> (res: ResourceConfig)
        ensures
            res@ == (ResourceConfigView { memory_limit: None, cpu_shares: None, cpu_set: None }),
    {
        ResourceConfig { memory_limit: None, cpu_shares: None, cpu_set: None }
    }
}

/// One thing to do to the cgroup file system.
#[derive(Debug)]
pub enum FsAction {
    /// If nothing exists at `path`, create the directory and the missing
    /// directories above it, with permissions `mode`.
    CreateDirAll { path: String, mode: u32 },
    /// Write `content`, and nothing after it, to the file at `path`. With
    /// `truncate` the file is created or emptied first (a new file gets
    /// permissions `mode`); without, it is opened for writing as it is.
    WriteFile { path: String, content: String, mode: u32, truncate: bool },
    /// Remove the empty directory at `path`.
    RemoveDir { path: String },
}

/// An `FsAction` with its texts as sequences of characters.
pub enum FsActionView {
    CreateDirAll { path: Seq<char>, mode: u32 },
    WriteFile { path: Seq<char>, content: Seq<char>, mode: u32, truncate: bool },
    RemoveDir { path: Seq<char> },
}

impl View for FsAction {
    type V = FsActionView;

    open spec fn view(&self) -> FsActionView {
        match self {
            FsAction::CreateDirAll { path, mode } => FsActionView::CreateDirAll {
                path: path@,
                mode: *mode,
            },
            FsAction::WriteFile { path, content, mode, truncate } => FsActionView::WriteFile {
                path: path@,
                content: content@,
                mode: *mode,
                truncate: *truncate,
            },
            FsAction::RemoveDir { path } => FsActionView::RemoveDir { path: path@ },
        }
    }
}

impl FsAction {
    /// The path that the action works on.
    pub fn path(&self) -> (path: &String)
        ensures
            path@ == action_path(self@),
    {
        match self {
            FsAction::CreateDirAll { path, .. } => path,
            FsAction::WriteFile { path, .. } => path,
            FsAction::RemoveDir { path } => path,
        }
    }
}

/// The path that an action works on.
pub open spec fn action_path(action: FsActionView) -> Seq<char> {
    match action {
        FsActionView::CreateDirAll { path, .. } => path,
        FsActionView::WriteFile { path, .. } => path,
        FsActionView::RemoveDir { path } => path,
    }
}

/// The actions of a list, each by its view.
pub open spec fn actions_view(actions: Seq<FsAction>) -> Seq<FsActionView> {
    Seq::new(actions.len(), |k: int| actions[k]@)
}

/// What a controller answers: the actions to carry out in order, or why it
/// has none to give.
pub open spec fn plan_view(plan: Result<Vec<FsAction>, RuntimeError>) -> Result<
    Seq<FsActionView>,
    RuntimeErrorView,
> {
    match plan {
        Ok(actions) => Ok(actions_view(actions@)),
        Err(e) => Err(e@),
    }
}

/// The file that takes the process ids of a cgroup's members.
pub open spec fn tasks_file(v2: bool) -> Seq<char> {
    if v2 {
        "cgroup.procs"@
    } else {
        "tasks"@
    }
}

/// The directory of the cgroup `cgroup_path` under the controller `name`.
pub open spec fn cgroup_dir(
    name: Seq<char>,
    cgroup_path: Seq<char>,
    mountinfo: Seq<char>,
) -> Option<Seq<char>> {
    match mount_point_of(name, mountinfo) {
        Some(mount_point) => Some(join_path(mount_point, cgroup_path)),
        None => None,
    }
}

/// Setting a limit: the cgroup's directory is created if it is missing, and
/// the limit, a file name and a value, if there is one, is written to a
/// fresh file of mode `0644` in it.
pub open spec fn set_plan(
    name: Seq<char>,
    limit: Option<(Seq<char>, Seq<char>)>,
    cgroup_path: Seq<char>,
    mountinfo: Seq<char>,
) -> Result<Seq<FsActionView>, RuntimeErrorView> {
    match cgroup_dir(name, cgroup_path, mountinfo) {
        None => Err(RuntimeErrorView::MountPointNotFound { subsystem: name }),
        Some(dir) => {
            let create = FsActionView::CreateDirAll { path: dir, mode: 0o755 };
            match limit {
                None => Ok(seq![create]),
                Some((file, value)) => Ok(
                    seq![
                        create,
                        FsActionView::WriteFile {
                            path: join_path(dir, file),
                            content: value,
                            mode: 0o644,
                            truncate: true,
                        },
                    ],
                ),
            }
        },
    }
}

/// Adding a process: its id in decimal, with no line end, is written to the
/// member file of the cgroup's directory, which is opened without being
/// emptied. The directory is not created.
pub open spec fn apply_plan(
    name: Seq<char>,
    pid: int,
    cgroup_path: Seq<char>,
    mountinfo: Seq<char>,
) -> Result<Seq<FsActionView>, RuntimeErrorView> {
    match cgroup_dir(name, cgroup_path, mountinfo) {
        None => Err(RuntimeErrorView::MountPointNotFound { subsystem: name }),
        Some(dir) => Ok(
            seq![
                FsActionView::WriteFile {
                    path: join_path(dir, tasks_file(shows_v2(mountinfo))),
                    content: signed_decimal(pid),
                    mode: 0o644,
                    truncate: false,
                },
            ],
        ),
    }
}

/// Removing a cgroup: its directory is removed.
pub open spec fn remove_plan(
    name: Seq<char>,
    cgroup_path: Seq<char>,
    mountinfo: Seq<char>,
) -> Result<Seq<FsActionView>, RuntimeErrorView> {
    match cgroup_dir(name, cgroup_path, mountinfo) {
        None => Err(RuntimeErrorView::MountPointNotFound { subsystem: name }),
        Some(dir) => Ok(seq![FsActionView::RemoveDir { path: dir }]),
    }
}

/// A controller of the cgroup file system. A cgroup is named by its path
/// below the controller's mount point; `mountinfo` is the text of the mount
/// table, from which the mount point and the layout are read.
pub trait Subsystem {
    /// The controller's name in the kernel.
    spec fn spec_name(&self) -> Seq<char>;

    /// The file and the value that the controller writes for `res`, if any.
    spec fn spec_limit(&self, res: ResourceConfigView, v2: bool) -> Option<(Seq<char>, Seq<char>)>;

    /// The controller's name in the kernel.
    fn name(&self) -> (name: &'static str)
        ensures
            name@ == self.spec_name(),
    ;

    /// The actions that set the limits of `res` on the cgroup.
    fn set(&self, cgroup_path: &str, res: &ResourceConfig, mountinfo: &str) -> (plan: Result<
        Vec<FsAction>,
        RuntimeError,
    >)
        ensures
            plan_view(plan) == set_plan(
                self.spec_name(),
                self.spec_limit(res@, shows_v2(mountinfo@)),
                cgroup_path@,
                mountinfo@,
            ),
    ;

    /// The actions that add the process `pid` to the cgroup.
    fn apply(&self, cgroup_path: &str, pid: i32, mountinfo: &str) -> (plan: Result<
        Vec<FsAction>,
        RuntimeError,
    >)
        ensures
            plan_view(plan) == apply_plan(self.spec_name(), pid as int, cgroup_path@, mountinfo@),
    ;

    /// The actions that remove the cgroup.
    fn remove(&self, cgroup_path: &str, mountinfo: &str) -> (plan: Result<
        Vec<FsAction>,
        RuntimeError,
    >)
        ensures
            plan_view(plan) == remove_plan(self.spec_name(), cgroup_path@, mountinfo@),
    ;
}

/// The actions that set a limit, for any controller.
pub fn plan_set(
    name: &str,
    limit: Option<(&str, String)>,
    cgroup_path: &str,
    mountinfo: &str,
) -> (plan: Result<Vec<FsAction>, RuntimeError>)
    ensures
        plan_view(plan) == set_plan(
            name@,
            match limit {
                Some((file, value)) => Some((file@, value@)),
                None => None,
            },
            cgroup_path@,
            mountinfo@,
        ),
{
    match get_cgroup_path(name, cgroup_path, true, mountinfo) {
        Err(e) => Err(e),
        Ok(dir) => {
            let mut actions: Vec<FsAction> = Vec::new();
            match limit {
                None => {
                    actions.push(FsAction::CreateDirAll { path: dir.path, mode: 0o755 });
                    assert(actions_view(actions@) =~= seq![actions@[0]@]);
                },
                Some((file, value)) => {
                    let target = join(dir.path.as_str(), file);
                    actions.push(FsAction::CreateDirAll { path: dir.path, mode: 0o755 });
                    actions.push(
                        FsAction::WriteFile {
                            path: target,
                            content: value,
                            mode: 0o644,
                            truncate: true,
                        },
                    );
                    assert(actions_view(actions@) =~= seq![actions@[0]@, actions@[1]@]);
                },
            }
            Ok(actions)
        },
    }
}

/// The actions that add a process, for any controller.
pub fn plan_apply(name: &str, cgroup_path: &str, pid: i32, mountinfo: &str) -> (plan: Result<
    Vec<FsAction>,
    RuntimeError,
>)
    ensures
        plan_view(plan) == apply_plan(name@, pid as int, cgroup_path@, mountinfo@),
{
    match get_cgroup_path(name, cgroup_path, false, mountinfo) {
        Err(e) => Err(e),
        Ok(dir) => {
            let file = if is_cgroup_v2(mountinfo) {
                "cgroup.procs"
            } else {
                "tasks"
            };
            let mut actions: Vec<FsAction> = Vec::new();
            actions.push(
                FsAction::WriteFile {
                    path: join(dir.path.as_str(), file),
                    content: signed_decimal_string(pid),
                    mode: 0o644,
                    truncate: false,
                },
            );
            assert(actions_view(actions@) =~= seq![actions@[0]@]);
            Ok(actions)
        },
    }
}

/// The actions that remove a cgroup, for any controller.
pub fn plan_remove(name: &str, cgroup_path: &str, mountinfo: &str) -> (plan: Result<
    Vec<FsAction>,
    RuntimeError,
>)
    ensures
        plan_view(plan) == remove_plan(name@, cgroup_path@, mountinfo@),
{
    match get_cgroup_path(name, cgroup_path, false, mountinfo) {
        Err(e) => Err(e),
        Ok(dir) => {
            let mut actions: Vec<FsAction> = Vec::new();
            actions.push(FsAction::RemoveDir { path: dir.path });
            assert(actions_view(actions@) =~= seq![actions@[0]@]);
            Ok(actions)
        },
    }
}

/// One of the three controllers.
pub enum AnySubsystem {
    Cpu(CpuSubsystem),
    Cpuset(CpusetSubsystem),
    Memory(MemorySubsystem),
}

impl Subsystem for AnySubsystem {
    open spec fn spec_name(&self) -> Seq<char> {
        match self {
            AnySubsystem::Cpu(s) => s.spec_name(),
            AnySubsystem::Cpuset(s) => s.spec_name(),
            AnySubsystem::Memory(s) => s.spec_name(),
        }
    }

    open spec fn spec_limit(&self, res: ResourceConfigView, v2: bool) -> Option<
        (Seq<char>, Seq<char>),
    > {
        match self {
            AnySubsystem::Cpu(s) => s.spec_limit(res, v2),
            AnySubsystem::Cpuset(s) => s.spec_limit(res, v2),
            AnySubsystem::Memory(s) => s.spec_limit(res, v2),
        }
    }

    fn name(&self) -> (name: &'static str) {
        match self {
            AnySubsystem::Cpu(s) => s.name(),
            AnySubsystem::Cpuset(s) => s.name(),
            AnySubsystem::Memory(s) => s.name(),
        }
    }

    fn set(&self, cgroup_path: &str, res: &ResourceConfig, mountinfo: &str) -> (plan: Result<
        Vec<FsAction>,
        RuntimeError,
    >) {
        match self {
            AnySubsystem::Cpu(s) => s.set(cgroup_path, res, mountinfo),
            AnySubsystem::Cpuset(s) => s.set(cgroup_path, res, mountinfo),
            AnySubsystem::Memory(s) => s.set(cgroup_path, res, mountinfo),
        }
    }

    fn apply(&self, cgroup_path: &str, pid: i32, mountinfo: &str) -> (plan: Result<
        Vec<FsAction>,
        RuntimeError,
    >) {
        match self {
            AnySubsystem::Cpu(s) => s.apply(cgroup_path, pid, mountinfo),
            AnySubsystem::Cpuset(s) => s.apply(cgroup_path, pid, mountinfo),
            AnySubsystem::Memory(s) => s.apply(cgroup_path, pid, mountinfo),
        }
    }

    fn remove(&self, cgroup_path: &str, mountinfo: &str) -> (plan: Result<
        Vec<FsAction>,
        RuntimeError,
    >) {
        match self {
            AnySubsystem::Cpu(s) => s.remove(cgroup_path, mountinfo),
            AnySubsystem::Cpuset(s) => s.remove(cgroup_path, mountinfo),
            AnySubsystem::Memory(s) => s.remove(cgroup_path, mountinfo),
        }
    }
}

/// The names of the controllers, in the order in which they are asked.
pub open spec fn subsystem_names() -> Seq<Seq<char>> {
    seq!["cpu"@, "cpuset"@, "memory"@]
}

/// The controllers, in the order in which they are asked: cpu, cpuset,
/// memory.
pub fn get_subsystems_initialized() -> (all: Vec<AnySubsystem>)
    ensures
        all.len() == 3,
        all@[0] is Cpu,
        all@[1] is Cpuset,
        all@[2] is Memory,
        forall|k: int| 0 <= k < 3 ==> (#[trigger] all@[k]).spec_name() == subsystem_names()[k],
{
    let mut all: Vec<AnySubsystem> = Vec::new();
    all.push(AnySubsystem::Cpu(CpuSubsystem::new()));
    all.push(AnySubsystem::Cpuset(CpusetSubsystem::new()));
    all.push(AnySubsystem::Memory(MemorySubsystem::new()));
    all
}

} // verus!
