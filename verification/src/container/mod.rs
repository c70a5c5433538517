//! Containers: their records, where the records are kept, and how a
//! container is started and set up from the inside.
//!
//! A container is started in two steps. The runtime starts itself once more
//! (`/proc/self/exe init <command>`) in new namespaces; that second process,
//! the first one inside the container, changes its root, mounts what the
//! command needs, and replaces itself by the command.

pub mod info;
pub mod lifecycle;
pub mod store;

use crate::error::{RuntimeError, RuntimeErrorView};
use crate::text::{join, join_path, opt_text, split, split_text, texts_view};
use vstd::prelude::*;

verus! {

/// A namespace of the kernel.
#[derive(Debug, Clone, Copy, PartialEq, Eq, Structural)]
pub enum Namespace {
    Uts,
    Ipc,
    Pid,
    Mount,
    Net,
    User,
}

/// Where the standard input and outputs of a new process go.
#[derive(Debug, Clone, Copy, PartialEq, Eq, Structural)]
pub enum StdioMode {
    /// To where those of the runtime go: the container has the terminal.
    Inherit,
    /// To pipes that the runtime holds, so that it can capture the output.
    Piped,
}

/// How to start the first process of a container.
#[derive(Debug)]
pub struct LaunchPlan {
    /// The program to start: the runtime itself.
    pub program: String,
    /// Its arguments: `init` and the command.
    pub args: Vec<String>,
    pub stdio: StdioMode,
    /// The namespaces to leave when the process is made, all at once.
    pub namespaces: Vec<Namespace>,
    /// The directory under the new root that takes the old root when the
    /// root is changed. It is made before the process is started.
    pub scratch_dir: String,
    /// The permissions of the scratch directory.
    pub scratch_mode: u32,
    /// The directory that the process starts in: the new root.
    pub working_dir: String,
    /// The reading end of the pipe between the runtime and the process, which
    /// the process keeps under this number.
    pub read_pipe_fd: i32,
    /// The writing end of that pipe, which both keep under this number.
    pub write_pipe_fd: i32,
}

/// A `LaunchPlan` with its texts as sequences of characters.
pub struct LaunchPlanView {
    pub program: Seq<char>,
    pub args: Seq<Seq<char>>,
    pub stdio: StdioMode,
    pub namespaces: Seq<Namespace>,
    pub scratch_dir: Seq<char>,
    pub scratch_mode: u32,
    pub working_dir: Seq<char>,
    pub read_pipe_fd: i32,
    pub write_pipe_fd: i32,
}

impl View for LaunchPlan {
    type V = LaunchPlanView;

    open spec fn view(&self) -> LaunchPlanView {
        LaunchPlanView {
            program: self.program@,
            args: texts_view(self.args@),
            stdio: self.stdio,
            namespaces: self.namespaces@,
            scratch_dir: self.scratch_dir@,
            scratch_mode: self.scratch_mode,
            working_dir: self.working_dir@,
            read_pipe_fd: self.read_pipe_fd,
            write_pipe_fd: self.write_pipe_fd,
        }
    }
}

/// The namespaces that a container leaves. The user namespace is not among
/// them: to leave it would cost the process the rights it needs to mount and
/// to change its root.
pub open spec fn container_namespaces() -> Seq<Namespace> {
    seq![Namespace::Uts, Namespace::Ipc, Namespace::Pid, Namespace::Mount, Namespace::Net]
}

/// The directory under `rootfs` that takes the old root.
pub open spec fn scratch_dir_of(rootfs: Seq<char>) -> Seq<char> {
    join_path(rootfs, ".pivot_root"@)
}

/// How the first process of a container that runs `cmd` under the root
/// `rootfs` is started.
pub open spec fn launch_plan_of(
    tty: bool,
    cmd: Seq<char>,
    rootfs: Seq<char>,
    read_pipe_fd: i32,
    write_pipe_fd: i32,
) -> LaunchPlanView {
    LaunchPlanView {
        program: "/proc/self/exe"@,
        args: seq!["init"@, cmd],
        stdio: if tty {
            StdioMode::Inherit
        } else {
            StdioMode::Piped
        },
        namespaces: container_namespaces(),
        scratch_dir: scratch_dir_of(rootfs),
        scratch_mode: 0o777,
        working_dir: rootfs,
        read_pipe_fd,
        write_pipe_fd,
    }
}

/// No container leaves the user namespace.
pub proof fn lemma_user_namespace_is_kept(
    tty: bool,
    cmd: Seq<char>,
    rootfs: Seq<char>,
    read_pipe_fd: i32,
    write_pipe_fd: i32,
)
    ensures
        !launch_plan_of(tty, cmd, rootfs, read_pipe_fd, write_pipe_fd).namespaces.contains(
            Namespace::User,
        ),
{
    let spaces = container_namespaces();
    assert forall|k: int| 0 <= k < spaces.len() implies spaces[k] != Namespace::User by {}
}

/// A flag of a mount.
#[derive(Debug, Clone, Copy, PartialEq, Eq, Structural)]
pub enum MountFlag {
    /// `MS_PRIVATE`: changes under the mount point stay in this namespace.
    Private,
    /// `MS_REC`: for the mounts below the mount point too.
    Recursive,
    /// `MS_BIND`: show a directory at a second place.
    Bind,
    /// `MS_NOEXEC`
    NoExec,
    /// `MS_NOSUID`
    NoSuid,
    /// `MS_NODEV`
    NoDev,
    /// `MS_STRICTATIME`
    StrictAtime,
}

/// One thing that the first process of a container asks of the kernel
/// before it runs the command.
#[derive(Debug)]
pub enum InitStep {
    /// `mount(source, target, fstype, flags, data)`
    Mount {
        source: Option<String>,
        target: String,
        fstype: Option<String>,
        flags: Vec<MountFlag>,
        data: Option<String>,
    },
    /// `pivot_root(new_root, put_old)`
    PivotRoot { new_root: String, put_old: String },
    /// `chdir(path)`
    Chdir { path: String },
    /// `umount2(target, MNT_DETACH)` if `detach`, else `umount2(target, 0)`
    Unmount { target: String, detach: bool },
    /// Make the directory `path` unless it exists.
    CreateDir { path: String },
}

/// An `InitStep` with its texts as sequences of characters.
pub enum InitStepView {
    Mount {
        source: Option<Seq<char>>,
        target: Seq<char>,
        fstype: Option<Seq<char>>,
        flags: Seq<MountFlag>,
        data: Option<Seq<char>>,
    },
    PivotRoot { new_root: Seq<char>, put_old: Seq<char> },
    Chdir { path: Seq<char> },
    Unmount { target: Seq<char>, detach: bool },
    CreateDir { path: Seq<char> },
}

impl View for InitStep {
    type V = InitStepView;

    open spec fn view(&self) -> InitStepView {
        match self {
            InitStep::Mount { source, target, fstype, flags, data } => InitStepView::Mount {
                source: opt_text(*source),
                target: target@,
                fstype: opt_text(*fstype),
                flags: flags@,
                data: opt_text(*data),
            },
            InitStep::PivotRoot { new_root, put_old } => InitStepView::PivotRoot {
                new_root: new_root@,
                put_old: put_old@,
            },
            InitStep::Chdir { path } => InitStepView::Chdir { path: path@ },
            InitStep::Unmount { target, detach } => InitStepView::Unmount {
                target: target@,
                detach: *detach,
            },
            InitStep::CreateDir { path } => InitStepView::CreateDir { path: path@ },
        }
    }
}

/// The steps of a list, each by its view.
pub open spec fn steps_view(steps: Seq<InitStep>) -> Seq<InitStepView> {
    Seq::new(steps.len(), |k: int| steps[k]@)
}

/// The name of the system call that a step makes.
pub open spec fn call_of(step: InitStepView) -> Seq<char> {
    match step {
        InitStepView::Mount { .. } => "mount"@,
        InitStepView::PivotRoot { .. } => "pivot_root"@,
        InitStepView::Chdir { .. } => "chdir"@,
        InitStepView::Unmount { .. } => "umount2"@,
        InitStepView::CreateDir { .. } => "mkdir"@,
    }
}

/// Changing the root to `new_root`: the old root is made private with all
/// below it, so that nothing done here shows outside; `new_root` is bound
/// onto itself with all below it, which makes it a mount point; the root is
/// changed, with the old root put under `.pivot_root`; the process moves to
/// the new root; the old root is detached.
pub open spec fn pivot_root_steps(new_root: Seq<char>) -> Seq<InitStepView> {
    seq![
        InitStepView::Mount {
            source: None,
            target: "/"@,
            fstype: None,
            flags: seq![MountFlag::Private, MountFlag::Recursive],
            data: None,
        },
        InitStepView::Mount {
            source: Some(new_root),
            target: new_root,
            fstype: Some("bind"@),
            flags: seq![MountFlag::Bind, MountFlag::Recursive],
            data: Some(""@),
        },
        InitStepView::PivotRoot { new_root, put_old: scratch_dir_of(new_root) },
        InitStepView::Chdir { path: "/"@ },
        InitStepView::Unmount { target: "/.pivot_root"@, detach: true },
    ]
}

/// What follows the change of root: `/proc` and `/dev` are made if they are
/// missing, the process file system is mounted on the one and a memory file
/// system of mode `755` on the other.
pub open spec fn mount_steps() -> Seq<InitStepView> {
    seq![
        InitStepView::CreateDir { path: "/proc"@ },
        InitStepView::CreateDir { path: "/dev"@ },
        InitStepView::Mount {
            source: Some("proc"@),
            target: "/proc"@,
            fstype: Some("proc"@),
            flags: seq![MountFlag::NoExec, MountFlag::NoSuid, MountFlag::NoDev],
            data: Some(""@),
        },
        InitStepView::Mount {
            source: Some("tmpfs"@),
            target: "/dev"@,
            fstype: Some("tmpfs"@),
            flags: seq![MountFlag::NoSuid, MountFlag::StrictAtime],
            data: Some("mode=755"@),
        },
    ]
}

/// All that the first process asks of the kernel before it runs the
/// command, in order.
pub open spec fn setup_steps(new_root: Seq<char>) -> Seq<InitStepView> {
    pivot_root_steps(new_root) + mount_steps()
}

/// The root is changed before any file system is mounted: each mount that
/// neither makes a mount private nor binds a directory comes after the
/// change of root.
pub proof fn lemma_root_changes_before_mounts(new_root: Seq<char>, k: int)
    requires
        0 <= k < setup_steps(new_root).len(),
        setup_steps(new_root)[k] is Mount,
        !setup_steps(new_root)[k]->Mount_flags.contains(MountFlag::Private),
        !setup_steps(new_root)[k]->Mount_flags.contains(MountFlag::Bind),
    ensures
        exists|p: int| 0 <= p < k && #[trigger] setup_steps(new_root)[p] is PivotRoot,
{
    let steps = setup_steps(new_root);
    assert(steps[2] is PivotRoot);
    assert(steps[0]->Mount_flags[0] == MountFlag::Private);
    assert(steps[1]->Mount_flags[0] == MountFlag::Bind);
    assert(k > 2);
}

/// The directories that are searched for a program, in order.
pub open spec fn search_dirs() -> Seq<Seq<char>> {
    seq!["/bin"@, "/usr/bin"@, "/sbin"@, "/usr/sbin"@]
}

/// Whether a path starts at the root.
pub open spec fn is_absolute(path: Seq<char>) -> bool {
    path.len() > 0 && path[0] == '/'
}

/// The paths at which a program is looked for, in order: none for a program
/// given by an absolute path, otherwise the program under each of the
/// directories that are searched.
pub open spec fn candidates_of(program: Seq<char>) -> Seq<Seq<char>> {
    if is_absolute(program) {
        Seq::empty()
    } else {
        Seq::new(search_dirs().len(), |k: int| join_path(search_dirs()[k], program))
    }
}

/// Whether `k` is the first of the candidates that is present.
pub open spec fn is_first_present(present: Seq<bool>, count: int, k: int) -> bool {
    &&& 0 <= k < count
    &&& k < present.len()
    &&& present[k]
    &&& forall|j: int| 0 <= j < k ==> !present[j]
}

/// The image of the process that runs the command: the file to run, its
/// arguments and its environment.
#[derive(Debug)]
pub struct ExecImage {
    pub path: String,
    pub argv: Vec<String>,
    pub envp: Vec<String>,
}

/// The entries of an environment, each as `KEY=VALUE`.
pub open spec fn env_entries(vars: Seq<(String, String)>) -> Seq<Seq<char>> {
    Seq::new(vars.len(), |k: int| vars[k].0@ + "="@ + vars[k].1@)
}

/// The first process of a container.
pub struct Container {}

impl Container {
    /// How to start the first process of a container that runs `cmd` under
    /// the root `rootfs`: the runtime itself with `init` and the command, in
    /// new UTS, IPC, PID, mount and network namespaces, in the root as its
    /// directory, with the terminal if `tty` and with pipes if not, and with
    /// both ends of the pipe that the caller made.
    pub fn create_parent_process(
        tty: bool,
        cmd: &str,
        rootfs: &str,
        read_pipe_fd: i32,
        write_pipe_fd: i32,
    ) -> (plan: LaunchPlan)
        ensures
            plan@ == launch_plan_of(tty, cmd@, rootfs@, read_pipe_fd, write_pipe_fd),
    {
        let mut args: Vec<String> = Vec::new();
        args.push(String::from_str("init"));
        args.push(String::from_str(cmd));
        assert(texts_view(args@) =~= seq!["init"@, cmd@]);
        let mut namespaces: Vec<Namespace> = Vec::new();
        namespaces.push(Namespace::Uts);
        namespaces.push(Namespace::Ipc);
        namespaces.push(Namespace::Pid);
        namespaces.push(Namespace::Mount);
        namespaces.push(Namespace::Net);
        assert(namespaces@ =~= container_namespaces());
        LaunchPlan {
            program: String::from_str("/proc/self/exe"),
            args,
            stdio: if tty {
                StdioMode::Inherit
            } else {
                StdioMode::Piped
            },
            namespaces,
            scratch_dir: join(rootfs, ".pivot_root"),
            scratch_mode: 0o777,
            working_dir: String::from_str(rootfs),
            read_pipe_fd,
            write_pipe_fd,
        }
    }

    /// The steps that change the root to `new_root`.
    pub fn pivot_root(new_root: &str) -> (steps: Vec<InitStep>)
        ensures
            steps_view(steps@) == pivot_root_steps(new_root@),
    {
        let mut steps: Vec<InitStep> = Vec::new();
        let mut private: Vec<MountFlag> = Vec::new();
        private.push(MountFlag::Private);
        private.push(MountFlag::Recursive);
        assert(private@ =~= seq![MountFlag::Private, MountFlag::Recursive]);
        steps.push(
            InitStep::Mount {
                source: None,
                target: String::from_str("/"),
                fstype: None,
                flags: private,
                data: None,
            },
        );
        let mut bind: Vec<MountFlag> = Vec::new();
        bind.push(MountFlag::Bind);
        bind.push(MountFlag::Recursive);
        assert(bind@ =~= seq![MountFlag::Bind, MountFlag::Recursive]);
        steps.push(
            InitStep::Mount {
                source: Some(String::from_str(new_root)),
                target: String::from_str(new_root),
                fstype: Some(String::from_str("bind")),
                flags: bind,
                data: Some(String::from_str("")),
            },
        );
        steps.push(
            InitStep::PivotRoot {
                new_root: String::from_str(new_root),
                put_old: join(new_root, ".pivot_root"),
            },
        );
        steps.push(InitStep::Chdir { path: String::from_str("/") });
        steps.push(InitStep::Unmount { target: String::from_str("/.pivot_root"), detach: true });
        assert(steps_view(steps@) =~= pivot_root_steps(new_root@));
        steps
    }

    /// All the steps that the first process takes before it runs the
    /// command: the change of root to `new_root`, then the mounts.
    pub fn setup_mount(new_root: &str) -> (steps: Vec<InitStep>)
        ensures
            steps_view(steps@) == setup_steps(new_root@),
    {
        let mut steps = Container::pivot_root(new_root);
        let ghost first = steps_view(steps@);
        steps.push(InitStep::CreateDir { path: String::from_str("/proc") });
        steps.push(InitStep::CreateDir { path: String::from_str("/dev") });
        let mut proc_flags: Vec<MountFlag> = Vec::new();
        proc_flags.push(MountFlag::NoExec);
        proc_flags.push(MountFlag::NoSuid);
        proc_flags.push(MountFlag::NoDev);
        assert(proc_flags@ =~= seq![MountFlag::NoExec, MountFlag::NoSuid, MountFlag::NoDev]);
        steps.push(
            InitStep::Mount {
                source: Some(String::from_str("proc")),
                target: String::from_str("/proc"),
                fstype: Some(String::from_str("proc")),
                flags: proc_flags,
                data: Some(String::from_str("")),
            },
        );
        let mut dev_flags: Vec<MountFlag> = Vec::new();
        dev_flags.push(MountFlag::NoSuid);
        dev_flags.push(MountFlag::StrictAtime);
        assert(dev_flags@ =~= seq![MountFlag::NoSuid, MountFlag::StrictAtime]);
        steps.push(
            InitStep::Mount {
                source: Some(String::from_str("tmpfs")),
                target: String::from_str("/dev"),
                fstype: Some(String::from_str("tmpfs")),
                flags: dev_flags,
                data: Some(String::from_str("mode=755")),
            },
        );
        assert(steps_view(steps@) =~= first + mount_steps());
        steps
    }

    /// The failure of a step for the reason `cause`, which ends the
    /// container's first process.
    pub fn step_failed(step: &InitStep, cause: &str) -> (e: RuntimeError)
        ensures
            e@ == (RuntimeErrorView::SyscallFailed { call: call_of(step@), cause: cause@ }),
    {
        let call = match step {
            InitStep::Mount { .. } => "mount",
            InitStep::PivotRoot { .. } => "pivot_root",
            InitStep::Chdir { .. } => "chdir",
            InitStep::Unmount { .. } => "umount2",
            InitStep::CreateDir { .. } => "mkdir",
        };
        RuntimeError::SyscallFailed {
            call: String::from_str(call),
            cause: String::from_str(cause),
        }
    }

    /// The failure to start the first process of a container for the
    /// reason `cause`.
    pub fn spawn_failed(cause: &str) -> (e: RuntimeError)
        ensures
            e@ == (RuntimeErrorView::ChildSpawnFailed { cause: cause@ }),
    {
        RuntimeError::ChildSpawnFailed { cause: String::from_str(cause) }
    }

    /// The paths at which `program` is looked for, in order.
    pub fn executable_candidates(program: &str) -> (paths: Vec<String>)
        ensures
            texts_view(paths@) == candidates_of(program@),
    {
        let chars = crate::text::chars_of(program);
        let mut paths: Vec<String> = Vec::new();
        if chars.len() > 0 && chars[0] == '/' {
            assert(texts_view(paths@) =~= candidates_of(program@));
            return paths;
        }
        paths.push(join("/bin", program));
        paths.push(join("/usr/bin", program));
        paths.push(join("/sbin", program));
        paths.push(join("/usr/sbin", program));
        assert(texts_view(paths@) =~= candidates_of(program@));
        paths
    }

    /// The file to run for `program`, given for each of its candidates
    /// whether a file is present there: the first candidate that is present;
    /// the program as it is given if none is, or if it has no candidates.
    pub fn resolve_executable(program: &str, present: &Vec<bool>) -> (path: String)
        ensures
            forall|k: int|
                is_first_present(present@, candidates_of(program@).len() as int, k) ==> path@
                    == candidates_of(program@)[k],
            (forall|k: int|
                0 <= k < candidates_of(program@).len() && k < present.len() ==> !present@[k])
                ==> path@ == program@,
    {
        let mut paths = Container::executable_candidates(program);
        let mut k: usize = 0;
        while k < paths.len() && k < present.len()
            invariant
                k <= paths.len(),
                k <= present.len(),
                texts_view(paths@) == candidates_of(program@),
                forall|j: int| 0 <= j < k ==> !present@[j],
            decreases paths.len() - k,
        {
            if present[k] {
                assert(texts_view(paths@)[k as int] == paths@[k as int]@);
                return paths[k].clone();
            }
            k = k + 1;
        }
        String::from_str(program)
    }

    /// The image of the process that runs the command `cmd`: its arguments
    /// are the pieces of `cmd` between single spaces, the file to run is
    /// found for the first of them as `resolve_executable` says, and its
    /// environment is `vars`, each as `KEY=VALUE`.
    pub fn init_process(cmd: &str, present: &Vec<bool>, vars: &Vec<(String, String)>) -> (image:
        ExecImage)
        ensures
            texts_view(image.argv@) == split(cmd@, ' '),
            texts_view(image.envp@) == env_entries(vars@),
            forall|k: int|
                is_first_present(
                    present@,
                    candidates_of(split(cmd@, ' ')[0]).len() as int,
                    k,
                ) ==> image.path@ == candidates_of(split(cmd@, ' ')[0])[k],
            (forall|k: int|
                0 <= k < candidates_of(split(cmd@, ' ')[0]).len() && k < present.len()
                    ==> !present@[k]) ==> image.path@ == split(cmd@, ' ')[0],
    {
        let argv = split_text(cmd, ' ');
        assert(texts_view(argv@)[0] == argv@[0]@);
        let path = Container::resolve_executable(argv[0].as_str(), present);
        let mut envp: Vec<String> = Vec::new();
        let mut k: usize = 0;
        while k < vars.len()
            invariant
                k <= vars.len(),
                envp.len() == k,
                forall|j: int| 0 <= j < k ==> envp@[j]@ == #[trigger] env_entries(vars@)[j],
            decreases vars.len() - k,
        {
            let entry = String::from_str(vars[k].0.as_str()).concat("=").concat(
                vars[k].1.as_str(),
            );
            envp.push(entry);
            k = k + 1;
        }
        assert(texts_view(envp@) =~= env_entries(vars@));
        ExecImage { path, argv, envp }
    }
}

} // verus!
