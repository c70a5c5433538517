//! The commands of the runtime, and the order of a run.

use crate::cgroups::subsystems::subsystem::{ResourceConfig, ResourceConfigView};
use crate::container::info::{
    is_container_id, valid_record, ContainerInfo, ContainerInfoView, ContainerStatus,
};
use crate::container::store::ContainerStore;
use crate::error::{RuntimeError, RuntimeErrorView};
use crate::image::info::{reference_of, ImageInfo};
use crate::text::{
    join, join_path, joined, lemma_decimal_spells, lemma_join_splits_back, opt_text,
    signed_decimal, signed_decimal_string, split, texts_view,
};
use crate::wire::copy_texts;
use vstd::prelude::*;

verus! {

/// What the command line gave, as its parser left it. A text that was not
/// given is empty, a list that was not given has no items.
#[derive(Debug)]
pub struct CmdConfig {
    /// `run --tty`: the container gets the terminal.
    pub enable_tty: bool,
    /// `run --memory`
    pub memory_limit: String,
    /// `run --cpushare`
    pub cpu_shares: String,
    /// `run --cpuset`
    pub cpu_set: String,
    /// `run --image NAME[:TAG]`
    pub image: String,
    /// `run command...`
    pub run_command: Vec<String>,
    /// `init command`
    pub init_command: Vec<String>,
    /// The container of `logs`, `stop`, `rm`, `commit` and `exec`.
    pub container_name: String,
    /// The image of `commit`, and of `import` as `image[:tag]`.
    pub image_name: String,
    /// `import tar_file`
    pub tar_file: String,
    /// `exec command...`
    pub exec_command: Vec<String>,
}

/// A `CmdConfig` with its texts as sequences of characters.
pub struct CmdConfigView {
    pub enable_tty: bool,
    pub memory_limit: Seq<char>,
    pub cpu_shares: Seq<char>,
    pub cpu_set: Seq<char>,
    pub image: Seq<char>,
    pub run_command: Seq<Seq<char>>,
    pub init_command: Seq<Seq<char>>,
    pub container_name: Seq<char>,
    pub image_name: Seq<char>,
    pub tar_file: Seq<char>,
    pub exec_command: Seq<Seq<char>>,
}

impl View for CmdConfig {
    type V = CmdConfigView;

    open spec fn view(&self) -> CmdConfigView {
        CmdConfigView {
            enable_tty: self.enable_tty,
            memory_limit: self.memory_limit@,
            cpu_shares: self.cpu_shares@,
            cpu_set: self.cpu_set@,
            image: self.image@,
            run_command: texts_view(self.run_command@),
            init_command: texts_view(self.init_command@),
            container_name: self.container_name@,
            image_name: self.image_name@,
            tar_file: self.tar_file@,
            exec_command: texts_view(self.exec_command@),
        }
    }
}

impl Default for CmdConfig {
    fn default() -> (config: CmdConfig)
        ensures
            config@ == (CmdConfigView {
                enable_tty: false,
                memory_limit: Seq::empty(),
                cpu_shares: Seq::empty(),
                cpu_set: Seq::empty(),
                image: Seq::empty(),
                run_command: Seq::empty(),
                init_command: Seq::empty(),
                container_name: Seq::empty(),
                image_name: Seq::empty(),
                tar_file: Seq::empty(),
                exec_command: Seq::empty(),
            }),
    {
        let config = CmdConfig {
            enable_tty: false,
            memory_limit: String::new(),
            cpu_shares: String::new(),
            cpu_set: String::new(),
            image: String::new(),
            run_command: Vec::new(),
            init_command: Vec::new(),
            container_name: String::new(),
            image_name: String::new(),
            tar_file: String::new(),
            exec_command: Vec::new(),
        };
        assert(config@.run_command =~= Seq::<Seq<char>>::empty());
        assert(config@.init_command =~= Seq::<Seq<char>>::empty());
        assert(config@.exec_command =~= Seq::<Seq<char>>::empty());
        config
    }
}

/// What the runtime is asked to do.
#[derive(Debug)]
pub enum Invocation {
    /// Run `command` in a new container, under the file tree of `image`, a
    /// name and a tag, or under `./busybox` if there is none.
    Run { tty: bool, command: String, res: ResourceConfig, image: Option<(String, String)> },
    /// Be the first process of a container and become `command`.
    Init { command: String },
    Ps,
    Logs { name: String },
    Stop { name: String },
    Rm { name: String },
    Commit { name: String, target: String },
    Exec { name: String, argv: Vec<String> },
    Images,
    Import { tar_file: String, name: String, tag: String },
}

/// An `Invocation` with its texts as sequences of characters.
pub enum InvocationView {
    Run {
        tty: bool,
        command: Seq<char>,
        res: ResourceConfigView,
        image: Option<(Seq<char>, Seq<char>)>,
    },
    Init { command: Seq<char> },
    Ps,
    Logs { name: Seq<char> },
    Stop { name: Seq<char> },
    Rm { name: Seq<char> },
    Commit { name: Seq<char>, target: Seq<char> },
    Exec { name: Seq<char>, argv: Seq<Seq<char>> },
    Images,
    Import { tar_file: Seq<char>, name: Seq<char>, tag: Seq<char> },
}

impl View for Invocation {
    type V = InvocationView;

    open spec fn view(&self) -> InvocationView {
        match self {
            Invocation::Run { tty, command, res, image } => InvocationView::Run {
                tty: *tty,
                command: command@,
                res: res@,
                image: match image {
                    Some(named) => Some((named.0@, named.1@)),
                    None => None,
                },
            },
            Invocation::Init { command } => InvocationView::Init { command: command@ },
            Invocation::Ps => InvocationView::Ps,
            Invocation::Logs { name } => InvocationView::Logs { name: name@ },
            Invocation::Stop { name } => InvocationView::Stop { name: name@ },
            Invocation::Rm { name } => InvocationView::Rm { name: name@ },
            Invocation::Commit { name, target } => InvocationView::Commit {
                name: name@,
                target: target@,
            },
            Invocation::Exec { name, argv } => InvocationView::Exec {
                name: name@,
                argv: texts_view(argv@),
            },
            Invocation::Images => InvocationView::Images,
            Invocation::Import { tar_file, name, tag } => InvocationView::Import {
                tar_file: tar_file@,
                name: name@,
                tag: tag@,
            },
        }
    }
}

/// A text that was given, or nothing for the empty text.
pub open spec fn given(text: Seq<char>) -> Option<Seq<char>> {
    if text.len() == 0 {
        None
    } else {
        Some(text)
    }
}

/// The words of a list in a row, with one space between each two.
pub open spec fn spaced(words: Seq<Seq<char>>) -> Seq<char> {
    joined(words, ' ')
}

/// The first process of a container reads the command as `run` was given
/// it: words that hold no space, put in a row by `run`, are the arguments
/// that the first process cuts the row into.
pub proof fn lemma_init_reads_what_run_wrote(words: Seq<Seq<char>>)
    requires
        words.len() >= 1,
        forall|k: int| 0 <= k < words.len() ==> !(#[trigger] words[k]).contains(' '),
    ensures
        split(spaced(words), ' ') == words,
{
    lemma_join_splits_back(words, ' ');
}

/// The limits that the command line asks for: each that was given.
pub open spec fn limits_of(config: CmdConfigView) -> ResourceConfigView {
    ResourceConfigView {
        memory_limit: given(config.memory_limit),
        cpu_shares: given(config.cpu_shares),
        cpu_set: given(config.cpu_set),
    }
}

/// The failure to make out what the command line asks for.
pub open spec fn bad_command_line(what: Seq<char>) -> RuntimeErrorView {
    RuntimeErrorView::ParseFailed { what }
}

/// What the command line asks for, if it names a command and gives what
/// the command needs.
pub open spec fn invocation_of(config: CmdConfigView, cmd: Option<Seq<char>>) -> Result<
    InvocationView,
    RuntimeErrorView,
> {
    match cmd {
        None => Err(bad_command_line("command"@)),
        Some(word) => if word == "run"@ {
            if config.run_command.len() == 0 {
                Err(bad_command_line("run: command"@))
            } else {
                Ok(
                    InvocationView::Run {
                        tty: config.enable_tty,
                        command: spaced(config.run_command),
                        res: limits_of(config),
                        image: match given(config.image) {
                            Some(reference) => Some(reference_of(reference)),
                            None => None,
                        },
                    },
                )
            }
        } else if word == "init"@ {
            if config.init_command.len() == 0 {
                Err(bad_command_line("init: command"@))
            } else {
                Ok(InvocationView::Init { command: config.init_command[0] })
            }
        } else if word == "ps"@ {
            Ok(InvocationView::Ps)
        } else if word == "logs"@ {
            Ok(InvocationView::Logs { name: config.container_name })
        } else if word == "stop"@ {
            Ok(InvocationView::Stop { name: config.container_name })
        } else if word == "rm"@ {
            Ok(InvocationView::Rm { name: config.container_name })
        } else if word == "commit"@ {
            Ok(InvocationView::Commit { name: config.container_name, target: config.image_name })
        } else if word == "exec"@ {
            if config.exec_command.len() == 0 {
                Err(bad_command_line("exec: command"@))
            } else {
                Ok(
                    InvocationView::Exec {
                        name: config.container_name,
                        argv: config.exec_command,
                    },
                )
            }
        } else if word == "images"@ {
            Ok(InvocationView::Images)
        } else if word == "import"@ {
            Ok(
                InvocationView::Import {
                    tar_file: config.tar_file,
                    name: reference_of(config.image_name).0,
                    tag: reference_of(config.image_name).1,
                },
            )
        } else {
            Err(bad_command_line("command"@))
        },
    }
}

/// A text that was given, or nothing for the empty text.
fn given_text(text: &String) -> (out: Option<String>)
    ensures
        opt_text(out) == given(text@),
{
    if text.as_str().unicode_len() == 0 {
        None
    } else {
        Some(text.clone())
    }
}

/// The words of a list in a row, with one space between each two.
fn join_words(words: &Vec<String>) -> (row: String)
    ensures
        row@ == spaced(texts_view(words@)),
{
    let ghost all = texts_view(words@);
    let mut row = String::new();
    let mut k: usize = 0;
    assert(all.take(0) =~= Seq::<Seq<char>>::empty());
    while k < words.len()
        invariant
            k <= words.len(),
            all == texts_view(words@),
            row@ == spaced(all.take(k as int)),
        decreases words.len() - k,
    {
        assert(all.take(k + 1).drop_last() =~= all.take(k as int));
        assert(all.take(k + 1).last() == words@[k as int]@);
        if k > 0 {
            proof {
                reveal_strlit(" ");
                assert(" "@ =~= seq![' ']);
            }
            row.append(" ");
        } else {
            assert(row@ + words@[0]@ =~= words@[0]@);
        }
        row.append(words[k].as_str());
        k = k + 1;
    }
    assert(all.take(words.len() as int) =~= all);
    row
}

impl CmdConfig {
    /// The limits that the command line asks for.
    pub fn resource_config(&self) -> (res: ResourceConfig)
        ensures
            res@ == limits_of(self@),
    {
        ResourceConfig {
            memory_limit: given_text(&self.memory_limit),
            cpu_shares: given_text(&self.cpu_shares),
            cpu_set: given_text(&self.cpu_set),
        }
    }

    /// What the command line asks for, given the command that it names.
    pub fn check_and_call(&self, cmd: Option<&str>) -> (call: Result<Invocation, RuntimeError>)
        ensures
            match invocation_of(
                self@,
                match cmd {
                    Some(word) => Some(word@),
                    None => None,
                },
            ) {
                Ok(i) => call is Ok && call->Ok_0@ == i,
                Err(e) => call is Err && call->Err_0@ == e,
            },
    {
        let word = match cmd {
            None => {
                return Err(RuntimeError::ParseFailed { what: String::from_str("command") });
            },
            Some(word) => String::from_str(word),
        };
        if word == String::from_str("run") {
            if self.run_command.len() == 0 {
                return Err(RuntimeError::ParseFailed { what: String::from_str("run: command") });
            }
            let image = match given_text(&self.image) {
                Some(reference) => Some(ImageInfo::parse_reference(reference.as_str())),
                None => None,
            };
            Ok(
                Invocation::Run {
                    tty: self.enable_tty,
                    command: join_words(&self.run_command),
                    res: self.resource_config(),
                    image,
                },
            )
        } else if word == String::from_str("init") {
            if self.init_command.len() == 0 {
                return Err(RuntimeError::ParseFailed { what: String::from_str("init: command") });
            }
            Ok(Invocation::Init { command: self.init_command[0].clone() })
        } else if word == String::from_str("ps") {
            Ok(Invocation::Ps)
        } else if word == String::from_str("logs") {
            Ok(Invocation::Logs { name: self.container_name.clone() })
        } else if word == String::from_str("stop") {
            Ok(Invocation::Stop { name: self.container_name.clone() })
        } else if word == String::from_str("rm") {
            Ok(Invocation::Rm { name: self.container_name.clone() })
        } else if word == String::from_str("commit") {
            Ok(
                Invocation::Commit {
                    name: self.container_name.clone(),
                    target: self.image_name.clone(),
                },
            )
        } else if word == String::from_str("exec") {
            if self.exec_command.len() == 0 {
                return Err(RuntimeError::ParseFailed { what: String::from_str("exec: command") });
            }
            Ok(
                Invocation::Exec {
                    name: self.container_name.clone(),
                    argv: copy_texts(&self.exec_command),
                },
            )
        } else if word == String::from_str("images") {
            Ok(Invocation::Images)
        } else if word == String::from_str("import") {
            let named = ImageInfo::parse_reference(self.image_name.as_str());
            Ok(
                Invocation::Import {
                    tar_file: self.tar_file.clone(),
                    name: named.0,
                    tag: named.1,
                },
            )
        } else {
            Err(RuntimeError::ParseFailed { what: String::from_str("command") })
        }
    }
}

/// One step of a run.
#[derive(Debug, Clone, Copy, PartialEq, Eq, Structural)]
pub enum RunStep {
    /// Find the file tree that the container starts from.
    ResolveRootfs,
    /// Make the container's id.
    GenerateId,
    /// Start the container's first process.
    Launch,
    /// Write the record of the running container.
    SaveRecord,
    /// Set the limits on the container's cgroup.
    CgroupSet,
    /// Add the container's first process to its cgroup.
    CgroupApply,
    /// Start copying the container's output to its log.
    CaptureLogs,
    /// Wait for the container's first process to end.
    Wait,
    /// Remove the directory that took the old root.
    RemoveScratch,
    /// Remove the container's cgroup.
    CgroupDestroy,
    /// Remove the container's record.
    DeleteRecord,
    /// Write the record of the container that has ended.
    MarkExited,
    /// End with the exit code of the container's first process.
    Exit,
}

/// The steps of a run, in order. The output is captured only of a container
/// that does not have the terminal; the record of a container that had the
/// terminal is removed at the end, that of another is kept.
pub open spec fn run_steps_of(tty: bool) -> Seq<RunStep> {
    seq![
        RunStep::ResolveRootfs,
        RunStep::GenerateId,
        RunStep::Launch,
        RunStep::SaveRecord,
        RunStep::CgroupSet,
        RunStep::CgroupApply,
    ] + (if tty {
        Seq::<RunStep>::empty()
    } else {
        seq![RunStep::CaptureLogs]
    }) + seq![RunStep::Wait, RunStep::RemoveScratch, RunStep::CgroupDestroy] + (if tty {
        seq![RunStep::DeleteRecord]
    } else {
        seq![RunStep::MarkExited]
    }) + seq![RunStep::Exit]
}

/// Whether `first` stands in `steps`, and `second` only after it.
pub open spec fn comes_before(steps: Seq<RunStep>, first: RunStep, second: RunStep) -> bool {
    &&& steps.contains(first)
    &&& forall|i: int, j: int|
        0 <= i < steps.len() && 0 <= j < steps.len() && steps[i] == first && steps[j] == second
            ==> i < j
}

/// The order that a run keeps: the record is written before any cgroup is
/// touched and before any output is captured; the limits are set before the
/// process is added; both are done before the process is waited for; the
/// cgroup is removed after the wait.
pub proof fn lemma_run_order(tty: bool)
    ensures
        comes_before(run_steps_of(tty), RunStep::SaveRecord, RunStep::CgroupSet),
        comes_before(run_steps_of(tty), RunStep::SaveRecord, RunStep::CaptureLogs),
        comes_before(run_steps_of(tty), RunStep::CgroupSet, RunStep::CgroupApply),
        comes_before(run_steps_of(tty), RunStep::CgroupApply, RunStep::Wait),
        comes_before(run_steps_of(tty), RunStep::Wait, RunStep::CgroupDestroy),
        run_steps_of(tty).last() == RunStep::Exit,
{
    let steps = run_steps_of(tty);
    assert(steps[3] == RunStep::SaveRecord);
    assert(steps[4] == RunStep::CgroupSet);
    assert(steps[5] == RunStep::CgroupApply);
    if tty {
        assert(steps =~= seq![
            RunStep::ResolveRootfs,
            RunStep::GenerateId,
            RunStep::Launch,
            RunStep::SaveRecord,
            RunStep::CgroupSet,
            RunStep::CgroupApply,
            RunStep::Wait,
            RunStep::RemoveScratch,
            RunStep::CgroupDestroy,
            RunStep::DeleteRecord,
            RunStep::Exit,
        ]);
        assert(steps[6] == RunStep::Wait);
    } else {
        assert(steps =~= seq![
            RunStep::ResolveRootfs,
            RunStep::GenerateId,
            RunStep::Launch,
            RunStep::SaveRecord,
            RunStep::CgroupSet,
            RunStep::CgroupApply,
            RunStep::CaptureLogs,
            RunStep::Wait,
            RunStep::RemoveScratch,
            RunStep::CgroupDestroy,
            RunStep::MarkExited,
            RunStep::Exit,
        ]);
        assert(steps[7] == RunStep::Wait);
    }
}

/// What is owed when a step of a run fails and the run ends there: the
/// directory that took the old root is removed once the container's process
/// may have been started, and the cgroup is removed once it may have been
/// made.
pub open spec fn cleanup_of(failed: RunStep) -> Seq<RunStep> {
    match failed {
        RunStep::Launch | RunStep::SaveRecord => seq![RunStep::RemoveScratch],
        RunStep::CgroupSet | RunStep::CgroupApply | RunStep::CaptureLogs | RunStep::Wait => seq![
            RunStep::RemoveScratch,
            RunStep::CgroupDestroy,
        ],
        _ => Seq::empty(),
    }
}

/// A run that touched the cgroup removes it however it ends: the cgroup is
/// removed on the way of a run that goes through, and after the failure of
/// any step from the setting of the limits to the wait.
pub proof fn lemma_cgroup_is_always_removed(tty: bool, set: int, k: int, wait: int)
    requires
        0 <= set <= k <= wait < run_steps_of(tty).len(),
        run_steps_of(tty)[set] == RunStep::CgroupSet,
        run_steps_of(tty)[wait] == RunStep::Wait,
    ensures
        run_steps_of(tty).contains(RunStep::CgroupDestroy),
        cleanup_of(run_steps_of(tty)[k]).contains(RunStep::CgroupDestroy),
{
    let steps = run_steps_of(tty);
    if tty {
        assert(steps[8] == RunStep::CgroupDestroy);
        assert(set == 4 && wait == 6);
    } else {
        assert(steps[9] == RunStep::CgroupDestroy);
        assert(set == 4 && wait == 7);
    }
    assert(cleanup_of(steps[k])[1] == RunStep::CgroupDestroy);
}

/// The record of a container that was just started.
pub open spec fn running_record_of(
    id: Seq<char>,
    name: Option<Seq<char>>,
    pid: int,
    command: Seq<char>,
    created_time: Seq<char>,
    image_name: Seq<char>,
) -> ContainerInfoView {
    ContainerInfoView {
        pid: signed_decimal(pid),
        id,
        name: match name {
            Some(n) => n,
            None => id,
        },
        command,
        created_time,
        status: ContainerStatus::Running,
        volume: None,
        port_mapping: Seq::empty(),
        network: None,
        image_name,
    }
}

/// The record of a container after its process has ended: none if it had
/// the terminal, else the record with the status `exited`.
pub open spec fn finished_record_of(record: ContainerInfoView, tty: bool) -> Option<
    ContainerInfoView,
> {
    if tty {
        None
    } else {
        Some(ContainerInfoView { status: ContainerStatus::Exited, ..record })
    }
}

/// The runs of containers.
pub struct Orchestrator {}

impl Orchestrator {
    /// The steps of a run, in order.
    pub fn run_steps(tty: bool) -> (steps: Vec<RunStep>)
        ensures
            steps@ == run_steps_of(tty),
    {
        let mut steps: Vec<RunStep> = Vec::new();
        steps.push(RunStep::ResolveRootfs);
        steps.push(RunStep::GenerateId);
        steps.push(RunStep::Launch);
        steps.push(RunStep::SaveRecord);
        steps.push(RunStep::CgroupSet);
        steps.push(RunStep::CgroupApply);
        if !tty {
            steps.push(RunStep::CaptureLogs);
        }
        steps.push(RunStep::Wait);
        steps.push(RunStep::RemoveScratch);
        steps.push(RunStep::CgroupDestroy);
        if tty {
            steps.push(RunStep::DeleteRecord);
        } else {
            steps.push(RunStep::MarkExited);
        }
        steps.push(RunStep::Exit);
        assert(steps@ =~= run_steps_of(tty));
        steps
    }

    /// The steps that are owed when the step `failed` of a run fails and the
    /// run ends there. Their own failures are passed over.
    pub fn cleanup_after(failed: RunStep) -> (steps: Vec<RunStep>)
        ensures
            steps@ == cleanup_of(failed),
    {
        let mut steps: Vec<RunStep> = Vec::new();
        match failed {
            RunStep::Launch | RunStep::SaveRecord => {
                steps.push(RunStep::RemoveScratch);
            },
            RunStep::CgroupSet | RunStep::CgroupApply | RunStep::CaptureLogs | RunStep::Wait => {
                steps.push(RunStep::RemoveScratch);
                steps.push(RunStep::CgroupDestroy);
            },
            _ => {},
        }
        assert(steps@ =~= cleanup_of(failed));
        steps
    }

    /// The file tree of a container for which no image is named: `busybox`
    /// under the directory `cwd`.
    pub fn fallback_rootfs(cwd: &str) -> (rootfs: String)
        ensures
            rootfs@ == join_path(cwd@, "busybox"@),
    {
        join(cwd, "busybox")
    }

    /// The record of the container `id` that was just started as the
    /// process `pid`: it is running, and named `name` or, with no name, by
    /// its id.
    pub fn running_record(
        id: &str,
        name: Option<&str>,
        pid: i32,
        command: &str,
        created_time: &str,
        image_name: &str,
    ) -> (record: ContainerInfo)
        ensures
            record@ == running_record_of(
                id@,
                match name {
                    Some(n) => Some(n@),
                    None => None,
                },
                pid as int,
                command@,
                created_time@,
                image_name@,
            ),
            is_container_id(id@) ==> valid_record(record@),
    {
        let pid_text = signed_decimal_string(pid);
        proof {
            if pid >= 0 {
                lemma_decimal_spells(pid as nat);
            }
        }
        let record = ContainerInfo {
            pid: pid_text,
            id: String::from_str(id),
            name: match name {
                Some(n) => String::from_str(n),
                None => String::from_str(id),
            },
            command: String::from_str(command),
            created_time: String::from_str(created_time),
            status: ContainerStatus::Running,
            volume: None,
            port_mapping: Vec::new(),
            network: None,
            image_name: String::from_str(image_name),
        };
        assert(record@.port_mapping =~= Seq::<Seq<char>>::empty());
        record
    }

    /// What becomes of the record of a container whose process has ended:
    /// nothing is kept of a container that had the terminal; the record of
    /// another is kept with the status `exited`.
    pub fn finished_record(record: ContainerInfo, tty: bool) -> (kept: Option<ContainerInfo>)
        ensures
            match finished_record_of(record@, tty) {
                Some(r) => kept is Some && kept->Some_0@ == r,
                None => kept is None,
            },
            valid_record(record@) && kept is Some ==> valid_record(kept->Some_0@),
    {
        if tty {
            None
        } else {
            Some(ContainerStore::update_status(record, ContainerStatus::Exited))
        }
    }

    /// The exit code of a run: that of the container's first process, or -1
    /// if it left none.
    pub fn exit_code(code: Option<i32>) -> (exit: i32)
        ensures
            exit == match code {
                Some(c) => c,
                None => -1i32,
            },
    {
        match code {
            Some(c) => c,
            None => -1,
        }
    }
}

} // verus!
