//! What is done to a container that exists: stopping it, removing it,
//! reading its output, packing its files, running a command inside it.
//!
//! Each operation takes what was read of the container (its record, or that
//! there is none) and says what is to be done, or why nothing can be.

use crate::container::Namespace;
use crate::container::info::{valid_record, ContainerInfo, ContainerInfoView, ContainerStatus};
use crate::container::store::{container_dir_of, log_path_of, ContainerStore};
use crate::error::{RuntimeError, RuntimeErrorView};
use crate::text::{
    all_digits, chars_of, digits_value, first_index, is_digit, lemma_decimal_spells,
    lemma_first_index, parse_decimal, pieces, ranges_within, signed_decimal, split, split_ranges,
    texts_view,
};
use vstd::prelude::*;

verus! {

/// The process that a record's `pid` names: the number that its digits
/// spell, if it is one or more decimal digits and nothing else and the
/// number fits a process id.
pub open spec fn pid_of(text: Seq<char>) -> Option<i32> {
    if text.len() > 0 && all_digits(text) && digits_value(text) <= i32::MAX {
        Some(digits_value(text) as i32)
    } else {
        None
    }
}

/// The failure to read a process id from `text`.
pub open spec fn bad_pid(text: Seq<char>) -> RuntimeErrorView {
    RuntimeErrorView::ParseFailed { what: "pid "@ + text }
}

/// Reads the process id that a record holds.
pub fn parse_pid(text: &str) -> (pid: Result<i32, RuntimeError>)
    ensures
        match pid_of(text@) {
            Some(p) => pid == Ok::<i32, RuntimeError>(p),
            None => pid is Err && pid->Err_0@ == bad_pid(text@),
        },
{
    let chars = chars_of(text);
    let signed = chars.len() > 0 && chars[0] == '+';
    proof {
        if signed {
            assert(!is_digit(text@[0]));
        } else {
            assert(text@.skip(0) =~= text@);
        }
    }
    match parse_decimal(text) {
        Some(n) => {
            if !signed && n <= 2147483647 {
                return Ok(n as i32);
            }
        },
        None => {},
    }
    Err(RuntimeError::ParseFailed { what: String::from_str("pid ").concat(text) })
}

/// What stopping a container takes.
#[derive(Debug)]
pub enum StopPlan {
    /// Nothing: the container was stopped before.
    AlreadyStopped,
    /// The process `pid` is sent `SIGTERM`, once, and `record` is written in
    /// place of the container's record.
    Terminate { pid: i32, record: ContainerInfo },
}

/// A `StopPlan` with its record by its view.
pub enum StopPlanView {
    AlreadyStopped,
    Terminate { pid: i32, record: ContainerInfoView },
}

impl View for StopPlan {
    type V = StopPlanView;

    open spec fn view(&self) -> StopPlanView {
        match self {
            StopPlan::AlreadyStopped => StopPlanView::AlreadyStopped,
            StopPlan::Terminate { pid, record } => StopPlanView::Terminate {
                pid: *pid,
                record: record@,
            },
        }
    }
}

/// A record after its container was stopped: no process, and stopped.
pub open spec fn stopped_record(info: ContainerInfoView) -> ContainerInfoView {
    ContainerInfoView { pid: Seq::empty(), status: ContainerStatus::Stopped, ..info }
}

/// What stopping the container `name` comes to, given its record if it has
/// one.
pub open spec fn stop_outcome(name: Seq<char>, loaded: Option<ContainerInfoView>) -> Result<
    StopPlanView,
    RuntimeErrorView,
> {
    match loaded {
        None => Err(RuntimeErrorView::MetadataNotFound { name }),
        Some(info) => if info.status == ContainerStatus::Stopped {
            Ok(StopPlanView::AlreadyStopped)
        } else {
            match pid_of(info.pid) {
                None => Err(bad_pid(info.pid)),
                Some(pid) => Ok(StopPlanView::Terminate { pid, record: stopped_record(info) }),
            }
        },
    }
}

/// What removing the container `name` comes to, given its record if it has
/// one: the directory to remove with all in it, unless the container is
/// running.
pub open spec fn rm_outcome(name: Seq<char>, loaded: Option<ContainerInfoView>) -> Result<
    Seq<char>,
    RuntimeErrorView,
> {
    match loaded {
        None => Err(RuntimeErrorView::MetadataNotFound { name }),
        Some(info) => if info.status == ContainerStatus::Running {
            Err(RuntimeErrorView::InvalidState { name })
        } else {
            Ok(container_dir_of(name))
        },
    }
}

/// The record that a container has once stopping it has succeeded.
pub open spec fn record_after_stop(info: ContainerInfoView) -> ContainerInfoView {
    match stop_outcome(info.name, Some(info)) {
        Ok(StopPlanView::Terminate { record, .. }) => record,
        _ => info,
    }
}

/// A container that was stopped can be removed: whenever stopping a
/// container succeeds, removing it afterwards succeeds too.
pub proof fn lemma_stop_then_rm(name: Seq<char>, info: ContainerInfoView)
    requires
        stop_outcome(name, Some(info)) is Ok,
    ensures
        record_after_stop(info).status == ContainerStatus::Stopped,
        rm_outcome(name, Some(record_after_stop(info))) == Ok::<Seq<char>, RuntimeErrorView>(
            container_dir_of(name),
        ),
{
}

/// A process id written in decimal is read back: a record that holds the
/// decimal of a process id that is not negative, and that is not stopped, is
/// stopped by a signal to that very process.
pub proof fn lemma_stop_reads_the_pid(name: Seq<char>, info: ContainerInfoView, pid: i32)
    requires
        pid >= 0,
        info.pid == signed_decimal(pid as int),
        info.status != ContainerStatus::Stopped,
    ensures
        pid_of(info.pid) == Some(pid),
        stop_outcome(name, Some(info)) == Ok::<StopPlanView, RuntimeErrorView>(
            StopPlanView::Terminate { pid, record: stopped_record(info) },
        ),
{
    lemma_decimal_spells(pid as nat);
}

/// A running container is not removed, and neither is one that has no
/// record.
pub proof fn lemma_rm_refusals(name: Seq<char>, info: ContainerInfoView)
    ensures
        info.status == ContainerStatus::Running ==> rm_outcome(name, Some(info)) == Err::<
            Seq<char>,
            RuntimeErrorView,
        >(RuntimeErrorView::InvalidState { name }),
        rm_outcome(name, None) == Err::<Seq<char>, RuntimeErrorView>(
            RuntimeErrorView::MetadataNotFound { name },
        ),
{
}

/// Stopping keeps a record one that the runtime writes.
pub proof fn lemma_stop_keeps_records_valid(info: ContainerInfoView)
    requires
        valid_record(info),
    ensures
        valid_record(record_after_stop(info)),
{
}

/// A file of a process's namespace, and the namespace that it stands for.
#[derive(Debug)]
pub struct NamespaceFile {
    pub path: String,
    pub namespace: Namespace,
}

impl View for NamespaceFile {
    type V = (Seq<char>, Namespace);

    open spec fn view(&self) -> (Seq<char>, Namespace) {
        (self.path@, self.namespace)
    }
}

/// What running a command inside a container takes, before the command is
/// started: the file to read the environment from, and the namespaces to
/// enter, in this order.
#[derive(Debug)]
pub struct ExecPlan {
    pub environ_path: String,
    pub namespaces: Vec<NamespaceFile>,
}

/// An `ExecPlan` with its texts as sequences of characters.
pub struct ExecPlanView {
    pub environ_path: Seq<char>,
    pub namespaces: Seq<(Seq<char>, Namespace)>,
}

impl View for ExecPlan {
    type V = ExecPlanView;

    open spec fn view(&self) -> ExecPlanView {
        ExecPlanView {
            environ_path: self.environ_path@,
            namespaces: Seq::new(self.namespaces@.len(), |k: int| self.namespaces@[k]@),
        }
    }
}

/// The directory of the process `pid` in the process file system.
pub open spec fn proc_dir(pid: Seq<char>) -> Seq<char> {
    "/proc/"@ + pid
}

/// What it takes to enter the container of the process `pid`. The
/// namespaces are entered in the order ipc, uts, net, pid, mnt: the mount
/// namespace last, after that of the process ids.
pub open spec fn exec_plan_of(pid: Seq<char>) -> ExecPlanView {
    ExecPlanView {
        environ_path: proc_dir(pid) + "/environ"@,
        namespaces: seq![
            (proc_dir(pid) + "/ns/ipc"@, Namespace::Ipc),
            (proc_dir(pid) + "/ns/uts"@, Namespace::Uts),
            (proc_dir(pid) + "/ns/net"@, Namespace::Net),
            (proc_dir(pid) + "/ns/pid"@, Namespace::Pid),
            (proc_dir(pid) + "/ns/mnt"@, Namespace::Mount),
        ],
    }
}

/// The namespace of the process ids is entered before that of the mounts,
/// so that the process file system that the command sees is the
/// container's.
pub proof fn lemma_pid_entered_before_mount(pid: Seq<char>)
    ensures
        forall|i: int, j: int|
            0 <= i < exec_plan_of(pid).namespaces.len() && 0 <= j < exec_plan_of(
                pid,
            ).namespaces.len() && (#[trigger] exec_plan_of(pid).namespaces[i]).1 == Namespace::Pid
                && (#[trigger] exec_plan_of(pid).namespaces[j]).1 == Namespace::Mount ==> i < j,
{
}

/// What running a command inside the container `name` comes to, given its
/// record if it has one.
pub open spec fn exec_outcome(name: Seq<char>, loaded: Option<ContainerInfoView>) -> Result<
    ExecPlanView,
    RuntimeErrorView,
> {
    match loaded {
        None => Err(RuntimeErrorView::MetadataNotFound { name }),
        Some(info) => match pid_of(info.pid) {
            None => Err(bad_pid(info.pid)),
            Some(_) => Ok(exec_plan_of(info.pid)),
        },
    }
}

/// Whether an entry of an environment has the form `KEY=VALUE`, with a key
/// that is not empty.
pub open spec fn well_formed_entry(entry: Seq<char>) -> bool {
    0 < first_index(entry, '=') < entry.len()
}

/// The key and the value of an entry `KEY=VALUE`: what stands before the
/// first `=` and what stands after it.
pub open spec fn entry_pair(entry: Seq<char>) -> (Seq<char>, Seq<char>) {
    let k = first_index(entry, '=');
    (entry.take(k), entry.skip(k + 1))
}

/// The entries of the text of an environment, in which each entry is
/// followed by a character zero: the pieces between the zeros that are not
/// empty.
pub open spec fn environ_entries(text: Seq<char>) -> Seq<Seq<char>> {
    nonempty_of(split(text, '\0'))
}

/// Those of `all` that are not empty, in order.
pub open spec fn nonempty_of(all: Seq<Seq<char>>) -> Seq<Seq<char>> {
    all.filter(|e: Seq<char>| e.len() > 0)
}

/// The variables of the text of an environment, if each of its entries is
/// well formed.
pub open spec fn environ_of(text: Seq<char>) -> Option<Seq<(Seq<char>, Seq<char>)>> {
    let entries = environ_entries(text);
    if forall|k: int| 0 <= k < entries.len() ==> well_formed_entry(#[trigger] entries[k]) {
        Some(Seq::new(entries.len(), |k: int| entry_pair(entries[k])))
    } else {
        None
    }
}

/// The variables of a list, each by its view.
pub open spec fn vars_view(vars: Seq<(String, String)>) -> Seq<(Seq<char>, Seq<char>)> {
    Seq::new(vars.len(), |k: int| (vars[k].0@, vars[k].1@))
}

/// The arguments that make the archive tool pack the files under `rootfs`
/// into `<image>.tar` in the current directory.
pub open spec fn commit_args(image: Seq<char>, rootfs: Seq<char>) -> Seq<Seq<char>> {
    seq!["-czf"@, image + ".tar"@, "-C"@, rootfs, "."@]
}

/// The failure to read an environment.
pub open spec fn bad_environ() -> RuntimeErrorView {
    RuntimeErrorView::ParseFailed { what: "environ"@ }
}

/// Reads the variables from the text of a process's environment, in which
/// each entry `KEY=VALUE` is followed by a character zero.
pub fn parse_environ(text: &str) -> (vars: Result<Vec<(String, String)>, RuntimeError>)
    ensures
        match environ_of(text@) {
            Some(v) => vars is Ok && vars_view(vars->Ok_0@) == v,
            None => vars is Err && vars->Err_0@ == bad_environ(),
        },
{
    let chars = chars_of(text);
    let ranges = split_ranges(&chars, 0, chars.len(), '\0');
    assert(chars@.subrange(0, chars.len() as int) =~= chars@);
    let ghost all = split(text@, '\0');
    let mut vars: Vec<(String, String)> = Vec::new();
    let mut k: usize = 0;
    proof {
        reveal(Seq::filter);
        assert(all.take(0) =~= Seq::<Seq<char>>::empty());
        assert(vars_view(vars@) =~= Seq::new(0, |j: int| entry_pair(nonempty_of(all.take(0))[j])));
    }
    while k < ranges.len()
        invariant
            k <= ranges.len(),
            chars@ == text@,
            all == split(text@, '\0'),
            pieces(chars@, ranges@) == all,
            ranges_within(ranges@, 0, chars.len() as int),
            forall|j: int|
                0 <= j < nonempty_of(all.take(k as int)).len() ==> well_formed_entry(
                    #[trigger] nonempty_of(all.take(k as int))[j],
                ),
            vars_view(vars@) == Seq::new(
                nonempty_of(all.take(k as int)).len(),
                |j: int| entry_pair(nonempty_of(all.take(k as int))[j]),
            ),
        decreases ranges.len() - k,
    {
        let (a, b) = ranges[k];
        assert(0 <= ranges@[k as int].0 <= ranges@[k as int].1 <= chars.len());
        let ghost entry = all[k as int];
        assert(entry == pieces(chars@, ranges@)[k as int]);
        let ghost before = nonempty_of(all.take(k as int));
        let ghost after = nonempty_of(all.take(k + 1));
        proof {
            reveal(Seq::filter);
            assert(all.take(k + 1).drop_last() =~= all.take(k as int));
            assert(all.take(k + 1).last() == entry);
            assert(after == if entry.len() > 0 {
                before.push(entry)
            } else {
                before
            });
        }
        if b > a {
            let mut i: usize = a;
            while i < b && chars[i] != '='
                invariant
                    a <= i <= b <= chars.len(),
                    forall|j: int| a <= j < i ==> chars@[j] != '=',
                decreases b - i,
            {
                i = i + 1;
            }
            proof {
                assert forall|j: int| 0 <= j < i - a implies entry[j] != '=' by {
                    assert(entry[j] == chars@[a + j]);
                }
                lemma_first_index(entry, '=', i - a);
            }
            if i == b || i == a {
                proof {
                    assert(!well_formed_entry(entry));
                    assert(after[after.len() - 1] == entry);
                    lemma_filter_prefix(all, k as int + 1);
                    assert(environ_of(text@) is None);
                }
                return Err(RuntimeError::ParseFailed { what: String::from_str("environ") });
            }
            let key = String::from_str(text.substring_char(a, i));
            let value = String::from_str(text.substring_char(i + 1, b));
            let ghost old_vars = vars_view(vars@);
            vars.push((key, value));
            proof {
                assert(entry.take(i - a) =~= text@.subrange(a as int, i as int));
                assert(entry.skip(i - a + 1) =~= text@.subrange(i + 1, b as int));
                assert(vars_view(vars@) =~= old_vars.push(entry_pair(entry)));
                assert(vars_view(vars@) =~= Seq::new(
                    after.len(),
                    |j: int| entry_pair(after[j]),
                ));
            }
        } else {
            assert(entry.len() == 0);
        }
        k = k + 1;
    }
    assert(all.take(ranges.len() as int) =~= all);
    Ok(vars)
}

/// What is kept of the first `k` items is the start of what is kept of all.
proof fn lemma_filter_prefix(all: Seq<Seq<char>>, k: int)
    requires
        0 <= k <= all.len(),
    ensures
        nonempty_of(all.take(k)).len() <= nonempty_of(all).len(),
        forall|j: int|
            0 <= j < nonempty_of(all.take(k)).len() ==> nonempty_of(all)[j]
                == #[trigger] nonempty_of(all.take(k))[j],
    decreases all.len() - k,
{
    reveal(Seq::filter);
    if k < all.len() {
        lemma_filter_prefix(all, k + 1);
        assert(all.take(k + 1).drop_last() =~= all.take(k));
        let shorter = nonempty_of(all.take(k));
        let longer = nonempty_of(all.take(k + 1));
        assert(longer == if all.take(k + 1).last().len() > 0 {
            shorter.push(all.take(k + 1).last())
        } else {
            shorter
        });
        assert forall|j: int| 0 <= j < shorter.len() implies nonempty_of(all)[j]
            == #[trigger] shorter[j] by {
            assert(longer[j] == shorter[j]);
        }
    } else {
        assert(all.take(k) =~= all);
    }
}

/// The operations on containers that exist.
pub struct Lifecycle {}

impl Lifecycle {
    /// What stopping the container `name` takes, given its record if it has
    /// one. A container that was stopped before needs nothing. Any other is
    /// sent `SIGTERM` once, and its record loses the process and becomes
    /// stopped.
    pub fn stop(name: &str, loaded: Option<ContainerInfo>) -> (plan: Result<StopPlan, RuntimeError>)
        ensures
            match stop_outcome(
                name@,
                match loaded {
                    Some(info) => Some(info@),
                    None => None,
                },
            ) {
                Ok(p) => plan is Ok && plan->Ok_0@ == p,
                Err(e) => plan is Err && plan->Err_0@ == e,
            },
    {
        match loaded {
            None => Err(RuntimeError::MetadataNotFound { name: String::from_str(name) }),
            Some(info) => {
                if info.status == ContainerStatus::Stopped {
                    return Ok(StopPlan::AlreadyStopped);
                }
                match parse_pid(info.pid.as_str()) {
                    Err(e) => Err(e),
                    Ok(pid) => {
                        let record = ContainerInfo {
                            pid: String::new(),
                            id: info.id,
                            name: info.name,
                            command: info.command,
                            created_time: info.created_time,
                            status: ContainerStatus::Stopped,
                            volume: info.volume,
                            port_mapping: info.port_mapping,
                            network: info.network,
                            image_name: info.image_name,
                        };
                        Ok(StopPlan::Terminate { pid, record })
                    },
                }
            },
        }
    }

    /// What removing the container `name` takes, given its record if it has
    /// one: the directory to remove with all that is in it. A running
    /// container is not removed.
    pub fn rm(name: &str, loaded: Option<&ContainerInfo>) -> (dir: Result<String, RuntimeError>)
        ensures
            match rm_outcome(
                name@,
                match loaded {
                    Some(info) => Some(info@),
                    None => None,
                },
            ) {
                Ok(d) => dir is Ok && dir->Ok_0@ == d,
                Err(e) => dir is Err && dir->Err_0@ == e,
            },
    {
        match loaded {
            None => Err(RuntimeError::MetadataNotFound { name: String::from_str(name) }),
            Some(info) => {
                if info.status == ContainerStatus::Running {
                    Err(RuntimeError::InvalidState { name: String::from_str(name) })
                } else {
                    Ok(ContainerStore::container_dir(name))
                }
            },
        }
    }

    /// The file whose contents are the output of the container `name`, given
    /// whether that file is there.
    pub fn logs(name: &str, log_present: bool) -> (path: Result<String, RuntimeError>)
        ensures
            log_present ==> path is Ok && path->Ok_0@ == log_path_of(name@),
            !log_present ==> path is Err && path->Err_0@ == (RuntimeErrorView::MetadataNotFound {
                name: name@,
            }),
    {
        if log_present {
            Ok(ContainerStore::log_path(name))
        } else {
            Err(RuntimeError::MetadataNotFound { name: String::from_str(name) })
        }
    }

    /// The arguments for the archive tool that pack the files of the
    /// container `name`, which are under `rootfs`, into `<image>.tar` in the
    /// current directory, given whether the container has a record.
    pub fn commit(name: &str, image: &str, rootfs: &str, record_present: bool) -> (args: Result<
        Vec<String>,
        RuntimeError,
    >)
        ensures
            record_present ==> args is Ok && texts_view(args->Ok_0@) == commit_args(
                image@,
                rootfs@,
            ),
            !record_present ==> args is Err && args->Err_0@ == (
            RuntimeErrorView::MetadataNotFound { name: name@ }),
    {
        if !record_present {
            return Err(RuntimeError::MetadataNotFound { name: String::from_str(name) });
        }
        let mut args: Vec<String> = Vec::new();
        args.push(String::from_str("-czf"));
        args.push(String::from_str(image).concat(".tar"));
        args.push(String::from_str("-C"));
        args.push(String::from_str(rootfs));
        args.push(String::from_str("."));
        assert(texts_view(args@) =~= commit_args(image@, rootfs@));
        Ok(args)
    }

    /// What running a command inside the container `name` takes before the
    /// command is started, given the container's record if it has one.
    pub fn exec(name: &str, loaded: Option<&ContainerInfo>) -> (plan: Result<
        ExecPlan,
        RuntimeError,
    >)
        ensures
            match exec_outcome(
                name@,
                match loaded {
                    Some(info) => Some(info@),
                    None => None,
                },
            ) {
                Ok(p) => plan is Ok && plan->Ok_0@ == p,
                Err(e) => plan is Err && plan->Err_0@ == e,
            },
    {
        match loaded {
            None => Err(RuntimeError::MetadataNotFound { name: String::from_str(name) }),
            Some(info) => match parse_pid(info.pid.as_str()) {
                Err(e) => Err(e),
                Ok(_) => {
                    let pid = info.pid.as_str();
                    let mut namespaces: Vec<NamespaceFile> = Vec::new();
                    namespaces.push(
                        NamespaceFile {
                            path: String::from_str("/proc/").concat(pid).concat("/ns/ipc"),
                            namespace: Namespace::Ipc,
                        },
                    );
                    namespaces.push(
                        NamespaceFile {
                            path: String::from_str("/proc/").concat(pid).concat("/ns/uts"),
                            namespace: Namespace::Uts,
                        },
                    );
                    namespaces.push(
                        NamespaceFile {
                            path: String::from_str("/proc/").concat(pid).concat("/ns/net"),
                            namespace: Namespace::Net,
                        },
                    );
                    namespaces.push(
                        NamespaceFile {
                            path: String::from_str("/proc/").concat(pid).concat("/ns/pid"),
                            namespace: Namespace::Pid,
                        },
                    );
                    namespaces.push(
                        NamespaceFile {
                            path: String::from_str("/proc/").concat(pid).concat("/ns/mnt"),
                            namespace: Namespace::Mount,
                        },
                    );
                    let plan = ExecPlan {
                        environ_path: String::from_str("/proc/").concat(pid).concat("/environ"),
                        namespaces,
                    };
                    assert(plan@.namespaces =~= exec_plan_of(info.pid@).namespaces);
                    Ok(plan)
                },
            },
        }
    }
}

} // verus!
