//! One cgroup under all controllers at once.

use crate::cgroups::subsystems::cpu_set_subsystem::CpusetSubsystem;
use crate::cgroups::subsystems::cpu_subsystem::CpuSubsystem;
use crate::cgroups::subsystems::memory_subsystem::MemorySubsystem;
use crate::cgroups::subsystems::subsystem::{
    action_path, actions_view, apply_plan, get_subsystems_initialized, plan_view, remove_plan,
    set_plan, FsAction, FsActionView, ResourceConfig, ResourceConfigView, Subsystem,
};
use crate::cgroups::subsystems::util::shows_v2;
use crate::error::{message_of, RuntimeError, RuntimeErrorView};
use vstd::prelude::*;

verus! {

/// What a manager was asked to do.
#[derive(Clone, Copy, Debug, PartialEq, Eq, Structural)]
pub enum ManagerOp {
    SetLimits,
    AddProcess,
    Destroy,
}

/// The word for an operation in a manager's error messages.
pub open spec fn op_word(operation: ManagerOp) -> Seq<char> {
    match operation {
        ManagerOp::SetLimits => "set"@,
        ManagerOp::AddProcess => "apply"@,
        ManagerOp::Destroy => "remove"@,
    }
}

/// A controller's failure, with the manager's operation and cgroup.
#[derive(Debug)]
pub struct ManagerError {
    pub operation: ManagerOp,
    pub cgroup_path: String,
    pub source: RuntimeError,
}

/// A `ManagerError` with its texts as sequences of characters.
pub struct ManagerErrorView {
    pub operation: ManagerOp,
    pub cgroup_path: Seq<char>,
    pub source: RuntimeErrorView,
}

impl View for ManagerError {
    type V = ManagerErrorView;

    open spec fn view(&self) -> ManagerErrorView {
        ManagerErrorView {
            operation: self.operation,
            cgroup_path: self.cgroup_path@,
            source: self.source@,
        }
    }
}

/// The one-line text that describes a manager's error.
pub open spec fn manager_message_of(e: ManagerErrorView) -> Seq<char> {
    "CgroupManager::"@ + op_word(e.operation) + " "@ + e.cgroup_path + " fail "@ + message_of(
        e.source,
    )
}

impl ManagerError {
    /// The one-line text that describes this error.
    pub fn message(&self) -> (text: String)
        ensures
            text@ == manager_message_of(self@),
    {
        let word = match self.operation {
            ManagerOp::SetLimits => "set",
            ManagerOp::AddProcess => "apply",
            ManagerOp::Destroy => "remove",
        };
        let source = self.source.message();
        String::from_str("CgroupManager::").concat(word).concat(" ").concat(
            self.cgroup_path.as_str(),
        ).concat(" fail ").concat(source.as_str())
    }
}

/// An action, and the controller that asks for it.
#[derive(Debug)]
pub struct PlannedAction {
    pub subsystem: String,
    pub action: FsAction,
}

impl View for PlannedAction {
    type V = (Seq<char>, FsActionView);

    open spec fn view(&self) -> (Seq<char>, FsActionView) {
        (self.subsystem@, self.action@)
    }
}

/// What a manager asks of the file system for one operation. The actions are
/// carried out in order. The first that fails ends the operation with
/// `write_failed`; when all are done, `finish` says how the operation ends.
#[derive(Debug)]
pub struct CgroupPlan {
    pub operation: ManagerOp,
    pub cgroup_path: String,
    pub actions: Vec<PlannedAction>,
    /// Why the controller after those that `actions` come from has no
    /// actions to give, if that is so.
    pub failure: Option<RuntimeError>,
}

/// A `CgroupPlan` with its texts as sequences of characters.
pub struct CgroupPlanView {
    pub operation: ManagerOp,
    pub cgroup_path: Seq<char>,
    pub actions: Seq<(Seq<char>, FsActionView)>,
    pub failure: Option<RuntimeErrorView>,
}

/// The planned actions of a list, each by its view.
pub open spec fn planned_view(actions: Seq<PlannedAction>) -> Seq<(Seq<char>, FsActionView)> {
    Seq::new(actions.len(), |k: int| actions[k]@)
}

impl View for CgroupPlan {
    type V = CgroupPlanView;

    open spec fn view(&self) -> CgroupPlanView {
        CgroupPlanView {
            operation: self.operation,
            cgroup_path: self.cgroup_path@,
            actions: planned_view(self.actions@),
            failure: match self.failure {
                Some(e) => Some(e@),
                None => None,
            },
        }
    }
}

/// What one controller answers, with its name.
pub type Answer = (Seq<char>, Result<Seq<FsActionView>, RuntimeErrorView>);

/// `actions`, each with the name of the controller that asks for it.
pub open spec fn tagged(name: Seq<char>, actions: Seq<FsActionView>) -> Seq<
    (Seq<char>, FsActionView),
> {
    Seq::new(actions.len(), |k: int| (name, actions[k]))
}

/// The controllers' answers put in a row: the actions of each in turn, up to
/// the first controller that fails, whose failure ends the row.
pub open spec fn chain(answers: Seq<Answer>) -> (Seq<(Seq<char>, FsActionView)>, Option<
    RuntimeErrorView,
>)
    decreases answers.len(),
{
    if answers.len() == 0 {
        (Seq::empty(), None)
    } else {
        match answers[0].1 {
            Err(e) => (Seq::empty(), Some(e)),
            Ok(actions) => {
                let rest = chain(answers.drop_first());
                (tagged(answers[0].0, actions) + rest.0, rest.1)
            },
        }
    }
}

/// What the three controllers answer when asked to set `res`.
pub open spec fn set_answers(
    cgroup_path: Seq<char>,
    res: ResourceConfigView,
    mountinfo: Seq<char>,
) -> Seq<Answer> {
    let v2 = shows_v2(mountinfo);
    let cpu = CpuSubsystem {  };
    let cpuset = CpusetSubsystem {  };
    let memory = MemorySubsystem {  };
    seq![
        (
            cpu.spec_name(),
            set_plan(cpu.spec_name(), cpu.spec_limit(res, v2), cgroup_path, mountinfo),
        ),
        (
            cpuset.spec_name(),
            set_plan(cpuset.spec_name(), cpuset.spec_limit(res, v2), cgroup_path, mountinfo),
        ),
        (
            memory.spec_name(),
            set_plan(memory.spec_name(), memory.spec_limit(res, v2), cgroup_path, mountinfo),
        ),
    ]
}

/// What the three controllers answer when asked to add the process `pid`.
pub open spec fn apply_answers(cgroup_path: Seq<char>, pid: int, mountinfo: Seq<char>) -> Seq<
    Answer,
> {
    seq![
        ("cpu"@, apply_plan("cpu"@, pid, cgroup_path, mountinfo)),
        ("cpuset"@, apply_plan("cpuset"@, pid, cgroup_path, mountinfo)),
        ("memory"@, apply_plan("memory"@, pid, cgroup_path, mountinfo)),
    ]
}

/// What the three controllers answer when asked to remove the cgroup.
pub open spec fn remove_answers(cgroup_path: Seq<char>, mountinfo: Seq<char>) -> Seq<Answer> {
    seq![
        ("cpu"@, remove_plan("cpu"@, cgroup_path, mountinfo)),
        ("cpuset"@, remove_plan("cpuset"@, cgroup_path, mountinfo)),
        ("memory"@, remove_plan("memory"@, cgroup_path, mountinfo)),
    ]
}

/// What the three controllers answer to an operation.
pub open spec fn answers_to(
    operation: ManagerOp,
    cgroup_path: Seq<char>,
    res: Option<&ResourceConfig>,
    pid: i32,
    mountinfo: Seq<char>,
) -> Seq<Answer> {
    match operation {
        ManagerOp::SetLimits => set_answers(cgroup_path, res->Some_0@, mountinfo),
        ManagerOp::AddProcess => apply_answers(cgroup_path, pid as int, mountinfo),
        ManagerOp::Destroy => remove_answers(cgroup_path, mountinfo),
    }
}

/// The plan of an operation whose controllers answer `answers`.
pub open spec fn plan_of(
    operation: ManagerOp,
    cgroup_path: Seq<char>,
    answers: Seq<Answer>,
) -> CgroupPlanView {
    CgroupPlanView {
        operation,
        cgroup_path,
        actions: chain(answers).0,
        failure: chain(answers).1,
    }
}

/// A cgroup, named by its path below each controller's mount point.
#[derive(Debug)]
pub struct CgroupManager {
    pub cgroup_path: String,
}

/// Adds one controller's answer to the row so far. Returns whether the
/// controller failed, which ends the row.
fn take_answer(
    actions: &mut Vec<PlannedAction>,
    failure: &mut Option<RuntimeError>,
    name: &str,
    answer: Result<Vec<FsAction>, RuntimeError>,
    Ghost(answers): Ghost<Seq<Answer>>,
    Ghost(k): Ghost<int>,
) -> (failed: bool)
    requires
        0 <= k < answers.len(),
        answers[k] == (name@, plan_view(answer)),
        *old(failure) is None,
        chain(answers) == ({
            let rest = chain(answers.skip(k));
            (planned_view(old(actions)@) + rest.0, rest.1)
        }),
    ensures
        failed == (*final(failure) is Some),
        failed ==> chain(answers) == (
            planned_view(final(actions)@),
            match *final(failure) {
                Some(e) => Some(e@),
                None => None,
            },
        ),
        !failed ==> chain(answers) == ({
            let rest = chain(answers.skip(k + 1));
            (planned_view(final(actions)@) + rest.0, rest.1)
        }),
{
    let ghost before = planned_view(actions@);
    assert(answers.skip(k)[0] == answers[k]);
    assert(answers.skip(k).drop_first() =~= answers.skip(k + 1));
    match answer {
        Err(e) => {
            *failure = Some(e);
            assert(before + Seq::<(Seq<char>, FsActionView)>::empty() =~= before);
            true
        },
        Ok(list) => {
            let ghost wanted = tagged(name@, actions_view(list@));
            for action in it: list
                invariant
                    it.seq() == list@,
                    planned_view(actions@) == before + wanted.take(
                        it.index() as int,
                    ),
                    wanted == tagged(name@, actions_view(list@)),
            {
                let ghost so_far = planned_view(actions@);
                actions.push(PlannedAction { subsystem: String::from_str(name), action });
                assert(planned_view(actions@) =~= so_far.push(
                    wanted[it.index() as int],
                ));
                assert(wanted.take(it.index() + 1) =~= wanted.take(it.index() as int).push(
                    wanted[it.index() as int],
                ));
            }
            assert(wanted.take(list@.len() as int) =~= wanted);
            let ghost rest = chain(answers.skip(k + 1));
            assert((before + wanted) + rest.0 =~= before + (wanted + rest.0));
            false
        },
    }
}

impl CgroupManager {
    /// The manager of the cgroup at `path`. Nothing is read or written.
    pub fn new(path: &str) -> (manager: CgroupManager)
        ensures
            manager.cgroup_path@ == path@,
    {
        CgroupManager { cgroup_path: String::from_str(path) }
    }

    /// What it takes to set the limits of `res`: what the controllers cpu,
    /// cpuset and memory ask for, in this order, up to the first that fails.
    pub fn set(&self, res: &ResourceConfig, mountinfo: &str) -> (plan: CgroupPlan)
        ensures
            plan@ == plan_of(
                ManagerOp::SetLimits,
                self.cgroup_path@,
                set_answers(self.cgroup_path@, res@, mountinfo@),
            ),
    {
        self.ask_all(ManagerOp::SetLimits, Some(res), 0, mountinfo)
    }

    /// What it takes to add the process `pid` to the cgroup: what the
    /// controllers cpu, cpuset and memory ask for, in this order, up to the
    /// first that fails.
    pub fn apply(&self, pid: i32, mountinfo: &str) -> (plan: CgroupPlan)
        ensures
            plan@ == plan_of(
                ManagerOp::AddProcess,
                self.cgroup_path@,
                apply_answers(self.cgroup_path@, pid as int, mountinfo@),
            ),
    {
        self.ask_all(ManagerOp::AddProcess, None, pid, mountinfo)
    }

    /// What it takes to remove the cgroup: what the controllers cpu, cpuset
    /// and memory ask for, in this order, up to the first that fails.
    pub fn destroy(&self, mountinfo: &str) -> (plan: CgroupPlan)
        ensures
            plan@ == plan_of(
                ManagerOp::Destroy,
                self.cgroup_path@,
                remove_answers(self.cgroup_path@, mountinfo@),
            ),
    {
        self.ask_all(ManagerOp::Destroy, None, 0, mountinfo)
    }

    /// Asks each controller in turn for what `operation` takes, up to the
    /// first that fails. The limits count only for setting limits, the
    /// process only for adding one.
    fn ask_all(
        &self,
        operation: ManagerOp,
        res: Option<&ResourceConfig>,
        pid: i32,
        mountinfo: &str,
    ) -> (plan: CgroupPlan)
        requires
            operation == ManagerOp::SetLimits ==> res is Some,
        ensures
            plan@ == plan_of(
                operation,
                self.cgroup_path@,
                answers_to(operation, self.cgroup_path@, res, pid, mountinfo@),
            ),
    {
        let subsystems = get_subsystems_initialized();
        let ghost answers = answers_to(operation, self.cgroup_path@, res, pid, mountinfo@);
        let mut actions: Vec<PlannedAction> = Vec::new();
        let mut failure: Option<RuntimeError> = None;
        let mut k: usize = 0;
        proof {
            assert(answers.skip(0) =~= answers);
            assert(planned_view(actions@) + chain(answers).0 =~= chain(answers).0);
        }
        while k < subsystems.len() && failure.is_none()
            invariant
                k <= subsystems.len() == 3,
                subsystems@[0] is Cpu,
                subsystems@[1] is Cpuset,
                subsystems@[2] is Memory,
                operation == ManagerOp::SetLimits ==> res is Some,
                answers == answers_to(operation, self.cgroup_path@, res, pid, mountinfo@),
                failure is Some ==> chain(answers) == (
                    planned_view(actions@),
                    match failure {
                        Some(e) => Some(e@),
                        None => None,
                    },
                ),
                failure is None ==> chain(answers) == ({
                    let rest = chain(answers.skip(k as int));
                    (planned_view(actions@) + rest.0, rest.1)
                }),
            decreases subsystems.len() - k + (if failure is None {
                1int
            } else {
                0int
            }),
        {
            let subsystem = &subsystems[k];
            let path = self.cgroup_path.as_str();
            let answer = match (operation, res) {
                (ManagerOp::SetLimits, Some(limits)) => subsystem.set(path, limits, mountinfo),
                (ManagerOp::AddProcess, _) => subsystem.apply(path, pid, mountinfo),
                _ => subsystem.remove(path, mountinfo),
            };
            take_answer(
                &mut actions,
                &mut failure,
                subsystem.name(),
                answer,
                Ghost(answers),
                Ghost(k as int),
            );
            k = k + 1;
        }
        proof {
            if failure is None {
                assert(answers.skip(3) =~= Seq::<Answer>::empty());
                assert(planned_view(actions@) + Seq::<(Seq<char>, FsActionView)>::empty()
                    =~= planned_view(actions@));
            }
        }
        CgroupPlan { operation, cgroup_path: self.cgroup_path.clone(), actions, failure }
    }
}

impl CgroupPlan {
    /// How the operation ends when `failed`, one of the plan's actions,
    /// could not be carried out for the reason `cause`: with a write failure
    /// of that action's controller and path.
    pub fn write_failed(&self, failed: &PlannedAction, cause: &str) -> (e: ManagerError)
        ensures
            e@ == (ManagerErrorView {
                operation: self.operation,
                cgroup_path: self.cgroup_path@,
                source: RuntimeErrorView::CgroupWrite {
                    subsystem: failed.subsystem@,
                    path: action_path(failed.action@),
                    cause: cause@,
                },
            }),
    {
        ManagerError {
            operation: self.operation,
            cgroup_path: self.cgroup_path.clone(),
            source: RuntimeError::CgroupWrite {
                subsystem: failed.subsystem.clone(),
                path: failed.action.path().clone(),
                cause: String::from_str(cause),
            },
        }
    }

    /// How the operation ends when every action was carried out: well,
    /// unless a controller had failed to give its actions.
    pub fn finish(&self) -> (end: Result<(), ManagerError>)
        ensures
            match self.failure {
                None => end is Ok,
                Some(source) => end is Err && end->Err_0@ == (ManagerErrorView {
                    operation: self.operation,
                    cgroup_path: self.cgroup_path@,
                    source: source@,
                }),
            },
    {
        match &self.failure {
            None => Ok(()),
            Some(source) => Err(
                ManagerError {
                    operation: self.operation,
                    cgroup_path: self.cgroup_path.clone(),
                    source: source.duplicate(),
                },
            ),
        }
    }
}

} // verus!
