//! The `cpu` controller: a share of processor time.

use crate::cgroups::subsystems::subsystem::{
    plan_apply, plan_remove, plan_set, FsAction, ResourceConfig, ResourceConfigView, Subsystem,
};
use crate::error::RuntimeError;
use crate::text::{
    all_digits, decimal, decimal_string, digits_value, parse_decimal, parse_u64,
};
use vstd::prelude::*;

verus! {

/// The `cpu` controller.
pub struct CpuSubsystem {}

/// The shares that a text asks for: the number it spells, or 1024 if it
/// spells none.
pub open spec fn shares_of(text: Seq<char>) -> nat {
    match parse_u64(text) {
        Some(n) => n as nat,
        None => 1024,
    }
}

/// The weight of the unified hierarchy that stands for `shares` of the older
/// one: `shares * 100 / 1024`, held between 1 and 10000.
pub open spec fn weight_of(shares: nat) -> nat {
    let w = shares * 100 / 1024;
    if w < 1 {
        1
    } else if w > 10000 {
        10000
    } else {
        w
    }
}

/// The weight of the unified hierarchy that stands for the shares spelled by
/// `text`.
pub fn cpu_weight(text: &str) -> (weight: u64)
    ensures
        weight == weight_of(shares_of(text@)),
        1 <= weight <= 10000,
{
    let shares: u64 = match parse_decimal(text) {
        Some(n) => n,
        None => 1024,
    };
    if shares >= 1_000_000 {
        10000
    } else {
        let w: u64 = shares * 100 / 1024;
        if w < 1 {
            1
        } else if w > 10000 {
            10000
        } else {
            w
        }
    }
}

impl Subsystem for CpuSubsystem {
    open spec fn spec_name(&self) -> Seq<char> {
        "cpu"@
    }

    /// Under the older layout the shares go to `cpu.shares` as they are
    /// given; under the unified one their weight goes to `cpu.weight`.
    open spec fn spec_limit(&self, res: ResourceConfigView, v2: bool) -> Option<
        (Seq<char>, Seq<char>),
    > {
        match res.cpu_shares {
            None => None,
            Some(shares) => if v2 {
                Some(("cpu.weight"@, decimal(weight_of(shares_of(shares)))))
            } else {
                Some(("cpu.shares"@, shares))
            },
        }
    }

    fn name(&self) -> (name: &'static str) {
        "cpu"
    }

    fn set(&self, cgroup_path: &str, res: &ResourceConfig, mountinfo: &str) -> (plan: Result<
        Vec<FsAction>,
        RuntimeError,
    >) {
        let limit = match &res.cpu_shares {
            None => None,
            Some(shares) => if crate::cgroups::subsystems::util::is_cgroup_v2(mountinfo) {
                Some(("cpu.weight", decimal_string(cpu_weight(shares.as_str()))))
            } else {
                Some(("cpu.shares", shares.clone()))
            },
        };
        plan_set(self.name(), limit, cgroup_path, mountinfo)
    }

    fn apply(&self, cgroup_path: &str, pid: i32, mountinfo: &str) -> (plan: Result<
        Vec<FsAction>,
        RuntimeError,
    >) {
        plan_apply(self.name(), cgroup_path, pid, mountinfo)
    }

    fn remove(&self, cgroup_path: &str, mountinfo: &str) -> (plan: Result<
        Vec<FsAction>,
        RuntimeError,
    >) {
        plan_remove(self.name(), cgroup_path, mountinfo)
    }
}

/// Shares of `1024`, with whatever other limits, are given the weight `100`
/// under the unified hierarchy.
pub proof fn lemma_default_shares_weigh_100(res: ResourceConfigView)
    requires
        res.cpu_shares == Some("1024"@),
    ensures
        weight_of(shares_of("1024"@)) == 100,
        (CpuSubsystem {  }).spec_limit(res, true) == Some(("cpu.weight"@, "100"@)),
{
    reveal_strlit("1024");
    reveal_strlit("100");
    let s = "1024"@;
    assert(s =~= seq!['1', '0', '2', '4']);
    let s3 = s.drop_last();
    let s2 = s3.drop_last();
    let s1 = s2.drop_last();
    let s0 = s1.drop_last();
    assert(s0.len() == 0);
    assert(digits_value(s0) == 0);
    assert(s1.last() == '1');
    assert(digits_value(s1) == 1);
    assert(s2.last() == '0');
    assert(digits_value(s2) == 10);
    assert(s3.last() == '2');
    assert(digits_value(s3) == 102);
    assert(s.last() == '4');
    assert(digits_value(s) == 1024);
    assert(all_digits(s));
    assert(parse_u64(s) == Some(1024u64));
    assert(shares_of(s) == 1024);
    assert(weight_of(1024) == 100);
    assert(decimal(1) =~= seq!['1']);
    assert(decimal(10) =~= seq!['1', '0']);
    assert(decimal(100) =~= seq!['1', '0', '0']);
    assert(decimal(100) =~= "100"@);
}

impl CpuSubsystem {
    /// The controller.
    pub fn new() -> (s: CpuSubsystem)
        ensures
            s == (CpuSubsystem {  }),
    {
        CpuSubsystem {  }
    }
}

} // verus!
