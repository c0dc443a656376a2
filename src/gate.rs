//! The CI gate, the monitoring alert and the choice of remediation versions.
use vstd::prelude::*;
use crate::audit::{is_severe, DependencyAudit, SecurityAudit, Vulnerability, VulnerableDependency};

verus! {

/// Where a decision is asked for: a CI run, or the unattended monitor.
#[derive(Clone, Copy, Debug, PartialEq, Eq, Structural)]
pub enum GateMode {
    Ci,
    Monitor,
}

/// One finding as an alert lists it.
#[derive(Debug)]
pub struct AlertEntry {
    pub id: String,
    pub description: String,
}

/// What an audit means for the process: its exit code, and in monitoring
/// mode whether to alert and with which findings.
#[derive(Debug)]
pub struct Decision {
    pub exit_code: i32,
    pub alert: bool,
    pub payload: Vec<AlertEntry>,
}

/// How many findings an alert lists: the first five at most.
pub const ALERT_LIMIT: usize = 5;

pub open spec fn alert_len(n: nat) -> nat {
    if n < 5 { n } else { 5 }
}

/// The payload lists the first `alert_len` findings, in their order.
pub open spec fn lists_top(payload: Seq<AlertEntry>, vulns: Seq<Vulnerability>, n: nat) -> bool {
    &&& payload.len() == n
    &&& n <= vulns.len()
    &&& forall|i: int|
        0 <= i < n ==> #[trigger] payload[i].id@ == vulns[i].id@ && payload[i].description@
            == vulns[i].description@
}

/// In CI mode the exit code is 1 exactly for high or critical risk; in
/// monitoring mode such risk raises an alert that lists the first five findings.
pub fn decide(audit: &SecurityAudit, mode: GateMode) -> (d: Decision)
    ensures
        mode == GateMode::Ci ==> {
            &&& d.exit_code == (if is_severe(audit.risk_level) { 1i32 } else { 0i32 })
            &&& !d.alert
            &&& d.payload@.len() == 0
        },
        mode == GateMode::Monitor ==> {
            &&& d.exit_code == 0
            &&& d.alert == is_severe(audit.risk_level)
            &&& lists_top(
                d.payload@,
                audit.vulnerabilities@,
                if d.alert { alert_len(audit.vulnerabilities@.len()) } else { 0 },
            )
        },
{
    let severe = audit.risk_level.is_severe();
    match mode {
        GateMode::Ci => Decision { exit_code: if severe { 1 } else { 0 }, alert: false, payload: Vec::new() },
        GateMode::Monitor => {
            let mut payload: Vec<AlertEntry> = Vec::new();
            if severe {
                let n: usize = if audit.vulnerabilities.len() < ALERT_LIMIT {
                    audit.vulnerabilities.len()
                } else {
                    ALERT_LIMIT
                };
                let mut i: usize = 0;
                while i < n
                    invariant
                        n == alert_len(audit.vulnerabilities@.len()),
                        i <= n,
                        lists_top(payload@, audit.vulnerabilities@, i as nat),
                    decreases n - i,
                {
                    let v = &audit.vulnerabilities[i];
                    payload.push(AlertEntry { id: v.id.clone(), description: v.description.clone() });
                    i = i + 1;
                }
            }
            Decision { exit_code: 0, alert: severe, payload }
        },
    }
}

/// A remediation chosen for one dependency.
#[derive(Debug)]
pub struct FixPlan {
    pub package: String,
    pub version: String,
}

/// Package and target version for each vulnerable dependency that lists a
/// safe version, in order; the target is the first version listed.
pub open spec fn fix_targets(deps: Seq<VulnerableDependency>) -> Seq<(Seq<char>, Seq<char>)>
    decreases deps.len(),
{
    if deps.len() == 0 {
        Seq::empty()
    } else {
        let rest = fix_targets(deps.drop_last());
        let d = deps.last();
        if d.safe_versions@.len() > 0 {
            rest.push((d.package@, d.safe_versions@[0]@))
        } else {
            rest
        }
    }
}

pub open spec fn plan_view(p: FixPlan) -> (Seq<char>, Seq<char>) {
    (p.package@, p.version@)
}

/// The remediation for every vulnerable dependency that has a safe version.
pub fn select_fixes(audit: &DependencyAudit) -> (r: Vec<FixPlan>)
    ensures
        r@.map_values(|p: FixPlan| plan_view(p)) == fix_targets(audit.vulnerable_dependencies@),
{
    let deps = &audit.vulnerable_dependencies;
    let mut r: Vec<FixPlan> = Vec::new();
    let mut i: usize = 0;
    while i < deps.len()
        invariant
            i <= deps@.len(),
            r@.map_values(|p: FixPlan| plan_view(p)) == fix_targets(deps@.subrange(0, i as int)),
        decreases deps.len() - i,
    {
        proof {
            assert(deps@.subrange(0, i + 1).drop_last() =~= deps@.subrange(0, i as int));
        }
        let d = &deps[i];
        if d.safe_versions.len() > 0 {
            let plan = FixPlan { package: d.package.clone(), version: d.safe_versions[0].clone() };
            let ghost before = r@;
            r.push(plan);
            proof {
                assert(r@.map_values(|p: FixPlan| plan_view(p)) =~= before.map_values(
                    |p: FixPlan| plan_view(p),
                ).push(plan_view(r@.last())));
            }
        }
        i = i + 1;
    }
    proof {
        assert(deps@.subrange(0, deps@.len() as int) =~= deps@);
    }
    r
}

/// How many of the writes failed.
pub open spec fn failures(written: Seq<bool>) -> nat
    decreases written.len(),
{
    if written.len() == 0 {
        0
    } else {
        failures(written.drop_last()) + if written.last() { 0nat } else { 1nat }
    }
}

/// The outcome of applying remediations: how many were selected, and how many
/// of their manifest writes failed.
#[derive(Clone, Copy, Debug, PartialEq, Eq, Structural)]
pub struct FixReport {
    pub fixed_count: usize,
    pub failed_count: usize,
}

/// Counts the selected remediations, and separately the ones whose write failed
/// (`written[i]` tells whether the write of `plans[i]` succeeded).
pub fn apply_fixes(plans: &Vec<FixPlan>, written: &Vec<bool>) -> (r: FixReport)
    requires
        plans@.len() == written@.len(),
    ensures
        r.fixed_count == plans@.len(),
        r.failed_count == failures(written@),
{
    let mut failed: usize = 0;
    let mut i: usize = 0;
    while i < written.len()
        invariant
            i <= written@.len(),
            failed == failures(written@.subrange(0, i as int)),
            failed <= i,
        decreases written.len() - i,
    {
        proof {
            assert(written@.subrange(0, i + 1).drop_last() =~= written@.subrange(0, i as int));
        }
        if !written[i] {
            failed = failed + 1;
        }
        i = i + 1;
    }
    proof {
        assert(written@.subrange(0, written@.len() as int) =~= written@);
    }
    FixReport { fixed_count: plans.len(), failed_count: failed }
}

} // verus!
