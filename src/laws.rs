//! Properties that hold across the functions of the library.
use vstd::prelude::*;
use crate::audit::{band, SecurityAudit};
use crate::cycle::{after_scan, stage_queries, AuditCycle, QueryKind, Stage};
use crate::html_report::html_document;
use crate::sarif::sarif_document;
use crate::text_report::text_report;

verus! {

/// Every audit a well-formed cycle holds has a score between 0 and 100
/// points and the level that the banding gives that score.
pub proof fn cycle_audits_are_banded(c: AuditCycle)
    requires
        c.wf(),
    ensures
        c.audit matches Some(a) ==> a.risk_score <= 1000 && a.risk_level == band(a.risk_score as nat),
{
}

/// Each renderer is a function of the audit alone: the same audit renders
/// to the same text, document and page on every call.
pub proof fn rendering_is_deterministic(a: SecurityAudit, b: SecurityAudit)
    requires
        a == b,
    ensures
        text_report(a) == text_report(b),
        sarif_document(a) == sarif_document(b),
        html_document(a) == html_document(b),
{
}

/// A failed code-pattern scan aborts the cycle whatever the other two scans
/// gave, and an aborted cycle issues no query at all, so no
/// known-vulnerability query is sent.
pub proof fn code_scan_failure_is_fatal(dependencies_ok: bool, configurations_ok: bool)
    ensures
        after_scan(dependencies_ok, false, configurations_ok) == Stage::Aborted,
        stage_queries(Stage::Aborted).len() == 0,
        !stage_queries(after_scan(dependencies_ok, false, configurations_ok)).contains(
            QueryKind::KnownVulnerabilities,
        ),
{
}

} // verus!
