//! The decisions of the `audit` command once an audit is in hand: which
//! report to produce, which remediations to apply, and the exit code.
use vstd::prelude::*;
use crate::audit::{is_severe, SecurityAudit};
use crate::gate::{fix_targets, plan_view, select_fixes, FixPlan};
use crate::html_report::{generate_html_report, html_document};
use crate::sarif::{generate_sarif_output, sarif_document};
use crate::text_report::{generate_text_output, text_report};

verus! {

/// The report formats of the `audit` command.
#[derive(Clone, Copy, Debug, PartialEq, Eq, Structural)]
pub enum OutputFormat {
    Text,
    /// The audit serialised as JSON, which the caller produces from its own copy.
    Json,
    Sarif,
    Html,
}

/// Whether two strings hold the same characters.
pub fn same_text(a: &str, b: &str) -> (r: bool)
    ensures
        r == (a@ == b@),
{
    let n = a.unicode_len();
    if n != b.unicode_len() {
        return false;
    }
    let mut i: usize = 0;
    while i < n
        invariant
            n == a@.len(),
            n == b@.len(),
            i <= n,
            forall|j: int| 0 <= j < i ==> a@[j] == b@[j],
        decreases n - i,
    {
        if a.get_char(i) != b.get_char(i) {
            return false;
        }
        i = i + 1;
    }
    proof {
        assert(a@ =~= b@);
    }
    true
}

/// The format named by the `--format` flag; an unknown name means text.
pub open spec fn format_named(name: Seq<char>) -> OutputFormat {
    if name == "json"@ {
        OutputFormat::Json
    } else if name == "sarif"@ {
        OutputFormat::Sarif
    } else if name == "html"@ {
        OutputFormat::Html
    } else {
        OutputFormat::Text
    }
}

pub fn parse_format(name: &str) -> (r: OutputFormat)
    ensures
        r == format_named(name@),
{
    if same_text(name, "json") {
        OutputFormat::Json
    } else if same_text(name, "sarif") {
        OutputFormat::Sarif
    } else if same_text(name, "html") {
        OutputFormat::Html
    } else {
        OutputFormat::Text
    }
}

/// The report in `format`; `None` for JSON, which is not rendered here.
pub open spec fn report_for(a: SecurityAudit, format: OutputFormat) -> Option<Seq<char>> {
    match format {
        OutputFormat::Text => Some(text_report(a)),
        OutputFormat::Json => None,
        OutputFormat::Sarif => Some(sarif_document(a)),
        OutputFormat::Html => Some(html_document(a)),
    }
}

pub fn render_report(audit: &SecurityAudit, format: OutputFormat) -> (r: Option<String>)
    ensures
        match r {
            Some(s) => report_for(*audit, format) == Some(s@),
            None => report_for(*audit, format) is None,
        },
{
    match format {
        OutputFormat::Text => Some(generate_text_output(audit)),
        OutputFormat::Json => None,
        OutputFormat::Sarif => Some(generate_sarif_output(audit)),
        OutputFormat::Html => Some(generate_html_report(audit)),
    }
}

/// The options of the `audit` command.
#[derive(Debug)]
pub struct Args {
    /// `text`, `json`, `sarif` or `html`.
    pub format: String,
    /// Apply remediations to vulnerable dependencies.
    pub fix: bool,
    pub zero_day: bool,
    pub supply_chain: bool,
    /// Compliance standards to check.
    pub compliance: Vec<String>,
    /// The project directory.
    pub path: String,
    /// Run the monitoring loop instead of one audit.
    pub monitor: bool,
    /// Fail on high or critical risk.
    pub ci: bool,
    /// Where to write the report; standard output when absent.
    pub output: Option<String>,
}

/// What a one-shot audit run leads to.
#[derive(Debug)]
pub struct RunPlan {
    pub format: OutputFormat,
    /// The rendered report, or `None` for JSON.
    pub report: Option<String>,
    /// The remediations to apply.
    pub fixes: Vec<FixPlan>,
    pub exit_code: i32,
}

/// The outcome of a one-shot audit: the report in the requested format,
/// remediations when `--fix` is given and there are findings, and exit code 1
/// under `--ci` for high or critical risk, else 0.
pub fn execute(args: &Args, audit: &SecurityAudit) -> (r: RunPlan)
    ensures
        r.format == format_named(args.format@),
        match r.report {
            Some(s) => report_for(*audit, r.format) == Some(s@),
            None => report_for(*audit, r.format) is None,
        },
        r.fixes@.map_values(|p: FixPlan| plan_view(p)) == (if args.fix && audit.vulnerabilities@.len() > 0 {
            fix_targets(audit.dependency_audit.vulnerable_dependencies@)
        } else {
            Seq::empty()
        }),
        r.exit_code == (if args.ci && is_severe(audit.risk_level) { 1i32 } else { 0i32 }),
{
    let format = parse_format(args.format.as_str());
    let report = render_report(audit, format);
    let mut fixes: Vec<FixPlan> = Vec::new();
    if args.fix && audit.vulnerabilities.len() > 0 {
        fixes = select_fixes(&audit.dependency_audit);
    } else {
        proof {
            assert(fixes@.map_values(|p: FixPlan| plan_view(p)) =~= Seq::empty());
        }
    }
    let exit_code: i32 = if args.ci && audit.risk_level.is_severe() { 1 } else { 0 };
    RunPlan { format, report, fixes, exit_code }
}

} // verus!
