//! The reports of a batch of code reviews: plain text, Markdown and HTML.
use vstd::prelude::*;
use crate::code_review::{
    category_label, quality_name, risk_name, Bottleneck, CodeReview, IssueSeverity, ReviewIssue,
    Vulnerability,
};
use crate::num::{decimal, decimal_text};

verus! {

/// The severity's name, as `{:?}` prints it.
pub open spec fn severity_name(s: IssueSeverity) -> Seq<char> {
    match s {
        IssueSeverity::Critical => "Critical"@,
        IssueSeverity::High => "High"@,
        IssueSeverity::Medium => "Medium"@,
        IssueSeverity::Low => "Low"@,
        IssueSeverity::Info => "Info"@,
    }
}

/// The severity's name in lowercase, the class of its table row.
pub open spec fn severity_class(s: IssueSeverity) -> Seq<char> {
    match s {
        IssueSeverity::Critical => "critical"@,
        IssueSeverity::High => "high"@,
        IssueSeverity::Medium => "medium"@,
        IssueSeverity::Low => "low"@,
        IssueSeverity::Info => "info"@,
    }
}

impl IssueSeverity {
    pub fn name(&self) -> (r: &'static str)
        ensures
            r@ == severity_name(*self),
    {
        match self {
            IssueSeverity::Critical => "Critical",
            IssueSeverity::High => "High",
            IssueSeverity::Medium => "Medium",
            IssueSeverity::Low => "Low",
            IssueSeverity::Info => "Info",
        }
    }

    pub fn class(&self) -> (r: &'static str)
        ensures
            r@ == severity_class(*self),
    {
        match self {
            IssueSeverity::Critical => "critical",
            IssueSeverity::High => "high",
            IssueSeverity::Medium => "medium",
            IssueSeverity::Low => "low",
            IssueSeverity::Info => "info",
        }
    }
}

pub open spec fn issue_entry(i: ReviewIssue) -> Seq<char> {
    "  ["@ + severity_name(i.severity) + "] "@ + category_label(i.category) + " - "@ + i.message@
        + " (Line "@ + decimal(i.line_start as nat) + ")\n"@ + (if i.suggestion@.len() > 0 {
        "    💡 "@ + i.suggestion@ + "\n"@
    } else {
        Seq::empty()
    })
}

pub open spec fn issue_entries(s: Seq<ReviewIssue>) -> Seq<char>
    decreases s.len(),
{
    if s.len() == 0 { Seq::empty() } else { issue_entries(s.drop_last()) + issue_entry(s.last()) }
}

pub open spec fn security_entry(v: Vulnerability) -> Seq<char> {
    "  "@ + v.severity@ + " - "@ + v.description@ + " ("@ + v.cwe_id@ + ")\n"@
}

pub open spec fn security_entries(s: Seq<Vulnerability>) -> Seq<char>
    decreases s.len(),
{
    if s.len() == 0 { Seq::empty() } else { security_entries(s.drop_last()) + security_entry(s.last()) }
}

pub open spec fn bottleneck_entry(b: Bottleneck) -> Seq<char> {
    "  "@ + b.location@ + " - Impact: "@ + b.impact@ + "\n"@
}

pub open spec fn bottleneck_entries(s: Seq<Bottleneck>) -> Seq<char>
    decreases s.len(),
{
    if s.len() == 0 { Seq::empty() } else { bottleneck_entries(s.drop_last()) + bottleneck_entry(s.last()) }
}

/// The plain-text section of one review.
pub open spec fn review_text(r: CodeReview) -> Seq<char> {
    "\n📄 File Review\nQuality: "@ + quality_name(r.summary.overall_quality) + "\nRisk: "@
        + risk_name(r.summary.risk_level) + "\nReady to merge: "@ + (if r.summary.ready_to_merge {
        "✅"@
    } else {
        "❌"@
    }) + "\n"@ + (if r.issues@.len() > 0 {
        "\n🔴 Issues Found:\n"@ + issue_entries(r.issues@)
    } else {
        Seq::empty()
    }) + (if r.security.vulnerabilities@.len() > 0 {
        "\n🔒 Security Issues:\n"@ + security_entries(r.security.vulnerabilities@)
    } else {
        Seq::empty()
    }) + (if r.performance.bottlenecks@.len() > 0 {
        "\n⚡ Performance Issues:\n"@ + bottleneck_entries(r.performance.bottlenecks@)
    } else {
        Seq::empty()
    })
}

/// The plain-text report: the section of each review, in order.
pub open spec fn reviews_text(s: Seq<CodeReview>) -> Seq<char>
    decreases s.len(),
{
    if s.len() == 0 { Seq::empty() } else { reviews_text(s.drop_last()) + review_text(s.last()) }
}

pub open spec fn table_row(i: ReviewIssue) -> Seq<char> {
    "| "@ + severity_name(i.severity) + " | "@ + category_label(i.category) + " | "@ + i.message@
        + " | "@ + decimal(i.line_start as nat) + " |\n"@
}

pub open spec fn table_rows(s: Seq<ReviewIssue>) -> Seq<char>
    decreases s.len(),
{
    if s.len() == 0 { Seq::empty() } else { table_rows(s.drop_last()) + table_row(s.last()) }
}

/// The Markdown section of the review numbered `n` (counting from 1).
pub open spec fn review_markdown(r: CodeReview, n: nat) -> Seq<char> {
    "## File "@ + decimal(n) + "\n\n- **Quality**: "@ + quality_name(r.summary.overall_quality)
        + "\n- **Risk**: "@ + risk_name(r.summary.risk_level) + "\n- **Issues**: "@ + decimal(
        r.summary.total_issues as nat,
    ) + "\n- **Blocking**: "@ + decimal(r.summary.blocking_issues as nat) + "\n\n"@ + (if r.issues@.len()
        > 0 {
        "### Issues\n\n| Severity | Category | Description | Line |\n|----------|----------|-------------|------|\n"@
            + table_rows(r.issues@) + "\n"@
    } else {
        Seq::empty()
    })
}

pub open spec fn reviews_markdown(s: Seq<CodeReview>) -> Seq<char>
    decreases s.len(),
{
    if s.len() == 0 { Seq::empty() } else { reviews_markdown(s.drop_last()) + review_markdown(s.last(), s.len()) }
}

/// The Markdown report: a title, then a numbered section per review.
pub open spec fn markdown_report(s: Seq<CodeReview>) -> Seq<char> {
    "# Code Review Report\n\n"@ + reviews_markdown(s)
}

pub open spec fn html_row(i: ReviewIssue) -> Seq<char> {
    "<tr class=\""@ + severity_class(i.severity) + "\"><td>"@ + severity_name(i.severity) + "</td><td>"@
        + category_label(i.category) + "</td><td>"@ + i.message@ + "</td><td>"@ + decimal(
        i.line_start as nat,
    ) + "</td></tr>"@
}

pub open spec fn html_rows(s: Seq<ReviewIssue>) -> Seq<char>
    decreases s.len(),
{
    if s.len() == 0 { Seq::empty() } else { html_rows(s.drop_last()) + html_row(s.last()) }
}

pub open spec fn review_html(r: CodeReview) -> Seq<char> {
    "\n    <div class=\"review\">\n        <h2>File Review</h2>\n        <p><strong>Quality:</strong> "@ + quality_name(r.summary.overall_quality) + "</p>\n        <p><strong>Risk Level:</strong> "@ + risk_name(r.summary.risk_level)
        + "</p>\n        <p class=\""@ + (if r.summary.ready_to_merge { "ready"@ } else { "not-ready"@ }) + "\"><strong>Ready to Merge:</strong> "@
        + (if r.summary.ready_to_merge { "✅ Yes"@ } else { "❌ No"@ }) + "</p>\n        "@ + (if r.issues@.len() > 0 {
        "<h3>Issues</h3><table><tr><th>Severity</th><th>Category</th><th>Description</th><th>Line</th></tr>"@
            + html_rows(r.issues@) + "</table>"@
    } else {
        Seq::empty()
    }) + "</div>"@
}

pub open spec fn reviews_html(s: Seq<CodeReview>) -> Seq<char>
    decreases s.len(),
{
    if s.len() == 0 { Seq::empty() } else { reviews_html(s.drop_last()) + review_html(s.last()) }
}

/// The HTML report: the page head, a block per review, the page end.
pub open spec fn html_report(s: Seq<CodeReview>) -> Seq<char> {
    "\n<!DOCTYPE html>\n<html>\n<head>\n    <title>Code Review Report</title>\n    <style>\n        body { font-family: -apple-system, BlinkMacSystemFont, \"Segoe UI\", Roboto, sans-serif; margin: 40px; }\n        .review { margin-bottom: 40px; padding: 20px; border: 1px solid #ddd; border-radius: 8px; }\n        .critical { color: #d32f2f; }\n        .high { color: #f57c00; }\n        .medium { color: #fbc02d; }\n        .low { color: #388e3c; }\n        .info { color: #1976d2; }\n        table { width: 100%; border-collapse: collapse; }\n        th, td { padding: 8px; text-align: left; border-bottom: 1px solid #ddd; }\n        .ready { color: #4caf50; }\n        .not-ready { color: #f44336; }\n    </style>\n</head>\n<body>\n    <h1>🔍 OpenRye AI Code Review Report</h1>\n"@ + reviews_html(s) + "</body></html>"@
}

fn issue_lines(s: &Vec<ReviewIssue>) -> (r: String)
    ensures
        r@ == issue_entries(s@),
{
    let mut r = String::new();
    let mut i: usize = 0;
    while i < s.len()
        invariant
            i <= s@.len(),
            r@ == issue_entries(s@.subrange(0, i as int)),
        decreases s.len() - i,
    {
        proof {
            assert(s@.subrange(0, i + 1).drop_last() =~= s@.subrange(0, i as int));
        }
        let x = &s[i];
        let mut hint = String::new();
        if x.suggestion.unicode_len() > 0 {
            hint = String::from_str("    💡 ");
            hint.append(&x.suggestion);
            hint.append("\n");
        }
        let mut e = String::from_str("  [");
        e.append(x.severity.name());
        e.append("] ");
        e.append(x.category.to_string());
        e.append(" - ");
        e.append(&x.message);
        e.append(" (Line ");
        e.append(&decimal_text(x.line_start as u64));
        e.append(")\n");
        e.append(&hint);
        r.append(&e);
        i = i + 1;
    }
    proof {
        assert(s@.subrange(0, s@.len() as int) =~= s@);
    }
    r
}

fn security_lines(s: &Vec<Vulnerability>) -> (r: String)
    ensures
        r@ == security_entries(s@),
{
    let mut r = String::new();
    let mut i: usize = 0;
    while i < s.len()
        invariant
            i <= s@.len(),
            r@ == security_entries(s@.subrange(0, i as int)),
        decreases s.len() - i,
    {
        proof {
            assert(s@.subrange(0, i + 1).drop_last() =~= s@.subrange(0, i as int));
        }
        let x = &s[i];
        let mut e = String::from_str("  ");
        e.append(&x.severity);
        e.append(" - ");
        e.append(&x.description);
        e.append(" (");
        e.append(&x.cwe_id);
        e.append(")\n");
        r.append(&e);
        i = i + 1;
    }
    proof {
        assert(s@.subrange(0, s@.len() as int) =~= s@);
    }
    r
}

fn bottleneck_lines(s: &Vec<Bottleneck>) -> (r: String)
    ensures
        r@ == bottleneck_entries(s@),
{
    let mut r = String::new();
    let mut i: usize = 0;
    while i < s.len()
        invariant
            i <= s@.len(),
            r@ == bottleneck_entries(s@.subrange(0, i as int)),
        decreases s.len() - i,
    {
        proof {
            assert(s@.subrange(0, i + 1).drop_last() =~= s@.subrange(0, i as int));
        }
        let x = &s[i];
        let mut e = String::from_str("  ");
        e.append(&x.location);
        e.append(" - Impact: ");
        e.append(&x.impact);
        e.append("\n");
        r.append(&e);
        i = i + 1;
    }
    proof {
        assert(s@.subrange(0, s@.len() as int) =~= s@);
    }
    r
}

fn table_lines(s: &Vec<ReviewIssue>) -> (r: String)
    ensures
        r@ == table_rows(s@),
{
    let mut r = String::new();
    let mut i: usize = 0;
    while i < s.len()
        invariant
            i <= s@.len(),
            r@ == table_rows(s@.subrange(0, i as int)),
        decreases s.len() - i,
    {
        proof {
            assert(s@.subrange(0, i + 1).drop_last() =~= s@.subrange(0, i as int));
        }
        let x = &s[i];
        let mut e = String::from_str("| ");
        e.append(x.severity.name());
        e.append(" | ");
        e.append(x.category.to_string());
        e.append(" | ");
        e.append(&x.message);
        e.append(" | ");
        e.append(&decimal_text(x.line_start as u64));
        e.append(" |\n");
        r.append(&e);
        i = i + 1;
    }
    proof {
        assert(s@.subrange(0, s@.len() as int) =~= s@);
    }
    r
}

fn html_lines(s: &Vec<ReviewIssue>) -> (r: String)
    ensures
        r@ == html_rows(s@),
{
    let mut r = String::new();
    let mut i: usize = 0;
    while i < s.len()
        invariant
            i <= s@.len(),
            r@ == html_rows(s@.subrange(0, i as int)),
        decreases s.len() - i,
    {
        proof {
            assert(s@.subrange(0, i + 1).drop_last() =~= s@.subrange(0, i as int));
        }
        let x = &s[i];
        let mut e = String::from_str("<tr class=\"");
        e.append(x.severity.class());
        e.append("\"><td>");
        e.append(x.severity.name());
        e.append("</td><td>");
        e.append(x.category.to_string());
        e.append("</td><td>");
        e.append(&x.message);
        e.append("</td><td>");
        e.append(&decimal_text(x.line_start as u64));
        e.append("</td></tr>");
        r.append(&e);
        i = i + 1;
    }
    proof {
        assert(s@.subrange(0, s@.len() as int) =~= s@);
    }
    r
}

fn review_section(r: &CodeReview) -> (t: String)
    ensures
        t@ == review_text(*r),
{
    let mut issues = String::new();
    if r.issues.len() > 0 {
        issues = String::from_str("\n🔴 Issues Found:\n");
        issues.append(&issue_lines(&r.issues));
    }
    let mut security = String::new();
    if r.security.vulnerabilities.len() > 0 {
        security = String::from_str("\n🔒 Security Issues:\n");
        security.append(&security_lines(&r.security.vulnerabilities));
    }
    let mut performance = String::new();
    if r.performance.bottlenecks.len() > 0 {
        performance = String::from_str("\n⚡ Performance Issues:\n");
        performance.append(&bottleneck_lines(&r.performance.bottlenecks));
    }
    let mut t = String::from_str("\n📄 File Review\nQuality: ");
    t.append(r.summary.overall_quality.name());
    t.append("\nRisk: ");
    t.append(r.summary.risk_level.name());
    t.append("\nReady to merge: ");
    if r.summary.ready_to_merge {
        t.append("✅");
    } else {
        t.append("❌");
    }
    t.append("\n");
    t.append(&issues);
    t.append(&security);
    t.append(&performance);
    t
}

/// The plain-text report of `s`.
pub fn generate_text_output(s: &Vec<CodeReview>) -> (r: String)
    ensures
        r@ == reviews_text(s@),
{
    let mut r = String::new();
    let mut i: usize = 0;
    while i < s.len()
        invariant
            i <= s@.len(),
            r@ == reviews_text(s@.subrange(0, i as int)),
        decreases s.len() - i,
    {
        proof {
            assert(s@.subrange(0, i + 1).drop_last() =~= s@.subrange(0, i as int));
        }
        r.append(&review_section(&s[i]));
        i = i + 1;
    }
    proof {
        assert(s@.subrange(0, s@.len() as int) =~= s@);
    }
    r
}

fn review_markdown_section(r: &CodeReview, n: usize) -> (t: String)
    ensures
        t@ == review_markdown(*r, n as nat),
{
    let mut issues = String::new();
    if r.issues.len() > 0 {
        issues = String::from_str(
            "### Issues\n\n| Severity | Category | Description | Line |\n|----------|----------|-------------|------|\n",
        );
        issues.append(&table_lines(&r.issues));
        issues.append("\n");
    }
    let mut t = String::from_str("## File ");
    t.append(&decimal_text(n as u64));
    t.append("\n\n- **Quality**: ");
    t.append(r.summary.overall_quality.name());
    t.append("\n- **Risk**: ");
    t.append(r.summary.risk_level.name());
    t.append("\n- **Issues**: ");
    t.append(&decimal_text(r.summary.total_issues as u64));
    t.append("\n- **Blocking**: ");
    t.append(&decimal_text(r.summary.blocking_issues as u64));
    t.append("\n\n");
    t.append(&issues);
    t
}

/// The Markdown report of `s`.
pub fn generate_markdown_output(s: &Vec<CodeReview>) -> (r: String)
    ensures
        r@ == markdown_report(s@),
{
    let mut body = String::new();
    let mut i: usize = 0;
    while i < s.len()
        invariant
            i <= s@.len(),
            body@ == reviews_markdown(s@.subrange(0, i as int)),
        decreases s.len() - i,
    {
        proof {
            assert(s@.subrange(0, i + 1).drop_last() =~= s@.subrange(0, i as int));
        }
        body.append(&review_markdown_section(&s[i], i + 1));
        i = i + 1;
    }
    proof {
        assert(s@.subrange(0, s@.len() as int) =~= s@);
    }
    let mut r = String::from_str("# Code Review Report\n\n");
    r.append(&body);
    r
}

fn review_html_section(r: &CodeReview) -> (t: String)
    ensures
        t@ == review_html(*r),
{
    let mut issues = String::new();
    if r.issues.len() > 0 {
        issues = String::from_str(
            "<h3>Issues</h3><table><tr><th>Severity</th><th>Category</th><th>Description</th><th>Line</th></tr>",
        );
        issues.append(&html_lines(&r.issues));
        issues.append("</table>");
    }
    let mut t = String::from_str("\n    <div class=\"review\">\n        <h2>File Review</h2>\n        <p><strong>Quality:</strong> ");
    t.append(r.summary.overall_quality.name());
    t.append("</p>\n        <p><strong>Risk Level:</strong> ");
    t.append(r.summary.risk_level.name());
    t.append("</p>\n        <p class=\"");
    if r.summary.ready_to_merge {
        t.append("ready");
    } else {
        t.append("not-ready");
    }
    t.append("\"><strong>Ready to Merge:</strong> ");
    if r.summary.ready_to_merge {
        t.append("✅ Yes");
    } else {
        t.append("❌ No");
    }
    t.append("</p>\n        ");
    t.append(&issues);
    t.append("</div>");
    t
}

/// The HTML report of `s`.
pub fn generate_html_output(s: &Vec<CodeReview>) -> (r: String)
    ensures
        r@ == html_report(s@),
{
    let mut body = String::new();
    let mut i: usize = 0;
    while i < s.len()
        invariant
            i <= s@.len(),
            body@ == reviews_html(s@.subrange(0, i as int)),
        decreases s.len() - i,
    {
        proof {
            assert(s@.subrange(0, i + 1).drop_last() =~= s@.subrange(0, i as int));
        }
        body.append(&review_html_section(&s[i]));
        i = i + 1;
    }
    proof {
        assert(s@.subrange(0, s@.len() as int) =~= s@);
    }
    let mut r = String::from_str("\n<!DOCTYPE html>\n<html>\n<head>\n    <title>Code Review Report</title>\n    <style>\n        body { font-family: -apple-system, BlinkMacSystemFont, \"Segoe UI\", Roboto, sans-serif; margin: 40px; }\n        .review { margin-bottom: 40px; padding: 20px; border: 1px solid #ddd; border-radius: 8px; }\n        .critical { color: #d32f2f; }\n        .high { color: #f57c00; }\n        .medium { color: #fbc02d; }\n        .low { color: #388e3c; }\n        .info { color: #1976d2; }\n        table { width: 100%; border-collapse: collapse; }\n        th, td { padding: 8px; text-align: left; border-bottom: 1px solid #ddd; }\n        .ready { color: #4caf50; }\n        .not-ready { color: #f44336; }\n    </style>\n</head>\n<body>\n    <h1>🔍 OpenRye AI Code Review Report</h1>\n");
    r.append(&body);
    r.append("</body></html>");
    r
}

} // verus!
