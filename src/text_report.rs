//! The plain-text report of an audit.
use vstd::prelude::*;
use crate::audit::{
    level_name, ComplianceReport, ComplianceStandard, DependencyAudit, ExposedSecret,
    SecretsScan, SecurityAudit, SecurityRecommendation, SeverityScore, SupplyChainAnalysis,
    TyposquattingRisk, Vulnerability, ZeroDayRisk,
};
use crate::num::{decimal, decimal_text, tenths_debug, tenths_debug_text, tenths_display, tenths_text};

verus! {

pub open spec fn severity_debug(s: SeverityScore) -> Seq<char> {
    "SeverityScore { base: "@ + tenths_debug(s.base as nat) + ", temporal: "@ + tenths_debug(
        s.temporal as nat,
    ) + ", environmental: "@ + tenths_debug(s.environmental as nat) + ", overall: "@
        + tenths_debug(s.overall as nat) + " }"@
}

pub open spec fn cvss_line(c: Option<u32>) -> Seq<char> {
    match c {
        Some(c) => "  CVSS Score: "@ + tenths_display(c as nat) + "\n"@,
        None => Seq::empty(),
    }
}

pub open spec fn exploit_line(available: bool) -> Seq<char> {
    if available {
        "  ⚠️  EXPLOIT AVAILABLE!\n"@
    } else {
        Seq::empty()
    }
}

pub open spec fn vuln_entry(v: Vulnerability) -> Seq<char> {
    "• "@ + v.id@ + " - "@ + v.description@ + "\n  Severity: "@ + severity_debug(v.severity)
        + "\n"@ + cvss_line(v.cvss_score) + "  Component: "@ + v.affected_component@
        + "\n  Fix: "@ + v.remediation@ + "\n"@ + exploit_line(v.exploit_available) + "\n"@
}

pub open spec fn vuln_entries(s: Seq<Vulnerability>) -> Seq<char>
    decreases s.len(),
{
    if s.len() == 0 {
        Seq::empty()
    } else {
        vuln_entries(s.drop_last()) + vuln_entry(s.last())
    }
}

pub open spec fn zero_day_entry(z: ZeroDayRisk) -> Seq<char> {
    "• Pattern: "@ + z.pattern@ + "\n  Similarity to known: "@ + tenths_display(
        z.similarity_to_known as nat,
    ) + "%\n  Likelihood: "@ + tenths_display(z.likelihood as nat) + "%\n  Mitigation: "@
        + z.mitigation@ + "\n\n"@
}

pub open spec fn zero_day_entries(s: Seq<ZeroDayRisk>) -> Seq<char>
    decreases s.len(),
{
    if s.len() == 0 {
        Seq::empty()
    } else {
        zero_day_entries(s.drop_last()) + zero_day_entry(s.last())
    }
}

pub open spec fn typo_entry(t: TyposquattingRisk) -> Seq<char> {
    "  "@ + t.package@ + " (similar to: "@ + t.similar_to@ + ")\n"@
}

pub open spec fn typo_entries(s: Seq<TyposquattingRisk>) -> Seq<char>
    decreases s.len(),
{
    if s.len() == 0 {
        Seq::empty()
    } else {
        typo_entries(s.drop_last()) + typo_entry(s.last())
    }
}

pub open spec fn secret_entry(e: ExposedSecret) -> Seq<char> {
    "  "@ + e.secret_type@ + " in "@ + e.file@ + " (line "@ + decimal(e.line as nat) + ")\n"@
}

pub open spec fn secret_entries(s: Seq<ExposedSecret>) -> Seq<char>
    decreases s.len(),
{
    if s.len() == 0 {
        Seq::empty()
    } else {
        secret_entries(s.drop_last()) + secret_entry(s.last())
    }
}

pub open spec fn standard_entry(c: ComplianceStandard) -> Seq<char> {
    "  "@ + c.name@ + ": "@ + tenths_display(c.compliance_level as nat) + "%\n"@
}

pub open spec fn standard_entries(s: Seq<ComplianceStandard>) -> Seq<char>
    decreases s.len(),
{
    if s.len() == 0 {
        Seq::empty()
    } else {
        standard_entries(s.drop_last()) + standard_entry(s.last())
    }
}

/// The recommendation numbered `n` (counting from 1).
pub open spec fn recommendation_entry(r: SecurityRecommendation, n: nat) -> Seq<char> {
    decimal(n) + ". "@ + r.title@ + " - "@ + r.description@ + "\n   Effort: "@ + r.effort@
        + " | Impact: "@ + r.impact@ + "\n"@
}

pub open spec fn recommendation_entries(s: Seq<SecurityRecommendation>) -> Seq<char>
    decreases s.len(),
{
    if s.len() == 0 {
        Seq::empty()
    } else {
        recommendation_entries(s.drop_last()) + recommendation_entry(s.last(), s.len())
    }
}

/// The first five recommendations, or all of them where there are fewer.
pub open spec fn top_recommendations(s: Seq<SecurityRecommendation>) -> Seq<SecurityRecommendation> {
    if s.len() <= 5 { s } else { s.subrange(0, 5) }
}

pub open spec fn summary_header(a: SecurityAudit) -> Seq<char> {
    "📊 Security Audit Summary\n========================\nRisk Score: "@ + tenths_display(
        a.risk_score as nat,
    ) + "/100\nRisk Level: "@ + level_name(a.risk_level) + "\nScan Time: "@
        + a.scan_timestamp.display() + "\n\n"@
}

pub open spec fn vulnerabilities_section(a: SecurityAudit) -> Seq<char> {
    if a.vulnerabilities@.len() == 0 {
        Seq::empty()
    } else {
        "🚨 Vulnerabilities Found:\n------------------------\n"@ + vuln_entries(a.vulnerabilities@)
    }
}

pub open spec fn zero_day_section(a: SecurityAudit) -> Seq<char> {
    if a.zero_day_risks@.len() == 0 {
        Seq::empty()
    } else {
        "🔮 Potential Zero-Day Risks:\n---------------------------\n"@ + zero_day_entries(
            a.zero_day_risks@,
        )
    }
}

pub open spec fn typosquatting_part(d: DependencyAudit) -> Seq<char> {
    if d.typosquatting_risks@.len() == 0 {
        Seq::empty()
    } else {
        "\n⚠️  Typosquatting Risks Detected:\n"@ + typo_entries(d.typosquatting_risks@)
    }
}

pub open spec fn dependency_section(d: DependencyAudit) -> Seq<char> {
    "📦 Dependency Analysis:\n----------------------\nTotal Dependencies: "@ + decimal(
        d.total_dependencies as nat,
    ) + "\nVulnerable: "@ + decimal(d.vulnerable_dependencies@.len()) + "\nOutdated: "@
        + decimal(d.outdated_dependencies@.len()) + "\nUnmaintained: "@ + decimal(
        d.unmaintained_packages@.len(),
    ) + "\n"@ + typosquatting_part(d)
}

pub open spec fn secrets_section(s: SecretsScan) -> Seq<char> {
    if s.secrets@.len() == 0 {
        Seq::empty()
    } else {
        "\n🔑 Exposed Secrets: "@ + decimal(s.secrets_found as nat) + "\n"@ + secret_entries(
            s.secrets@,
        )
    }
}

pub open spec fn compliance_section(c: ComplianceReport) -> Seq<char> {
    "\n📋 Compliance Score: "@ + tenths_display(c.compliance_score as nat) + "%\n"@
        + standard_entries(c.standards@)
}

pub open spec fn supply_chain_section(s: SupplyChainAnalysis) -> Seq<char> {
    "\n🔗 Supply Chain Risk: "@ + tenths_display(s.risk_score as nat) + "/100\n  Direct deps: "@
        + decimal(s.direct_dependencies as nat) + "\n  Transitive deps: "@ + decimal(
        s.transitive_dependencies as nat,
    ) + "\n  Max depth: "@ + decimal(s.dependency_depth as nat) + "\n"@
}

pub open spec fn recommendations_section(a: SecurityAudit) -> Seq<char> {
    if a.recommendations@.len() == 0 {
        Seq::empty()
    } else {
        "\n💡 Top Recommendations:\n-----------------------\n"@ + recommendation_entries(
            top_recommendations(a.recommendations@),
        )
    }
}

/// The text report: summary header, findings, zero-day risks, dependencies,
/// secrets, compliance, supply chain, the top five recommendations and the
/// executive summary, in that order; a section over an empty list is left out.
pub open spec fn text_report(a: SecurityAudit) -> Seq<char> {
    summary_header(a) + vulnerabilities_section(a) + zero_day_section(a) + dependency_section(
        a.dependency_audit,
    ) + secrets_section(a.secrets_scan) + compliance_section(a.compliance)
        + supply_chain_section(a.supply_chain) + recommendations_section(a)
        + "\n📄 Executive Summary:\n--------------------\n"@ + a.executive_summary@
}

fn severity_text(s: &SeverityScore) -> (r: String)
    ensures
        r@ == severity_debug(*s),
{
    let mut r = String::from_str("SeverityScore { base: ");
    r.append(&tenths_debug_text(s.base as u64));
    r.append(", temporal: ");
    r.append(&tenths_debug_text(s.temporal as u64));
    r.append(", environmental: ");
    r.append(&tenths_debug_text(s.environmental as u64));
    r.append(", overall: ");
    r.append(&tenths_debug_text(s.overall as u64));
    r.append(" }");
    r
}

fn vuln_text(v: &Vulnerability) -> (r: String)
    ensures
        r@ == vuln_entry(*v),
{
    let mut cvss = String::new();
    if let Some(c) = v.cvss_score {
        cvss = String::from_str("  CVSS Score: ");
        cvss.append(&tenths_text(c as u64));
        cvss.append("\n");
    }
    let mut exploit = String::new();
    if v.exploit_available {
        exploit = String::from_str("  ⚠️  EXPLOIT AVAILABLE!\n");
    }
    let mut r = String::from_str("• ");
    r.append(&v.id);
    r.append(" - ");
    r.append(&v.description);
    r.append("\n  Severity: ");
    r.append(&severity_text(&v.severity));
    r.append("\n");
    r.append(&cvss);
    r.append("  Component: ");
    r.append(&v.affected_component);
    r.append("\n  Fix: ");
    r.append(&v.remediation);
    r.append("\n");
    r.append(&exploit);
    r.append("\n");
    r
}

fn vulns_text(s: &Vec<Vulnerability>) -> (r: String)
    ensures
        r@ == vuln_entries(s@),
{
    let mut r = String::new();
    let mut i: usize = 0;
    while i < s.len()
        invariant
            i <= s@.len(),
            r@ == vuln_entries(s@.subrange(0, i as int)),
        decreases s.len() - i,
    {
        proof {
            assert(s@.subrange(0, i + 1).drop_last() =~= s@.subrange(0, i as int));
        }
        r.append(&vuln_text(&s[i]));
        i = i + 1;
    }
    proof {
        assert(s@.subrange(0, s@.len() as int) =~= s@);
    }
    r
}

fn zero_day_text(s: &Vec<ZeroDayRisk>) -> (r: String)
    ensures
        r@ == zero_day_entries(s@),
{
    let mut r = String::new();
    let mut i: usize = 0;
    while i < s.len()
        invariant
            i <= s@.len(),
            r@ == zero_day_entries(s@.subrange(0, i as int)),
        decreases s.len() - i,
    {
        proof {
            assert(s@.subrange(0, i + 1).drop_last() =~= s@.subrange(0, i as int));
        }
        let z = &s[i];
        let mut e = String::from_str("• Pattern: ");
        e.append(&z.pattern);
        e.append("\n  Similarity to known: ");
        e.append(&tenths_text(z.similarity_to_known as u64));
        e.append("%\n  Likelihood: ");
        e.append(&tenths_text(z.likelihood as u64));
        e.append("%\n  Mitigation: ");
        e.append(&z.mitigation);
        e.append("\n\n");
        r.append(&e);
        i = i + 1;
    }
    proof {
        assert(s@.subrange(0, s@.len() as int) =~= s@);
    }
    r
}

fn typo_text(s: &Vec<TyposquattingRisk>) -> (r: String)
    ensures
        r@ == typo_entries(s@),
{
    let mut r = String::new();
    let mut i: usize = 0;
    while i < s.len()
        invariant
            i <= s@.len(),
            r@ == typo_entries(s@.subrange(0, i as int)),
        decreases s.len() - i,
    {
        proof {
            assert(s@.subrange(0, i + 1).drop_last() =~= s@.subrange(0, i as int));
        }
        let t = &s[i];
        let mut e = String::from_str("  ");
        e.append(&t.package);
        e.append(" (similar to: ");
        e.append(&t.similar_to);
        e.append(")\n");
        r.append(&e);
        i = i + 1;
    }
    proof {
        assert(s@.subrange(0, s@.len() as int) =~= s@);
    }
    r
}

fn secrets_text(s: &Vec<ExposedSecret>) -> (r: String)
    ensures
        r@ == secret_entries(s@),
{
    let mut r = String::new();
    let mut i: usize = 0;
    while i < s.len()
        invariant
            i <= s@.len(),
            r@ == secret_entries(s@.subrange(0, i as int)),
        decreases s.len() - i,
    {
        proof {
            assert(s@.subrange(0, i + 1).drop_last() =~= s@.subrange(0, i as int));
        }
        let x = &s[i];
        let mut e = String::from_str("  ");
        e.append(&x.secret_type);
        e.append(" in ");
        e.append(&x.file);
        e.append(" (line ");
        e.append(&decimal_text(x.line as u64));
        e.append(")\n");
        r.append(&e);
        i = i + 1;
    }
    proof {
        assert(s@.subrange(0, s@.len() as int) =~= s@);
    }
    r
}

fn standards_text(s: &Vec<ComplianceStandard>) -> (r: String)
    ensures
        r@ == standard_entries(s@),
{
    let mut r = String::new();
    let mut i: usize = 0;
    while i < s.len()
        invariant
            i <= s@.len(),
            r@ == standard_entries(s@.subrange(0, i as int)),
        decreases s.len() - i,
    {
        proof {
            assert(s@.subrange(0, i + 1).drop_last() =~= s@.subrange(0, i as int));
        }
        let c = &s[i];
        let mut e = String::from_str("  ");
        e.append(&c.name);
        e.append(": ");
        e.append(&tenths_text(c.compliance_level as u64));
        e.append("%\n");
        r.append(&e);
        i = i + 1;
    }
    proof {
        assert(s@.subrange(0, s@.len() as int) =~= s@);
    }
    r
}

fn recommendations_text(s: &Vec<SecurityRecommendation>) -> (r: String)
    ensures
        r@ == recommendation_entries(top_recommendations(s@)),
{
    let n: usize = if s.len() < 5 { s.len() } else { 5 };
    let ghost top = top_recommendations(s@);
    proof {
        assert(top =~= s@.subrange(0, n as int));
    }
    let mut r = String::new();
    let mut i: usize = 0;
    while i < n
        invariant
            n <= s@.len(),
            n <= 5,
            top == s@.subrange(0, n as int),
            i <= n,
            r@ == recommendation_entries(s@.subrange(0, i as int)),
        decreases n - i,
    {
        proof {
            assert(s@.subrange(0, i + 1).drop_last() =~= s@.subrange(0, i as int));
        }
        let c = &s[i];
        let mut e = decimal_text((i + 1) as u64);
        e.append(". ");
        e.append(&c.title);
        e.append(" - ");
        e.append(&c.description);
        e.append("\n   Effort: ");
        e.append(&c.effort);
        e.append(" | Impact: ");
        e.append(&c.impact);
        e.append("\n");
        r.append(&e);
        i = i + 1;
    }
    r
}

/// The plain-text report of `audit`.
pub fn generate_text_output(audit: &SecurityAudit) -> (r: String)
    ensures
        r@ == text_report(*audit),
{
    let mut out = String::from_str("📊 Security Audit Summary\n========================\nRisk Score: ");
    out.append(&tenths_text(audit.risk_score as u64));
    out.append("/100\nRisk Level: ");
    out.append(audit.risk_level.name());
    out.append("\nScan Time: ");
    out.append(&audit.scan_timestamp.text());
    out.append("\n\n");

    let mut vulns = String::new();
    if audit.vulnerabilities.len() > 0 {
        vulns = String::from_str("🚨 Vulnerabilities Found:\n------------------------\n");
        vulns.append(&vulns_text(&audit.vulnerabilities));
    }
    out.append(&vulns);

    let mut zero = String::new();
    if audit.zero_day_risks.len() > 0 {
        zero = String::from_str("🔮 Potential Zero-Day Risks:\n---------------------------\n");
        zero.append(&zero_day_text(&audit.zero_day_risks));
    }
    out.append(&zero);

    let d = &audit.dependency_audit;
    let mut deps = String::from_str("📦 Dependency Analysis:\n----------------------\nTotal Dependencies: ");
    deps.append(&decimal_text(d.total_dependencies as u64));
    deps.append("\nVulnerable: ");
    deps.append(&decimal_text(d.vulnerable_dependencies.len() as u64));
    deps.append("\nOutdated: ");
    deps.append(&decimal_text(d.outdated_dependencies.len() as u64));
    deps.append("\nUnmaintained: ");
    deps.append(&decimal_text(d.unmaintained_packages.len() as u64));
    deps.append("\n");
    let mut typo = String::new();
    if d.typosquatting_risks.len() > 0 {
        typo = String::from_str("\n⚠️  Typosquatting Risks Detected:\n");
        typo.append(&typo_text(&d.typosquatting_risks));
    }
    deps.append(&typo);
    out.append(&deps);

    let mut secrets = String::new();
    if audit.secrets_scan.secrets.len() > 0 {
        secrets = String::from_str("\n🔑 Exposed Secrets: ");
        secrets.append(&decimal_text(audit.secrets_scan.secrets_found as u64));
        secrets.append("\n");
        secrets.append(&secrets_text(&audit.secrets_scan.secrets));
    }
    out.append(&secrets);

    let mut compliance = String::from_str("\n📋 Compliance Score: ");
    compliance.append(&tenths_text(audit.compliance.compliance_score as u64));
    compliance.append("%\n");
    compliance.append(&standards_text(&audit.compliance.standards));
    out.append(&compliance);

    let sc = &audit.supply_chain;
    let mut supply = String::from_str("\n🔗 Supply Chain Risk: ");
    supply.append(&tenths_text(sc.risk_score as u64));
    supply.append("/100\n  Direct deps: ");
    supply.append(&decimal_text(sc.direct_dependencies as u64));
    supply.append("\n  Transitive deps: ");
    supply.append(&decimal_text(sc.transitive_dependencies as u64));
    supply.append("\n  Max depth: ");
    supply.append(&decimal_text(sc.dependency_depth as u64));
    supply.append("\n");
    out.append(&supply);

    let mut recs = String::new();
    if audit.recommendations.len() > 0 {
        recs = String::from_str("\n💡 Top Recommendations:\n-----------------------\n");
        recs.append(&recommendations_text(&audit.recommendations));
    }
    out.append(&recs);

    out.append("\n📄 Executive Summary:\n--------------------\n");
    out.append(&audit.executive_summary);
    out
}

} // verus!
