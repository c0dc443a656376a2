//! The unified risk data model of one audit cycle.
//!
//! Every score that a report prints with a fractional part is held as an
//! integer number of tenths: a risk score of `42.5` is `425`, a severity of
//! `9.2` is `92`, a likelihood of `35%` is `350`.
use vstd::prelude::*;

verus! {

/// What `chrono` prints for a UTC instant given as seconds and nanoseconds
/// since the Unix epoch, or `None` where it has no such instant.
pub uninterp spec fn utc_display(secs: i64, nanos: u32) -> Option<Seq<char>>;

/// Relies on `chrono::DateTime::<Utc>::from_timestamp`, which gives `None` for an
/// instant out of its range, and on the `Display` impl of `DateTime<Utc>`.
#[verifier::external_body]
fn utc_text(secs: i64, nanos: u32) -> (r: Option<String>)
    ensures
        match r {
            Some(s) => utc_display(secs, nanos) == Some(s@),
            None => utc_display(secs, nanos) is None,
        },
{
    match chrono::DateTime::<chrono::Utc>::from_timestamp(secs, nanos) {
        Some(d) => Some(d.to_string()),
        None => None,
    }
}

/// An instant in UTC, as seconds and nanoseconds since the Unix epoch, that
/// has a calendar date.
#[derive(Clone, Copy, Debug)]
pub struct Timestamp {
    secs: i64,
    nanos: u32,
}

impl Timestamp {
    #[verifier::type_invariant]
    closed spec fn has_date(self) -> bool {
        utc_display(self.secs, self.nanos) is Some
    }

    /// Seconds since the Unix epoch.
    pub closed spec fn spec_secs(self) -> i64 {
        self.secs
    }

    /// Nanoseconds past the second.
    pub closed spec fn spec_nanos(self) -> u32 {
        self.nanos
    }

    /// The printed form of the instant.
    pub closed spec fn display(self) -> Seq<char> {
        utc_display(self.secs, self.nanos)->Some_0
    }

    /// The instant `secs` seconds and `nanos` nanoseconds after the Unix epoch,
    /// or `None` where it has no calendar date.
    pub fn from_unix(secs: i64, nanos: u32) -> (r: Option<Timestamp>)
        ensures
            r is Some <==> utc_display(secs, nanos) is Some,
            r matches Some(t) ==> t.spec_secs() == secs && t.spec_nanos() == nanos,
    {
        match utc_text(secs, nanos) {
            Some(_) => Some(Timestamp { secs, nanos }),
            None => None,
        }
    }

    pub fn secs(&self) -> (r: i64)
        ensures
            r == self.spec_secs(),
    {
        self.secs
    }

    pub fn nanos(&self) -> (r: u32)
        ensures
            r == self.spec_nanos(),
    {
        self.nanos
    }

    /// The instant as it is printed: `2024-01-15 10:30:00 UTC`.
    pub fn text(&self) -> (r: String)
        ensures
            r@ == self.display(),
    {
        proof {
            use_type_invariant(self);
        }
        match utc_text(self.secs, self.nanos) {
            Some(s) => s,
            None => String::new(),
        }
    }
}

/// The banded overall risk of an audit.
#[derive(Clone, Copy, Debug, PartialEq, Eq, Structural)]
pub enum RiskLevel {
    Critical,
    High,
    Medium,
    Low,
    /// Below 5 points; printed as `None`.
    Negligible,
}

/// The band of a risk score given in tenths: above 75 critical, from 50
/// high, from 25 medium, from 5 low, below 5 none.
pub open spec fn band(score: nat) -> RiskLevel {
    if score > 750 {
        RiskLevel::Critical
    } else if score >= 500 {
        RiskLevel::High
    } else if score >= 250 {
        RiskLevel::Medium
    } else if score >= 50 {
        RiskLevel::Low
    } else {
        RiskLevel::Negligible
    }
}

/// High and critical risk fail a CI run and raise an alert.
pub open spec fn is_severe(level: RiskLevel) -> bool {
    level == RiskLevel::High || level == RiskLevel::Critical
}

impl RiskLevel {
    /// The band of a risk score given in tenths.
    pub fn from_score(score: u32) -> (r: RiskLevel)
        ensures
            r == band(score as nat),
    {
        if score > 750 {
            RiskLevel::Critical
        } else if score >= 500 {
            RiskLevel::High
        } else if score >= 250 {
            RiskLevel::Medium
        } else if score >= 50 {
            RiskLevel::Low
        } else {
            RiskLevel::Negligible
        }
    }

    /// Whether this level fails a CI run.
    pub fn is_severe(&self) -> (r: bool)
        ensures
            r == is_severe(*self),
    {
        match self {
            RiskLevel::Critical | RiskLevel::High => true,
            _ => false,
        }
    }

    /// The variant's name, as `{:?}` prints it.
    pub fn name(&self) -> (r: &'static str)
        ensures
            r@ == level_name(*self),
    {
        match self {
            RiskLevel::Critical => "Critical",
            RiskLevel::High => "High",
            RiskLevel::Medium => "Medium",
            RiskLevel::Low => "Low",
            RiskLevel::Negligible => "None",
        }
    }
}

pub open spec fn level_name(l: RiskLevel) -> Seq<char> {
    match l {
        RiskLevel::Critical => "Critical"@,
        RiskLevel::High => "High"@,
        RiskLevel::Medium => "Medium"@,
        RiskLevel::Low => "Low"@,
        RiskLevel::Negligible => "None"@,
    }
}

/// The kind of a finding.
#[derive(Debug, PartialEq, Eq)]
pub enum VulnerabilityType {
    /// A known vulnerability, with its CVE identifier.
    CVE(String),
    /// A weakness class, with its CWE identifier.
    CWE(String),
    ZeroDay,
    SupplyChain,
    Dependency,
    Configuration,
    CodePattern,
    Secret,
    Compliance,
}

/// The severity composite of a finding, each part in tenths of a point (0 to 100).
#[derive(Clone, Copy, Debug, PartialEq, Eq, Structural)]
pub struct SeverityScore {
    pub base: u32,
    pub temporal: u32,
    pub environmental: u32,
    pub overall: u32,
}

/// One structured security observation.
#[derive(Debug)]
pub struct Vulnerability {
    pub id: String,
    pub vulnerability_type: VulnerabilityType,
    pub severity: SeverityScore,
    /// In tenths of a point.
    pub cvss_score: Option<u32>,
    pub description: String,
    pub affected_component: String,
    pub affected_versions: Vec<String>,
    pub fixed_versions: Vec<String>,
    pub exploit_available: bool,
    pub exploit_complexity: String,
    pub remediation: String,
    pub references: Vec<String>,
    pub discovered_date: Option<Timestamp>,
    pub public_date: Option<Timestamp>,
}

/// A pattern that may be an undisclosed vulnerability. The three ratios are
/// in tenths of a percent (0 to 1000).
#[derive(Debug)]
pub struct ZeroDayRisk {
    pub pattern: String,
    pub similarity_to_known: u32,
    pub potential_impact: String,
    pub likelihood: u32,
    pub description: String,
    pub mitigation: String,
    pub detection_confidence: u32,
}

#[derive(Debug)]
pub struct VulnerableDependency {
    pub package: String,
    pub current_version: String,
    /// CVE identifiers.
    pub vulnerabilities: Vec<String>,
    /// Versions without the vulnerabilities; the first is the remediation target.
    pub safe_versions: Vec<String>,
    pub severity: String,
    pub update_urgency: String,
}

#[derive(Debug)]
pub struct OutdatedDependency {
    pub package: String,
    pub current_version: String,
    pub latest_version: String,
    pub versions_behind: usize,
    pub security_updates: usize,
    pub breaking_changes: bool,
}

#[derive(Debug)]
pub struct LicenseIssue {
    pub package: String,
    pub license: String,
    pub issue: String,
    pub compatibility: Vec<String>,
}

#[derive(Debug)]
pub struct UnmaintainedPackage {
    pub package: String,
    pub last_update: Timestamp,
    pub days_since_update: i64,
    pub open_issues: usize,
    pub alternatives: Vec<String>,
}

/// A package whose name imitates another's; the score is in tenths of a point.
#[derive(Debug)]
pub struct TyposquattingRisk {
    pub package: String,
    pub similar_to: String,
    pub risk_score: u32,
    pub indicators: Vec<String>,
}

#[derive(Debug)]
pub struct DependencyAudit {
    pub total_dependencies: usize,
    pub vulnerable_dependencies: Vec<VulnerableDependency>,
    pub outdated_dependencies: Vec<OutdatedDependency>,
    pub license_issues: Vec<LicenseIssue>,
    pub unmaintained_packages: Vec<UnmaintainedPackage>,
    pub typosquatting_risks: Vec<TyposquattingRisk>,
}

#[derive(Debug)]
pub struct CodeVulnerability {
    pub vulnerability_class: String,
    pub file: String,
    pub line_range: (usize, usize),
    pub severity: String,
    pub description: String,
    pub code_snippet: String,
    pub fix: String,
    pub cwe_id: Option<String>,
    pub owasp_category: Option<String>,
}

/// A secret found in the sources; entropy and confidence in tenths.
#[derive(Debug)]
pub struct ExposedSecret {
    pub secret_type: String,
    pub file: String,
    pub line: usize,
    pub entropy: u32,
    pub confidence: u32,
    pub masked_value: String,
    pub remediation: String,
}

#[derive(Debug)]
pub struct SecretsScan {
    pub secrets_found: usize,
    pub secrets: Vec<ExposedSecret>,
    pub false_positives: usize,
}

/// One standard's coverage; the level is in tenths of a percent.
#[derive(Debug)]
pub struct ComplianceStandard {
    pub name: String,
    pub version: String,
    pub compliance_level: u32,
    pub missing_controls: Vec<String>,
}

#[derive(Debug)]
pub struct ComplianceViolation {
    pub standard: String,
    pub requirement: String,
    pub description: String,
    pub severity: String,
    pub remediation: String,
}

/// The score is in tenths of a percent.
#[derive(Debug)]
pub struct ComplianceReport {
    pub standards: Vec<ComplianceStandard>,
    pub violations: Vec<ComplianceViolation>,
    pub compliance_score: u32,
}

#[derive(Debug)]
pub struct HighRiskPackage {
    pub package: String,
    pub risk_factors: Vec<String>,
    pub alternatives: Vec<String>,
}

/// Likelihood and impact are in tenths.
#[derive(Debug)]
pub struct AttackVector {
    pub vector_type: String,
    pub description: String,
    pub likelihood: u32,
    pub impact: u32,
    pub mitigation: String,
}

/// The score is in tenths of a point (0 to 1000).
#[derive(Debug)]
pub struct SupplyChainAnalysis {
    pub risk_score: u32,
    pub direct_dependencies: usize,
    pub transitive_dependencies: usize,
    pub dependency_depth: usize,
    pub high_risk_packages: Vec<HighRiskPackage>,
    pub attack_vectors: Vec<AttackVector>,
}

#[derive(Debug)]
pub struct SecurityRecommendation {
    pub priority: String,
    pub category: String,
    pub title: String,
    pub description: String,
    pub implementation: String,
    pub effort: String,
    pub impact: String,
}

/// The risk assessment of one audit cycle.
#[derive(Debug)]
pub struct SecurityAudit {
    pub scan_timestamp: Timestamp,
    /// In tenths of a point, 0 to 1000.
    pub risk_score: u32,
    pub risk_level: RiskLevel,
    /// In the order the backend gave them.
    pub vulnerabilities: Vec<Vulnerability>,
    pub zero_day_risks: Vec<ZeroDayRisk>,
    pub dependency_audit: DependencyAudit,
    pub code_vulnerabilities: Vec<CodeVulnerability>,
    pub secrets_scan: SecretsScan,
    pub compliance: ComplianceReport,
    pub supply_chain: SupplyChainAnalysis,
    pub recommendations: Vec<SecurityRecommendation>,
    pub executive_summary: String,
}

impl SecurityAudit {
    /// The score lies in 0..=100 points and the level is its band.
    pub open spec fn wf(&self) -> bool {
        &&& self.risk_score <= 1000
        &&& self.risk_level == band(self.risk_score as nat)
    }

    /// Whether the score and the level agree with the schema.
    pub fn is_consistent(&self) -> (r: bool)
        ensures
            r == self.wf(),
    {
        self.risk_score <= 1000 && RiskLevel::from_score(self.risk_score) == self.risk_level
    }
}

} // verus!
