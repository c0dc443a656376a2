//! The structured results of an AI code review.
use vstd::prelude::*;
use crate::command::same_text;
use crate::num::{decimal, decimal_text};

verus! {

#[derive(Debug)]
pub struct ReviewSummary {
    pub overall_quality: QualityRating,
    pub risk_level: RiskLevel,
    pub ready_to_merge: bool,
    pub blocking_issues: usize,
    pub total_issues: usize,
    pub estimated_fix_time: String,
    pub highlights: Vec<String>,
    pub concerns: Vec<String>,
}

#[derive(Clone, Copy, Debug, PartialEq, Eq, Structural)]
pub enum QualityRating {
    Excellent,
    Good,
    Acceptable,
    NeedsImprovement,
    Poor,
}

#[derive(Clone, Copy, Debug, PartialEq, Eq, Structural)]
pub enum RiskLevel {
    Low,
    Medium,
    High,
    Critical,
}

#[derive(Debug)]
pub struct ReviewIssue {
    pub severity: IssueSeverity,
    pub category: IssueCategory,
    pub file: String,
    pub line_start: usize,
    pub line_end: usize,
    pub message: String,
    pub suggestion: String,
    pub code_snippet: String,
    pub fixed_code: Option<String>,
    pub references: Vec<String>,
    pub auto_fixable: bool,
}

#[derive(Clone, Copy, Debug, PartialEq, Eq, Structural)]
pub enum IssueSeverity {
    Critical,
    High,
    Medium,
    Low,
    Info,
}

#[derive(Clone, Copy, Debug, PartialEq, Eq, Structural)]
pub enum IssueCategory {
    Security,
    Performance,
    Bug,
    CodeSmell,
    Style,
    Complexity,
    Duplication,
    Documentation,
    Testing,
    Accessibility,
    TypeSafety,
    MemorySafety,
    Concurrency,
    Lifetime,
}

#[derive(Debug)]
pub struct CVEMatch {
    pub cve_id: String,
    pub package: String,
    pub current_version: String,
    pub fixed_version: String,
    pub severity: String,
    pub published_date: String,
    pub description: String,
}

#[derive(Debug)]
pub struct SupplyChainRisk {
    pub package: String,
    pub risk_type: String,
    pub description: String,
    pub alternatives: Vec<String>,
}

#[derive(Debug)]
pub struct PerformanceAnalysis {
    pub bottlenecks: Vec<Bottleneck>,
    pub optimization_opportunities: Vec<Optimization>,
    pub algorithm_complexity: Vec<ComplexityAnalysis>,
    pub memory_issues: Vec<MemoryIssue>,
    pub async_antipatterns: Vec<AsyncAntipattern>,
}

#[derive(Debug)]
pub struct Bottleneck {
    pub location: String,
    pub impact: String,
    pub suggestion: String,
    pub estimated_improvement: String,
}

#[derive(Debug)]
pub struct Optimization {
    pub optimization_type: String,
    pub location: String,
    pub current_approach: String,
    pub optimized_approach: String,
    pub performance_gain: String,
}

#[derive(Debug)]
pub struct ComplexityAnalysis {
    pub function: String,
    pub time_complexity: String,
    pub space_complexity: String,
    pub suggestion: Option<String>,
}

#[derive(Debug)]
pub struct MemoryIssue {
    pub issue_type: String,
    pub location: String,
    pub description: String,
    pub fix: String,
}

#[derive(Debug)]
pub struct AsyncAntipattern {
    pub pattern: String,
    pub location: String,
    pub issue: String,
    pub correct_pattern: String,
}

#[derive(Debug)]
pub struct BestPractice {
    pub category: String,
    pub current_practice: String,
    pub recommended_practice: String,
    pub benefits: Vec<String>,
    pub example: String,
}

#[derive(Debug)]
pub struct RefactoringSuggestion {
    pub pattern: String,
    pub description: String,
    pub before: String,
    pub after: String,
    pub benefits: Vec<String>,
    pub effort: String,
}

#[derive(Debug)]
pub struct TestQualityIssue {
    pub test_name: String,
    pub issue: String,
    pub suggestion: String,
}

#[derive(Debug)]
pub struct SuggestedTest {
    pub test_type: String,
    pub target_function: String,
    pub test_code: String,
    pub rationale: String,
}

#[derive(Debug)]
pub struct MissingDoc {
    pub item_type: String,
    pub name: String,
    pub location: String,
    pub suggested_doc: String,
}

#[derive(Debug)]
pub struct DocQualityIssue {
    pub location: String,
    pub issue: String,
    pub suggestion: String,
}

#[derive(Debug)]
pub struct DocImprovement {
    pub current: String,
    pub improved: String,
    pub reason: String,
}

/// The label of a category, as review descriptions print it.
pub open spec fn category_label(c: IssueCategory) -> Seq<char> {
    match c {
        IssueCategory::Security => "Security"@,
        IssueCategory::Performance => "Performance"@,
        IssueCategory::Bug => "Bug"@,
        IssueCategory::CodeSmell => "Code Smell"@,
        IssueCategory::Style => "Style"@,
        IssueCategory::Complexity => "Complexity"@,
        IssueCategory::Duplication => "Duplication"@,
        IssueCategory::Documentation => "Documentation"@,
        IssueCategory::Testing => "Testing"@,
        IssueCategory::Accessibility => "Accessibility"@,
        IssueCategory::TypeSafety => "Type Safety"@,
        IssueCategory::MemorySafety => "Memory Safety"@,
        IssueCategory::Concurrency => "Concurrency"@,
        IssueCategory::Lifetime => "Lifetime"@,
    }
}

impl IssueCategory {
    /// The category's label: `Code Smell`, `Type Safety`, `Memory Safety`, or
    /// the variant's name for the others.
    pub fn to_string(&self) -> (r: &'static str)
        ensures
            r@ == category_label(*self),
    {
        match self {
            IssueCategory::Security => "Security",
            IssueCategory::Performance => "Performance",
            IssueCategory::Bug => "Bug",
            IssueCategory::CodeSmell => "Code Smell",
            IssueCategory::Style => "Style",
            IssueCategory::Complexity => "Complexity",
            IssueCategory::Duplication => "Duplication",
            IssueCategory::Documentation => "Documentation",
            IssueCategory::Testing => "Testing",
            IssueCategory::Accessibility => "Accessibility",
            IssueCategory::TypeSafety => "Type Safety",
            IssueCategory::MemorySafety => "Memory Safety",
            IssueCategory::Concurrency => "Concurrency",
            IssueCategory::Lifetime => "Lifetime",
        }
    }
}

/// The issues that block a merge: those of critical severity, in order.
pub open spec fn is_blocking(i: ReviewIssue) -> bool {
    i.severity == IssueSeverity::Critical
}


/// What `std::path::Path::extension` gives for a path: the text after the
/// last dot of its file name, where it has one and it is valid UTF-8.
pub uninterp spec fn extension_of(path: Seq<char>) -> Option<Seq<char>>;

/// What `str::to_lowercase` gives for a string.
pub uninterp spec fn lower_of(s: Seq<char>) -> Seq<char>;

/// Relies on `std::path::Path::extension`, with `OsStr::to_str` on its result.
#[verifier::external_body]
fn path_extension(path: &str) -> (r: Option<String>)
    ensures
        match r {
            Some(e) => extension_of(path@) == Some(e@),
            None => extension_of(path@) is None,
        },
{
    match std::path::Path::new(path).extension() {
        Some(e) => match e.to_str() {
            Some(t) => Some(t.to_string()),
            None => None,
        },
        None => None,
    }
}

/// Relies on `str::to_lowercase`: the lowercase mapping of each character.
#[verifier::external_body]
fn lowercase(s: &str) -> (r: String)
    ensures
        r@ == lower_of(s@),
{
    s.to_lowercase()
}

/// The language of source files with extension `ext`.
pub open spec fn language_of(ext: Option<Seq<char>>) -> Seq<char> {
    match ext {
        Some(e) => {
            if e == "py"@ {
                "python"@
            } else if e == "rs"@ {
                "rust"@
            } else if e == "js"@ || e == "jsx"@ {
                "javascript"@
            } else if e == "ts"@ || e == "tsx"@ {
                "typescript"@
            } else if e == "go"@ {
                "go"@
            } else if e == "java"@ {
                "java"@
            } else if e == "cpp"@ || e == "cc"@ || e == "cxx"@ {
                "cpp"@
            } else if e == "c"@ {
                "c"@
            } else if e == "rb"@ {
                "ruby"@
            } else if e == "php"@ {
                "php"@
            } else {
                "unknown"@
            }
        },
        None => "unknown"@,
    }
}

/// The language of source files with extension `ext`, `unknown` for others.
pub fn language_for_extension(ext: Option<&str>) -> (r: &'static str)
    ensures
        r@ == language_of(match ext { Some(e) => Some(e@), None => None }),
{
    match ext {
        Some(e) => {
            if same_text(e, "py") {
                "python"
            } else if same_text(e, "rs") {
                "rust"
            } else if same_text(e, "js") || same_text(e, "jsx") {
                "javascript"
            } else if same_text(e, "ts") || same_text(e, "tsx") {
                "typescript"
            } else if same_text(e, "go") {
                "go"
            } else if same_text(e, "java") {
                "java"
            } else if same_text(e, "cpp") || same_text(e, "cc") || same_text(e, "cxx") {
                "cpp"
            } else if same_text(e, "c") {
                "c"
            } else if same_text(e, "rb") {
                "ruby"
            } else if same_text(e, "php") {
                "php"
            } else {
                "unknown"
            }
        },
        None => "unknown",
    }
}

/// The language of the source file at `path`, from its extension.
pub fn detect_language(path: &str) -> (r: String)
    ensures
        r@ == language_of(extension_of(path@)),
{
    let ext = path_extension(path);
    match &ext {
        Some(e) => String::from_str(language_for_extension(Some(e.as_str()))),
        None => String::from_str(language_for_extension(None)),
    }
}

/// The extensions of the source files a review reads.
pub open spec fn is_code_extension(ext: Option<Seq<char>>) -> bool {
    match ext {
        Some(e) => e == "py"@ || e == "rs"@ || e == "js"@ || e == "ts"@ || e == "go"@ || e == "java"@ || e == "cpp"@ || e == "c"@ || e == "rb"@ || e == "php"@ || e == "jsx"@ || e == "tsx"@,
        None => false,
    }
}

/// Whether `ext` is the extension of a source file a review reads.
pub fn has_code_extension(ext: Option<&str>) -> (r: bool)
    ensures
        r == is_code_extension(match ext { Some(e) => Some(e@), None => None }),
{
    match ext {
        Some(e) => same_text(e, "py") || same_text(e, "rs") || same_text(e, "js") || same_text(e, "ts") || same_text(e, "go") || same_text(e, "java") || same_text(e, "cpp") || same_text(e, "c") || same_text(e, "rb") || same_text(e, "php") || same_text(e, "jsx") || same_text(e, "tsx"),
        None => false,
    }
}

/// Whether the file at `path` is a source file a review reads.
pub fn is_code_file(path: &str) -> (r: bool)
    ensures
        r == is_code_extension(extension_of(path@)),
{
    let ext = path_extension(path);
    match &ext {
        Some(e) => has_code_extension(Some(e.as_str())),
        None => has_code_extension(None),
    }
}

/// The severity a lowercase name stands for; `info` for unknown names.
pub open spec fn severity_named(name: Seq<char>) -> IssueSeverity {
    if name == "critical"@ {
        IssueSeverity::Critical
    } else if name == "high"@ {
        IssueSeverity::High
    } else if name == "medium"@ {
        IssueSeverity::Medium
    } else if name == "low"@ {
        IssueSeverity::Low
    } else {
        IssueSeverity::Info
    }
}

/// The severity a lowercase name stands for.
pub fn severity_from_lowercase(name: &str) -> (r: IssueSeverity)
    ensures
        r == severity_named(name@),
{
    if same_text(name, "critical") {
        IssueSeverity::Critical
    } else if same_text(name, "high") {
        IssueSeverity::High
    } else if same_text(name, "medium") {
        IssueSeverity::Medium
    } else if same_text(name, "low") {
        IssueSeverity::Low
    } else {
        IssueSeverity::Info
    }
}

/// The severity a name stands for, in any case.
pub fn parse_severity(s: &str) -> (r: IssueSeverity)
    ensures
        r == severity_named(lower_of(s@)),
{
    let lower = lowercase(s);
    severity_from_lowercase(lower.as_str())
}

/// The rank of a severity, from 5 for critical down to 1 for info.
pub open spec fn severity_rank(sev: IssueSeverity) -> u8 {
    match sev {
        IssueSeverity::Critical => 5,
        IssueSeverity::High => 4,
        IssueSeverity::Medium => 3,
        IssueSeverity::Low => 2,
        IssueSeverity::Info => 1,
    }
}

pub fn severity_to_number(sev: &IssueSeverity) -> (r: u8)
    ensures
        r == severity_rank(*sev),
{
    match sev {
        IssueSeverity::Critical => 5,
        IssueSeverity::High => 4,
        IssueSeverity::Medium => 3,
        IssueSeverity::Low => 2,
        IssueSeverity::Info => 1,
    }
}

/// A security finding of a review.
#[derive(Debug)]
pub struct Vulnerability {
    pub severity: String,
    pub cwe_id: String,
    pub description: String,
    pub location: String,
    pub remediation: String,
    pub exploit_scenario: String,
}

/// A secret found by a review; the confidence is in tenths of a percent.
#[derive(Debug)]
pub struct SecretDetection {
    pub secret_type: String,
    pub file: String,
    pub line: usize,
    pub confidence: u32,
    pub recommendation: String,
}

/// The security part of a review; the score is in tenths.
#[derive(Debug)]
pub struct SecurityAnalysis {
    pub vulnerabilities: Vec<Vulnerability>,
    pub owasp_compliance: std::collections::HashMap<String, bool>,
    pub cve_matches: Vec<CVEMatch>,
    pub supply_chain_risks: Vec<SupplyChainRisk>,
    pub secrets_detected: Vec<SecretDetection>,
    pub security_score: u32,
}

/// Test coverage; the two coverages are in tenths of a percent.
#[derive(Debug)]
pub struct TestCoverageAnalysis {
    pub current_coverage: u32,
    pub recommended_coverage: u32,
    pub uncovered_critical_paths: Vec<String>,
    pub missing_test_types: Vec<String>,
    pub test_quality_issues: Vec<TestQualityIssue>,
    pub suggested_tests: Vec<SuggestedTest>,
}

/// Documentation; the coverage is in tenths of a percent.
#[derive(Debug)]
pub struct DocumentationAnalysis {
    pub coverage: u32,
    pub missing_docs: Vec<MissingDoc>,
    pub quality_issues: Vec<DocQualityIssue>,
    pub suggested_improvements: Vec<DocImprovement>,
}

/// Size and complexity; the index and the duplication are in tenths.
#[derive(Debug)]
pub struct ComplexityMetrics {
    pub cyclomatic_complexity: std::collections::HashMap<String, usize>,
    pub cognitive_complexity: std::collections::HashMap<String, usize>,
    pub lines_of_code: usize,
    pub technical_debt: String,
    pub maintainability_index: u32,
    pub code_duplication: u32,
}

/// The review of one file; the confidence is in tenths of a percent.
#[derive(Debug)]
pub struct CodeReview {
    pub summary: ReviewSummary,
    pub issues: Vec<ReviewIssue>,
    pub security: SecurityAnalysis,
    pub performance: PerformanceAnalysis,
    pub best_practices: Vec<BestPractice>,
    pub refactoring_suggestions: Vec<RefactoringSuggestion>,
    pub test_coverage: TestCoverageAnalysis,
    pub documentation: DocumentationAnalysis,
    pub complexity_metrics: ComplexityMetrics,
    pub ai_confidence: u32,
}

/// The variant's name, as `{:?}` prints it.
pub open spec fn quality_name(q: QualityRating) -> Seq<char> {
    match q {
        QualityRating::Excellent => "Excellent"@,
        QualityRating::Good => "Good"@,
        QualityRating::Acceptable => "Acceptable"@,
        QualityRating::NeedsImprovement => "NeedsImprovement"@,
        QualityRating::Poor => "Poor"@,
    }
}

/// The variant's name, as `{:?}` prints it.
pub open spec fn risk_name(r: RiskLevel) -> Seq<char> {
    match r {
        RiskLevel::Low => "Low"@,
        RiskLevel::Medium => "Medium"@,
        RiskLevel::High => "High"@,
        RiskLevel::Critical => "Critical"@,
    }
}

impl QualityRating {
    pub fn name(&self) -> (r: &'static str)
        ensures
            r@ == quality_name(*self),
    {
        match self {
            QualityRating::Excellent => "Excellent",
            QualityRating::Good => "Good",
            QualityRating::Acceptable => "Acceptable",
            QualityRating::NeedsImprovement => "NeedsImprovement",
            QualityRating::Poor => "Poor",
        }
    }
}

impl RiskLevel {
    pub fn name(&self) -> (r: &'static str)
        ensures
            r@ == risk_name(*self),
    {
        match self {
            RiskLevel::Low => "Low",
            RiskLevel::Medium => "Medium",
            RiskLevel::High => "High",
            RiskLevel::Critical => "Critical",
        }
    }
}

/// The checklist line of a blocking issue.
pub open spec fn blocking_line(i: ReviewIssue) -> Seq<char> {
    "- [ ] **"@ + category_label(i.category) + "**: "@ + i.message@ + " (Line "@ + decimal(i.line_start as nat) + ")\n"@
}

/// The checklist lines of the blocking issues among `s`, in order.
pub open spec fn blocking_lines(s: Seq<ReviewIssue>) -> Seq<char>
    decreases s.len(),
{
    if s.len() == 0 {
        Seq::empty()
    } else {
        blocking_lines(s.drop_last()) + if is_blocking(s.last()) { blocking_line(s.last()) } else { Seq::empty() }
    }
}

pub open spec fn finding_line(v: Vulnerability) -> Seq<char> {
    "- **"@ + v.severity@ + "**: "@ + v.description@ + " ("@ + v.cwe_id@ + ")\n"@
}

pub open spec fn finding_lines(s: Seq<Vulnerability>) -> Seq<char>
    decreases s.len(),
{
    if s.len() == 0 {
        Seq::empty()
    } else {
        finding_lines(s.drop_last()) + finding_line(s.last())
    }
}

pub open spec fn optimization_line(o: Optimization) -> Seq<char> {
    "- "@ + o.optimization_type@ + " (Estimated gain: "@ + o.performance_gain@ + ")\n"@
}

pub open spec fn optimization_lines(s: Seq<Optimization>) -> Seq<char>
    decreases s.len(),
{
    if s.len() == 0 {
        Seq::empty()
    } else {
        optimization_lines(s.drop_last()) + optimization_line(s.last())
    }
}

/// The description of a pull request that fixes what a review found: the
/// summary line, then the blocking issues, the security findings and the
/// performance improvements, each section only where it has entries.
pub open spec fn fix_pr_description(c: CodeReview) -> Seq<char> {
    "## ðŸ” Code Review Results\n\n"@ + "**Quality**: "@ + quality_name(c.summary.overall_quality) + " | **Risk**: "@
        + risk_name(c.summary.risk_level) + " | **Ready to Merge**: "@ + (if c.summary.ready_to_merge {
        "âœ…"@
    } else {
        "âŒ"@
    }) + "\n\n"@ + (if c.summary.blocking_issues > 0 {
        "### ðŸš¨ Blocking Issues\n"@ + blocking_lines(c.issues@) + "\n"@
    } else {
        Seq::empty()
    }) + (if c.security.vulnerabilities@.len() > 0 {
        "### ðŸ”’ Security Findings\n"@ + finding_lines(c.security.vulnerabilities@) + "\n"@
    } else {
        Seq::empty()
    }) + (if c.performance.optimization_opportunities@.len() > 0 {
        "### âš¡ Performance Improvements\n"@ + optimization_lines(c.performance.optimization_opportunities@) + "\n"@
    } else {
        Seq::empty()
    })
}

impl CodeReview {
    /// The positions of the blocking issues among the review's issues, in order.
    pub fn get_blocking_issues(&self) -> (r: Vec<usize>)
        ensures
            forall|k: int| 0 <= k < r@.len() ==> #[trigger] r@[k] < self.issues@.len() && is_blocking(self.issues@[r@[k] as int]),
            forall|k: int, l: int| 0 <= k < l < r@.len() ==> r@[k] < r@[l],
            forall|j: int| 0 <= j < self.issues@.len() && is_blocking(#[trigger] self.issues@[j]) ==> r@.contains(j as usize),
    {
        let mut r: Vec<usize> = Vec::new();
        let mut i: usize = 0;
        while i < self.issues.len()
            invariant
                i <= self.issues@.len(),
                forall|k: int| 0 <= k < r@.len() ==> #[trigger] r@[k] < i && is_blocking(self.issues@[r@[k] as int]),
                forall|k: int, l: int| 0 <= k < l < r@.len() ==> r@[k] < r@[l],
                forall|j: int| 0 <= j < i && is_blocking(#[trigger] self.issues@[j]) ==> r@.contains(j as usize),
            decreases self.issues.len() - i,
        {
            if self.issues[i].severity == IssueSeverity::Critical {
                let ghost before = r@;
                r.push(i);
                proof {
                    assert forall|k: int| 0 <= k < r@.len() implies #[trigger] r@[k] < i + 1 && is_blocking(self.issues@[r@[k] as int]) by {
                        if k < before.len() {
                            assert(r@[k] == before[k]);
                        }
                    }
                    assert forall|j: int| 0 <= j < i && is_blocking(#[trigger] self.issues@[j]) implies r@.contains(j as usize) by {
                        let w = choose|w: int| 0 <= w < before.len() && before[w] == j as usize;
                        assert(r@[w] == j as usize);
                    }
                    assert(r@[r@.len() - 1] == i);
                }
            }
            i = i + 1;
        }
        r
    }

    pub fn generate_fix_pr_description(&self) -> (r: String)
        ensures
            r@ == fix_pr_description(*self),
    {
        let mut blocking = String::new();
        if self.summary.blocking_issues > 0 {
            let s = &self.issues;
            let mut lines = String::new();
            let mut i: usize = 0;
            while i < s.len()
                invariant
                    i <= s@.len(),
                    lines@ == blocking_lines(s@.subrange(0, i as int)),
                decreases s.len() - i,
            {
                proof {
                    assert(s@.subrange(0, i + 1).drop_last() =~= s@.subrange(0, i as int));
                }
                let issue = &s[i];
                let mut line = String::new();
                if issue.severity == IssueSeverity::Critical {
                    line = String::from_str("- [ ] **");
                    line.append(issue.category.to_string());
                    line.append("**: ");
                    line.append(&issue.message);
                    line.append(" (Line ");
                    line.append(&decimal_text(issue.line_start as u64));
                    line.append(")\n");
                }
                lines.append(&line);
                i = i + 1;
            }
            proof {
                assert(s@.subrange(0, s@.len() as int) =~= s@);
            }
            blocking = String::from_str("### ðŸš¨ Blocking Issues\n");
            blocking.append(&lines);
            blocking.append("\n");
        }
        let mut security = String::new();
        if self.security.vulnerabilities.len() > 0 {
            let s = &self.security.vulnerabilities;
            let mut lines = String::new();
            let mut i: usize = 0;
            while i < s.len()
                invariant
                    i <= s@.len(),
                    lines@ == finding_lines(s@.subrange(0, i as int)),
                decreases s.len() - i,
            {
                proof {
                    assert(s@.subrange(0, i + 1).drop_last() =~= s@.subrange(0, i as int));
                }
                let v = &s[i];
                let mut line = String::from_str("- **");
                line.append(&v.severity);
                line.append("**: ");
                line.append(&v.description);
                line.append(" (");
                line.append(&v.cwe_id);
                line.append(")\n");
                lines.append(&line);
                i = i + 1;
            }
            proof {
                assert(s@.subrange(0, s@.len() as int) =~= s@);
            }
            security = String::from_str("### ðŸ”’ Security Findings\n");
            security.append(&lines);
            security.append("\n");
        }
        let mut performance = String::new();
        if self.performance.optimization_opportunities.len() > 0 {
            let s = &self.performance.optimization_opportunities;
            let mut lines = String::new();
            let mut i: usize = 0;
            while i < s.len()
                invariant
                    i <= s@.len(),
                    lines@ == optimization_lines(s@.subrange(0, i as int)),
                decreases s.len() - i,
            {
                proof {
                    assert(s@.subrange(0, i + 1).drop_last() =~= s@.subrange(0, i as int));
                }
                let o = &s[i];
                let mut line = String::from_str("- ");
                line.append(&o.optimization_type);
                line.append(" (Estimated gain: ");
                line.append(&o.performance_gain);
                line.append(")\n");
                lines.append(&line);
                i = i + 1;
            }
            proof {
                assert(s@.subrange(0, s@.len() as int) =~= s@);
            }
            performance = String::from_str("### âš¡ Performance Improvements\n");
            performance.append(&lines);
            performance.append("\n");
        }
        let mut r = String::from_str("## ðŸ” Code Review Results\n\n");
        r.append("**Quality**: ");
        r.append(self.summary.overall_quality.name());
        r.append(" | **Risk**: ");
        r.append(self.summary.risk_level.name());
        r.append(" | **Ready to Merge**: ");
        if self.summary.ready_to_merge {
            r.append("âœ…");
        } else {
            r.append("âŒ");
        }
        r.append("\n\n");
        r.append(&blocking);
        r.append(&security);
        r.append(&performance);
        r
    }
}

/// Whether an issue is at least as severe as `min`.
pub open spec fn at_least(i: ReviewIssue, min: IssueSeverity) -> bool {
    severity_rank(i.severity) >= severity_rank(min)
}

/// The issues of `s` at least as severe as `min`, in order.
pub open spec fn issues_at_least(s: Seq<ReviewIssue>, min: IssueSeverity) -> Seq<ReviewIssue>
    decreases s.len(),
{
    if s.len() == 0 {
        Seq::empty()
    } else {
        (if at_least(s[0], min) { seq![s[0]] } else { Seq::empty() }) + issues_at_least(s.drop_first(), min)
    }
}

/// Keeps the issues at least as severe as `min`, in their order.
pub fn retain_at_least(issues: Vec<ReviewIssue>, min: IssueSeverity) -> (r: Vec<ReviewIssue>)
    ensures
        r@ == issues_at_least(issues@, min),
{
    let ghost all = issues@;
    let mut rest = issues;
    let mut kept: Vec<ReviewIssue> = Vec::new();
    let floor = severity_to_number(&min);
    while rest.len() > 0
        invariant
            floor == severity_rank(min),
            kept@ + issues_at_least(rest@, min) == issues_at_least(all, min),
        decreases rest@.len(),
    {
        let ghost before = rest@;
        let issue = rest.remove(0);
        proof {
            assert(before.drop_first() =~= rest@);
        }
        let ghost kept_before = kept@;
        if severity_to_number(&issue.severity) >= floor {
            kept.push(issue);
            proof {
                assert(kept@ + issues_at_least(rest@, min) =~= kept_before + issues_at_least(before, min));
            }
        } else {
            proof {
                assert(kept@ + issues_at_least(rest@, min) =~= kept_before + issues_at_least(before, min));
            }
        }
    }
    proof {
        assert(kept@ + issues_at_least(rest@, min) =~= kept@);
    }
    kept
}

} // verus!
