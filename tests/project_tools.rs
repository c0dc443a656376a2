use std::collections::HashMap;

use openrye::code_review::{
    detect_language, has_code_extension, is_code_file, language_for_extension, parse_severity,
    retain_at_least, severity_from_lowercase, severity_to_number, CodeReview, ComplexityMetrics,
    DocumentationAnalysis, IssueCategory, IssueSeverity, PerformanceAnalysis, QualityRating,
    ReviewIssue, ReviewSummary, RiskLevel as ReviewRisk, SecurityAnalysis, TestCoverageAnalysis,
    Vulnerability as ReviewFinding,
};
use openrye::interop::RustOptimizer;
use openrye::num::{decimal_text, tenths_debug_text, tenths_text};
use openrye::project_init::{is_existing_project, ProjectBuilder, Template};
use openrye::pull_request::{
    detect_primary_language, detect_project_type, format_commit_message, generate_pr_template,
    output_gitlab_pr, output_text_pr, Changelog, ChangelogSections, CommitMessage, PRGenerator,
    ProjectFiles, PullRequest,
};
use openrye::review_report::{generate_html_output, generate_markdown_output, generate_text_output};
use openrye::session::{is_bad_pipe, ShutdownPolicy};
use openrye::template_catalog::{list_templates, show_template_details};
use openrye::templates::{cargo_toml_template, pyproject_rust_section, python_to_rust_template};
use openrye::text::{contains_text, pinned_requirements};

#[test]
fn test_project_detection() {
    let empty_dir: Vec<String> = Vec::new();
    assert!(!is_existing_project(&empty_dir));
}

#[test]
fn project_detection_finds_markers() {
    let dir = vec!["README.md".to_string(), "setup.py".to_string()];
    assert!(is_existing_project(&dir));
    let dir = vec!["pyproject.toml.bak".to_string()];
    assert!(!is_existing_project(&dir));
}

#[test]
fn test_list_command() {
    let listing = list_templates();
    assert!(listing.starts_with("📋 Available Project Templates\n\nWeb API:\n"));
    assert!(listing.contains("  ml-pipeline - Machine learning pipeline with MLflow\n"));
}

#[test]
fn test_show_command() {
    let details = show_template_details("fastapi");
    assert!(details.starts_with("FastAPI Template\n================\n"));
    assert_eq!(
        show_template_details("rails"),
        "Template 'rails' not found\nUse 'openrye template list' to see available templates\n"
    );
}

#[test]
fn decimal_and_tenths_text() {
    assert_eq!(decimal_text(0), "0");
    assert_eq!(decimal_text(1234567), "1234567");
    assert_eq!(tenths_text(425), "42.5");
    assert_eq!(tenths_text(420), "42");
    assert_eq!(tenths_text(5), "0.5");
    assert_eq!(tenths_debug_text(70), "7.0");
    assert_eq!(tenths_debug_text(1000), "100.0");
}

#[test]
fn issue_category_labels() {
    assert_eq!(IssueCategory::CodeSmell.to_string(), "Code Smell");
    assert_eq!(IssueCategory::TypeSafety.to_string(), "Type Safety");
    assert_eq!(IssueCategory::MemorySafety.to_string(), "Memory Safety");
    assert_eq!(IssueCategory::Bug.to_string(), "Bug");
}

fn issue(severity: IssueSeverity, message: &str, line: usize) -> ReviewIssue {
    ReviewIssue {
        severity,
        category: IssueCategory::CodeSmell,
        file: "a.py".to_string(),
        line_start: line,
        line_end: line + 1,
        message: message.to_string(),
        suggestion: "s".to_string(),
        code_snippet: "c".to_string(),
        fixed_code: None,
        references: vec![],
        auto_fixable: false,
    }
}

fn review(issues: Vec<ReviewIssue>, blocking: usize) -> CodeReview {
    CodeReview {
        summary: ReviewSummary {
            overall_quality: QualityRating::NeedsImprovement,
            risk_level: ReviewRisk::High,
            ready_to_merge: false,
            blocking_issues: blocking,
            total_issues: issues.len(),
            estimated_fix_time: "1h".to_string(),
            highlights: vec![],
            concerns: vec![],
        },
        issues,
        security: SecurityAnalysis {
            vulnerabilities: vec![ReviewFinding {
                severity: "High".to_string(),
                cwe_id: "CWE-89".to_string(),
                description: "SQL injection".to_string(),
                location: "db.py:3".to_string(),
                remediation: "Use parameters".to_string(),
                exploit_scenario: "x".to_string(),
            }],
            owasp_compliance: HashMap::new(),
            cve_matches: vec![],
            supply_chain_risks: vec![],
            secrets_detected: vec![],
            security_score: 500,
        },
        performance: PerformanceAnalysis {
            bottlenecks: vec![],
            optimization_opportunities: vec![],
            algorithm_complexity: vec![],
            memory_issues: vec![],
            async_antipatterns: vec![],
        },
        best_practices: vec![],
        refactoring_suggestions: vec![],
        test_coverage: TestCoverageAnalysis {
            current_coverage: 500,
            recommended_coverage: 800,
            uncovered_critical_paths: vec![],
            missing_test_types: vec![],
            test_quality_issues: vec![],
            suggested_tests: vec![],
        },
        documentation: DocumentationAnalysis {
            coverage: 300,
            missing_docs: vec![],
            quality_issues: vec![],
            suggested_improvements: vec![],
        },
        complexity_metrics: ComplexityMetrics {
            cyclomatic_complexity: HashMap::new(),
            cognitive_complexity: HashMap::new(),
            lines_of_code: 120,
            technical_debt: "low".to_string(),
            maintainability_index: 700,
            code_duplication: 20,
        },
        ai_confidence: 900,
    }
}

#[test]
fn blocking_issues_are_the_critical_ones() {
    let issues = vec![
        issue(IssueSeverity::Low, "a", 1),
        issue(IssueSeverity::Critical, "b", 2),
        issue(IssueSeverity::High, "c", 3),
        issue(IssueSeverity::Critical, "d", 4),
    ];
    assert_eq!(review(issues, 2).get_blocking_issues(), vec![1, 3]);
}

#[test]
fn fix_description_lists_blocking_issues_and_findings() {
    let issues = vec![issue(IssueSeverity::Critical, "Mutable default", 7), issue(IssueSeverity::Low, "Naming", 9)];
    let text = review(issues, 1).generate_fix_pr_description();
    assert!(text.contains("**Quality**: NeedsImprovement | **Risk**: High | **Ready to Merge**: "));
    assert!(text.contains("- [ ] **Code Smell**: Mutable default (Line 7)\n\n"));
    assert!(!text.contains("Naming"));
    assert!(text.contains("- **High**: SQL injection (CWE-89)\n\n"));
    assert!(!text.contains("Estimated gain"));
    let none = review(vec![issue(IssueSeverity::Critical, "Hidden", 1)], 0).generate_fix_pr_description();
    assert!(!none.contains("Hidden"));
}

#[test]
fn severity_filter_keeps_order() {
    let issues = vec![
        issue(IssueSeverity::Low, "a", 1),
        issue(IssueSeverity::Critical, "b", 2),
        issue(IssueSeverity::Medium, "c", 3),
        issue(IssueSeverity::Info, "d", 4),
    ];
    let kept = retain_at_least(issues, IssueSeverity::Medium);
    let messages: Vec<&str> = kept.iter().map(|i| i.message.as_str()).collect();
    assert_eq!(messages, vec!["b", "c"]);
}

#[test]
fn project_builder_defaults_and_steps() {
    let p = ProjectBuilder::new("demo".to_string())
        .add_dependency("requests".to_string())
        .add_dependency("flask".to_string())
        .build("3.12".to_string())
        .unwrap();
    assert_eq!(p.path, ".");
    assert_eq!(p.python_version, "3.12");
    assert_eq!(p.dependencies, vec!["requests".to_string(), "flask".to_string()]);
    let p = ProjectBuilder::new("demo".to_string())
        .path("/tmp/demo".to_string())
        .python_version("3.11".to_string())
        .build("3.12".to_string())
        .unwrap();
    assert_eq!(p.path, "/tmp/demo");
    assert_eq!(p.python_version, "3.11");
    assert_eq!(Template::empty().name, "default");
}

#[test]
fn pr_templates_by_project_type() {
    assert!(generate_pr_template("web").contains("## Browser Testing"));
    assert!(generate_pr_template("api").contains("## API Changes\n- [ ] New endpoints added"));
    assert!(generate_pr_template("library").contains("- [ ] CHANGELOG updated"));
    assert!(generate_pr_template("cli").contains("## Checklist"));
}

#[test]
fn pr_generator_needs_a_credential() {
    assert!(PRGenerator::new(Some("k".to_string()), None).is_ok());
    assert!(PRGenerator::new(None, None).is_err());
}

#[test]
fn shutdown_policy_flags() {
    let mut p = ShutdownPolicy::new();
    assert_eq!(p.interrupt_exit_code(), Some(130));
    p.request_continue_prompt();
    assert!(p.show_continue_prompt);
    p.disable_ctrlc_handler();
    assert_eq!(p.interrupt_exit_code(), None);
}

#[test]
fn bad_pipe_messages() {
    assert!(is_bad_pipe("failed printing to stdout: Broken pipe (os error 32)"));
    assert!(!is_bad_pipe("index out of bounds"));
    assert!(contains_text("abc", ""));
    assert!(!contains_text("", "a"));
}

#[test]
fn rust_templates_embed_names() {
    let t = cargo_toml_template("fastmath");
    assert!(t.starts_with("[package]\nname = \"fastmath\"\n"));
    assert!(t.contains("[lib]\nname = \"fastmath\"\n"));
    assert!(t.contains("pyo3 = { version = \"0.20\", features = [\"extension-module\"] }"));
    assert!(pyproject_rust_section("ext").contains("module-name = \"ext\"\n"));
    assert!(python_to_rust_template("mean", "def mean(): pass").contains("fn mean(/* parameters */)"));
}

#[test]
fn optimizer_suggestions() {
    let opt = RustOptimizer::new(".".to_string());
    let s = opt.suggest_optimizations("import numpy\nfor i in range(10): pass");
    assert_eq!(s.len(), 2);
    assert_eq!(s[0].estimated_speedup, "10-100x");
    assert_eq!(s[1].estimated_speedup, "5-50x");
    assert!(opt.suggest_optimizations("print('hi')").is_empty());
    assert_eq!(opt.convert_to_rust("x", "f"), python_to_rust_template("f", "x"));
}

#[test]
fn commit_messages_follow_conventional_form() {
    let c = CommitMessage {
        hash: None,
        conventional_type: "feat".to_string(),
        scope: Some("auth".to_string()),
        description: "add OAuth2 integration".to_string(),
        body: Some("Adds a provider.".to_string()),
        breaking: true,
        closes: vec!["#12".to_string(), "#15".to_string()],
    };
    assert_eq!(
        format_commit_message(&c),
        "feat(auth)!: add OAuth2 integration\n\nAdds a provider.\n\nBREAKING CHANGE: This commit contains breaking changes\n\nCloses: #12, #15"
    );
    let plain = CommitMessage {
        hash: None,
        conventional_type: "fix".to_string(),
        scope: None,
        description: "resolve race".to_string(),
        body: None,
        breaking: false,
        closes: vec![],
    };
    assert_eq!(format_commit_message(&plain), "fix: resolve race");
}

#[test]
fn project_kind_and_language_from_manifests() {
    let none = ProjectFiles { package_json: false, cargo_toml: false, pyproject_toml: false, setup_py: false };
    assert_eq!(detect_project_type(&none), "general");
    assert_eq!(detect_primary_language(&none), "unknown");
    let both = ProjectFiles { package_json: true, cargo_toml: true, pyproject_toml: false, setup_py: false };
    assert_eq!(detect_project_type(&both), "web");
    assert_eq!(detect_primary_language(&both), "rust");
    let py = ProjectFiles { package_json: false, cargo_toml: false, pyproject_toml: false, setup_py: true };
    assert_eq!(detect_project_type(&py), "python");
    assert_eq!(detect_primary_language(&py), "unknown");
}

#[test]
fn languages_and_code_files_by_extension() {
    assert_eq!(language_for_extension(Some("tsx")), "typescript");
    assert_eq!(language_for_extension(Some("cxx")), "cpp");
    assert_eq!(language_for_extension(Some("md")), "unknown");
    assert_eq!(language_for_extension(None), "unknown");
    assert!(has_code_extension(Some("rb")));
    assert!(!has_code_extension(Some("cc")));
    assert_eq!(detect_language("src/main.rs"), "rust");
    assert_eq!(detect_language("pkg/app.py"), "python");
    assert_eq!(detect_language("Makefile"), "unknown");
    assert!(is_code_file("web/index.jsx"));
    assert!(!is_code_file("README.md"));
}

#[test]
fn severities_parse_in_any_case() {
    assert_eq!(severity_from_lowercase("high"), IssueSeverity::High);
    assert_eq!(severity_from_lowercase("HIGH"), IssueSeverity::Info);
    assert_eq!(parse_severity("CRITICAL"), IssueSeverity::Critical);
    assert_eq!(parse_severity("Medium"), IssueSeverity::Medium);
    assert_eq!(parse_severity("whatever"), IssueSeverity::Info);
    assert_eq!(severity_to_number(&IssueSeverity::Critical), 5);
    assert_eq!(severity_to_number(&IssueSeverity::Info), 1);
}

#[test]
fn review_reports_in_three_formats() {
    let issues = vec![issue(IssueSeverity::High, "Unused import", 3)];
    let reviews = vec![review(issues, 0), review(vec![], 0)];
    let text = generate_text_output(&reviews);
    assert!(text.starts_with("\n📄 File Review\nQuality: NeedsImprovement\nRisk: High\nReady to merge: ❌\n\n🔴 Issues Found:\n  [High] Code Smell - Unused import (Line 3)\n    💡 s\n"));
    assert_eq!(text.matches("📄 File Review").count(), 2);
    assert!(text.contains("\n🔒 Security Issues:\n  High - SQL injection (CWE-89)\n"));
    let md = generate_markdown_output(&reviews);
    assert!(md.starts_with("# Code Review Report\n\n## File 1\n\n- **Quality**: NeedsImprovement\n"));
    assert!(md.contains("| High | Code Smell | Unused import | 3 |\n\n## File 2\n"));
    let html = generate_html_output(&reviews);
    assert!(html.contains("<tr class=\"high\"><td>High</td><td>Code Smell</td><td>Unused import</td><td>3</td></tr></table></div>"));
    assert!(html.contains("<p class=\"not-ready\"><strong>Ready to Merge:</strong> ❌ No</p>"));
    assert!(html.ends_with("</div></body></html>"));
}

#[test]
fn pull_request_text_listings() {
    let pr = PullRequest {
        title: "Add login".to_string(),
        description: "Adds OAuth.".to_string(),
        commit_messages: vec![CommitMessage {
            hash: None,
            conventional_type: "feat".to_string(),
            scope: None,
            description: "add login".to_string(),
            body: None,
            breaking: false,
            closes: vec![],
        }],
        changelog: Changelog {
            version: "1.0".to_string(),
            date: "2024-01-01".to_string(),
            sections: ChangelogSections {
                features: vec![],
                fixes: vec![],
                performance: vec![],
                security: vec![],
                documentation: vec![],
                deprecated: vec![],
                removed: vec![],
            },
        },
        testing_checklist: vec![],
        deployment_notes: None,
        breaking_changes: vec![],
        related_issues: vec![],
        reviewers: vec![],
        labels: vec![],
        estimated_review_time: "5m".to_string(),
    };
    assert_eq!(output_text_pr(&pr), "TITLE: Add login\n\nDESCRIPTION:\nAdds OAuth.\n\nCOMMIT MESSAGES:\n- feat: add login\n");
    assert_eq!(output_gitlab_pr(&pr), "## Add login\n\nAdds OAuth.\n");

    let generator = PRGenerator::new(Some("k".to_string()), None).unwrap();
    let mut pr = pr;
    generator.add_smart_labels(&mut pr, "  bug \n\n   \nsecurity\r\n");
    assert_eq!(pr.labels, vec!["bug".to_string(), "security".to_string()]);
    generator.suggest_reviewers(&mut pr, "alice\n bob ");
    assert_eq!(pr.reviewers, vec!["alice".to_string(), "bob".to_string()]);
    generator.enhance_pr_description(&mut pr, "Check the token refresh.");
    assert_eq!(pr.description, "Adds OAuth.\n\n## 🔍 Review Focus Areas\nCheck the token refresh.");
}

#[test]
fn requirement_lines_are_pinned_ones() {
    let got = pinned_requirements("Here you go:\nrequests==2.31.0\nnumpy>=1.26\n\nflask\n");
    assert_eq!(got, vec!["requests==2.31.0".to_string(), "numpy>=1.26".to_string()]);
}
