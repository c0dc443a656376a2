use openrye::audit::{
    ComplianceReport, ComplianceStandard, DependencyAudit, RiskLevel, SecretsScan, SecurityAudit,
    SecurityRecommendation, SeverityScore, SupplyChainAnalysis, Timestamp, Vulnerability,
    VulnerabilityType, VulnerableDependency,
};
use openrye::command::{execute, parse_format, render_report, Args, OutputFormat};
use openrye::cycle::{AuditCycle, AuditError, BackendError, QueryKind, Stage};
use openrye::gate::{apply_fixes, decide, select_fixes, GateMode};
use openrye::html_report::generate_html_report;
use openrye::monitor::{MonitorLoop, MonitorState, TickReport, DEFAULT_INTERVAL_SECS};
use openrye::provider::{AIConfig, AIProvider, SecurityAuditor};
use openrye::sarif::{generate_sarif_output, severity_level};
use openrye::text_report::generate_text_output;

fn finding(id: &str, description: &str, overall: u32) -> Vulnerability {
    Vulnerability {
        id: id.to_string(),
        vulnerability_type: VulnerabilityType::CVE(id.to_string()),
        severity: SeverityScore { base: overall, temporal: overall, environmental: overall, overall },
        cvss_score: Some(overall),
        description: description.to_string(),
        affected_component: "requests".to_string(),
        affected_versions: vec!["2.0.0".to_string()],
        fixed_versions: vec!["2.31.0".to_string()],
        exploit_available: true,
        exploit_complexity: "low".to_string(),
        remediation: "Upgrade requests".to_string(),
        references: vec![],
        discovered_date: None,
        public_date: None,
    }
}

fn sample_audit(score: u32, level: RiskLevel, vulnerabilities: Vec<Vulnerability>) -> SecurityAudit {
    SecurityAudit {
        scan_timestamp: Timestamp::from_unix(1431648000, 0).unwrap(),
        risk_score: score,
        risk_level: level,
        vulnerabilities,
        zero_day_risks: vec![],
        dependency_audit: DependencyAudit {
            total_dependencies: 3,
            vulnerable_dependencies: vec![],
            outdated_dependencies: vec![],
            license_issues: vec![],
            unmaintained_packages: vec![],
            typosquatting_risks: vec![],
        },
        code_vulnerabilities: vec![],
        secrets_scan: SecretsScan { secrets_found: 0, secrets: vec![], false_positives: 0 },
        compliance: ComplianceReport {
            standards: vec![ComplianceStandard {
                name: "OWASP".to_string(),
                version: "2021".to_string(),
                compliance_level: 805,
                missing_controls: vec![],
            }],
            violations: vec![],
            compliance_score: 800,
        },
        supply_chain: SupplyChainAnalysis {
            risk_score: 125,
            direct_dependencies: 3,
            transitive_dependencies: 12,
            dependency_depth: 4,
            high_risk_packages: vec![],
            attack_vectors: vec![],
        },
        recommendations: vec![],
        executive_summary: "All good.".to_string(),
    }
}

/// Runs one cycle against `backend`, recording the kinds of the queries issued;
/// `parse` stands for parsing the synthesis answer against the audit schema.
fn run_cycle(
    path: &str,
    backend: &mut dyn FnMut(QueryKind, &str) -> Result<String, BackendError>,
    parse: &dyn Fn(&str) -> Option<SecurityAudit>,
    issued: &mut Vec<QueryKind>,
) -> Result<SecurityAudit, AuditError> {
    let mut cycle = AuditCycle::new(path);
    loop {
        let queries = cycle.queries();
        let mut answers: Vec<Result<String, BackendError>> = Vec::new();
        for q in &queries {
            issued.push(q.kind);
            answers.push(backend(q.kind, &q.prompt));
        }
        match cycle.stage {
            Stage::Scan => {
                let mut it = answers.into_iter();
                let d = it.next().unwrap();
                let c = it.next().unwrap();
                let g = it.next().unwrap();
                cycle.on_scan(d, c, g);
            }
            Stage::Enrich => {
                let mut it = answers.into_iter();
                let c = it.next().unwrap();
                let z = it.next().unwrap();
                cycle.on_enrich(c, z);
            }
            Stage::Synthesize => {
                let parsed = match answers.into_iter().next().unwrap() {
                    Ok(text) => parse(&text),
                    Err(_) => None,
                };
                cycle.on_synthesis(parsed);
            }
            Stage::Augment => {
                cycle.on_augment(answers.into_iter().next().unwrap());
            }
            Stage::Done | Stage::Aborted => return cycle.outcome(),
        }
    }
}

fn ok_backend(kind: QueryKind, _prompt: &str) -> Result<String, BackendError> {
    Ok(match kind {
        QueryKind::Synthesis => "AUDIT".to_string(),
        QueryKind::ThreatIntelligence => "Ransomware is up.".to_string(),
        _ => format!("{:?} evidence", kind),
    })
}

fn high_parse(text: &str) -> Option<SecurityAudit> {
    if text == "AUDIT" {
        Some(sample_audit(920, RiskLevel::Critical, vec![finding("CVE-2024-0001", "Remote code execution", 92)]))
    } else {
        None
    }
}

#[test]
fn sarif_levels_follow_overall_severity() {
    assert_eq!(severity_level(95), "error");
    assert_eq!(severity_level(75), "warning");
    assert_eq!(severity_level(30), "note");
    assert_eq!(severity_level(90), "error");
    assert_eq!(severity_level(70), "warning");
    let audit = sample_audit(
        600,
        RiskLevel::High,
        vec![finding("A", "a", 95), finding("B", "b", 75), finding("C", "c", 30)],
    );
    let doc = generate_sarif_output(&audit);
    let levels: Vec<&str> = doc.lines().filter(|l| l.contains("\"level\"")).map(|l| l.trim()).collect();
    assert_eq!(levels, vec!["\"level\": \"error\",", "\"level\": \"warning\",", "\"level\": \"note\","]);
}

#[test]
fn ci_gate_fails_high_and_passes_low() {
    let high = sample_audit(600, RiskLevel::High, vec![]);
    assert_eq!(decide(&high, GateMode::Ci).exit_code, 1);
    let low = sample_audit(100, RiskLevel::Low, vec![]);
    assert_eq!(decide(&low, GateMode::Ci).exit_code, 0);
    let critical = sample_audit(800, RiskLevel::Critical, vec![]);
    assert_eq!(decide(&critical, GateMode::Ci).exit_code, 1);
    let medium = sample_audit(300, RiskLevel::Medium, vec![]);
    assert_eq!(decide(&medium, GateMode::Ci).exit_code, 0);
}

#[test]
fn monitor_alert_lists_first_five_findings() {
    let vulns: Vec<Vulnerability> = (0..7).map(|i| finding(&format!("V{}", i), "d", 80)).collect();
    let audit = sample_audit(800, RiskLevel::Critical, vulns);
    let d = decide(&audit, GateMode::Monitor);
    assert!(d.alert);
    assert_eq!(d.exit_code, 0);
    let ids: Vec<&str> = d.payload.iter().map(|e| e.id.as_str()).collect();
    assert_eq!(ids, vec!["V0", "V1", "V2", "V3", "V4"]);
    let quiet = sample_audit(100, RiskLevel::Low, vec![finding("V", "d", 80)]);
    let q = decide(&quiet, GateMode::Monitor);
    assert!(!q.alert);
    assert!(q.payload.is_empty());
}

#[test]
fn rendering_twice_gives_identical_bytes() {
    let a = sample_audit(920, RiskLevel::Critical, vec![finding("CVE-1", "x \"quoted\"", 92)]);
    assert_eq!(generate_text_output(&a), generate_text_output(&a));
    assert_eq!(generate_sarif_output(&a), generate_sarif_output(&a));
    assert_eq!(generate_html_report(&a), generate_html_report(&a));
}

#[test]
fn auto_fixer_selects_first_safe_version() {
    let deps = DependencyAudit {
        total_dependencies: 1,
        vulnerable_dependencies: vec![VulnerableDependency {
            package: "foo".to_string(),
            current_version: "1.0.0".to_string(),
            vulnerabilities: vec!["CVE-2024-1".to_string()],
            safe_versions: vec!["1.2.3".to_string(), "1.3.0".to_string()],
            severity: "high".to_string(),
            update_urgency: "now".to_string(),
        }],
        outdated_dependencies: vec![],
        license_issues: vec![],
        unmaintained_packages: vec![],
        typosquatting_risks: vec![],
    };
    let plans = select_fixes(&deps);
    assert_eq!(plans.len(), 1);
    assert_eq!(plans[0].package, "foo");
    assert_eq!(plans[0].version, "1.2.3");
    let report = apply_fixes(&plans, &vec![true]);
    assert_eq!(report.fixed_count, 1);
    assert_eq!(report.failed_count, 0);
    let failed = apply_fixes(&plans, &vec![false]);
    assert_eq!(failed.fixed_count, 1);
    assert_eq!(failed.failed_count, 1);
}

#[test]
fn auto_fixer_skips_dependencies_without_safe_versions() {
    let dep = |name: &str, safe: Vec<&str>| VulnerableDependency {
        package: name.to_string(),
        current_version: "0.1".to_string(),
        vulnerabilities: vec![],
        safe_versions: safe.into_iter().map(|s| s.to_string()).collect(),
        severity: "low".to_string(),
        update_urgency: "later".to_string(),
    };
    let deps = DependencyAudit {
        total_dependencies: 3,
        vulnerable_dependencies: vec![dep("a", vec![]), dep("b", vec!["2.0"]), dep("c", vec!["3.1", "3.0"])],
        outdated_dependencies: vec![],
        license_issues: vec![],
        unmaintained_packages: vec![],
        typosquatting_risks: vec![],
    };
    let plans = select_fixes(&deps);
    let got: Vec<(&str, &str)> = plans.iter().map(|p| (p.package.as_str(), p.version.as_str())).collect();
    assert_eq!(got, vec![("b", "2.0"), ("c", "3.1")]);
}

#[test]
fn monitor_survives_a_failing_first_tick() {
    let mut calls = 0u32;
    let mut backend = |kind: QueryKind, prompt: &str| -> Result<String, BackendError> {
        calls += 1;
        if calls == 1 {
            Err(BackendError { message: "unreachable".to_string() })
        } else {
            ok_backend(kind, prompt)
        }
    };
    let mut monitor = MonitorLoop::new(DEFAULT_INTERVAL_SECS);
    let mut errors: Vec<AuditError> = Vec::new();
    let mut audits = 0;
    for _tick in 0..2 {
        assert!(monitor.begin_tick(false));
        let mut issued = Vec::new();
        let outcome = run_cycle(".", &mut backend, &high_parse, &mut issued);
        match monitor.finish_tick(&outcome) {
            TickReport::Failed(e) => errors.push(e),
            TickReport::Alert { .. } | TickReport::Quiet => audits += 1,
        }
        monitor.after_sleep(false);
        assert_eq!(monitor.state, MonitorState::Running);
    }
    assert_eq!(errors, vec![AuditError::Scan]);
    assert_eq!(audits, 1);
    assert_eq!(monitor.ticks, 2);
    assert_eq!(monitor.failed_ticks, 1);
    monitor.after_sleep(true);
    assert!(!monitor.begin_tick(false));
    assert_eq!(monitor.state, MonitorState::Stopped);
}

#[test]
fn end_to_end_known_vulnerability() {
    let mut issued = Vec::new();
    let mut backend = ok_backend;
    let audit = run_cycle("/srv/app", &mut backend, &high_parse, &mut issued).unwrap();
    assert_eq!(
        issued,
        vec![
            QueryKind::Dependencies,
            QueryKind::CodePatterns,
            QueryKind::Configurations,
            QueryKind::KnownVulnerabilities,
            QueryKind::ZeroDayPatterns,
            QueryKind::Synthesis,
            QueryKind::ThreatIntelligence,
        ]
    );
    let text = generate_text_output(&audit);
    assert!(text.contains("CVE-2024-0001"));
    assert!(text.contains("Remote code execution"));
    let sarif = generate_sarif_output(&audit);
    assert_eq!(sarif.matches("\"ruleId\"").count(), 1);
    assert_eq!(sarif.matches("\"level\": \"error\"").count(), 1);
    assert!(audit.executive_summary.ends_with("All good.\n\n## Active Threat Intelligence\nRansomware is up."));
}

#[test]
fn code_pattern_scan_failure_aborts_before_enrichment() {
    let mut issued = Vec::new();
    let mut backend = |kind: QueryKind, prompt: &str| -> Result<String, BackendError> {
        if kind == QueryKind::CodePatterns {
            Err(BackendError { message: "timeout".to_string() })
        } else {
            ok_backend(kind, prompt)
        }
    };
    let outcome = run_cycle(".", &mut backend, &high_parse, &mut issued);
    assert!(matches!(outcome, Err(AuditError::Scan)));
    assert!(!issued.contains(&QueryKind::KnownVulnerabilities));
    assert_eq!(issued.len(), 3);
}

#[test]
fn enrichment_failure_aborts_the_cycle() {
    let mut issued = Vec::new();
    let mut backend = |kind: QueryKind, prompt: &str| -> Result<String, BackendError> {
        if kind == QueryKind::ZeroDayPatterns {
            Err(BackendError { message: "down".to_string() })
        } else {
            ok_backend(kind, prompt)
        }
    };
    let outcome = run_cycle(".", &mut backend, &high_parse, &mut issued);
    assert!(matches!(outcome, Err(AuditError::Enrichment)));
    assert!(!issued.contains(&QueryKind::Synthesis));
}

#[test]
fn unparsable_or_inconsistent_synthesis_is_a_parse_error() {
    let mut issued = Vec::new();
    let mut backend = ok_backend;
    let none = |_t: &str| -> Option<SecurityAudit> { None };
    assert!(matches!(run_cycle(".", &mut backend, &none, &mut issued), Err(AuditError::SynthesisParse)));
    let inconsistent = |_t: &str| -> Option<SecurityAudit> { Some(sample_audit(900, RiskLevel::Low, vec![])) };
    assert!(matches!(run_cycle(".", &mut backend, &inconsistent, &mut issued), Err(AuditError::SynthesisParse)));
    let too_high = |_t: &str| -> Option<SecurityAudit> { Some(sample_audit(1001, RiskLevel::Critical, vec![])) };
    assert!(matches!(run_cycle(".", &mut backend, &too_high, &mut issued), Err(AuditError::SynthesisParse)));
}

#[test]
fn failed_augmentation_keeps_the_audit() {
    let mut issued = Vec::new();
    let mut backend = |kind: QueryKind, prompt: &str| -> Result<String, BackendError> {
        if kind == QueryKind::ThreatIntelligence {
            Err(BackendError { message: "down".to_string() })
        } else {
            ok_backend(kind, prompt)
        }
    };
    let audit = run_cycle(".", &mut backend, &high_parse, &mut issued).unwrap();
    assert_eq!(audit.executive_summary, "All good.");
}

#[test]
fn risk_level_bands() {
    assert_eq!(RiskLevel::from_score(1000), RiskLevel::Critical);
    assert_eq!(RiskLevel::from_score(751), RiskLevel::Critical);
    assert_eq!(RiskLevel::from_score(750), RiskLevel::High);
    assert_eq!(RiskLevel::from_score(500), RiskLevel::High);
    assert_eq!(RiskLevel::from_score(499), RiskLevel::Medium);
    assert_eq!(RiskLevel::from_score(250), RiskLevel::Medium);
    assert_eq!(RiskLevel::from_score(249), RiskLevel::Low);
    assert_eq!(RiskLevel::from_score(50), RiskLevel::Low);
    assert_eq!(RiskLevel::from_score(49), RiskLevel::Negligible);
    assert_eq!(RiskLevel::from_score(0), RiskLevel::Negligible);
    assert_eq!(RiskLevel::Negligible.name(), "None");
}

#[test]
fn scan_prompts_name_the_project() {
    let cycle = AuditCycle::new("/srv/app");
    let q = cycle.queries();
    assert_eq!(q.len(), 3);
    assert_eq!(q[0].prompt, "List all dependencies and their versions found in the project at: /srv/app");
    assert!(q[1].prompt.starts_with("Scan for vulnerable code patterns in the project at: /srv/app. Look for"));
    assert!(q[2].prompt.starts_with("Check for security misconfigurations in: /srv/app. Look at CORS"));
}

#[test]
fn text_report_layout() {
    let mut a = sample_audit(425, RiskLevel::Medium, vec![finding("CVE-9", "Overflow", 75)]);
    a.recommendations = (1..=6)
        .map(|i| SecurityRecommendation {
            priority: "p".to_string(),
            category: "c".to_string(),
            title: format!("T{}", i),
            description: "D".to_string(),
            implementation: "I".to_string(),
            effort: "low".to_string(),
            impact: "high".to_string(),
        })
        .collect();
    let t = generate_text_output(&a);
    assert!(t.starts_with(
        "📊 Security Audit Summary\n========================\nRisk Score: 42.5/100\nRisk Level: Medium\nScan Time: 2015-05-15 00:00:00 UTC\n\n🚨 Vulnerabilities Found:\n"
    ));
    assert!(t.contains("• CVE-9 - Overflow\n  Severity: SeverityScore { base: 7.5, temporal: 7.5, environmental: 7.5, overall: 7.5 }\n  CVSS Score: 7.5\n  Component: requests\n  Fix: Upgrade requests\n  ⚠️  EXPLOIT AVAILABLE!\n\n"));
    assert!(!t.contains("Zero-Day"));
    assert!(t.contains("Total Dependencies: 3\nVulnerable: 0\nOutdated: 0\nUnmaintained: 0\n"));
    assert!(!t.contains("Exposed Secrets"));
    assert!(t.contains("\n📋 Compliance Score: 80%\n  OWASP: 80.5%\n"));
    assert!(t.contains("\n🔗 Supply Chain Risk: 12.5/100\n  Direct deps: 3\n  Transitive deps: 12\n  Max depth: 4\n"));
    assert!(t.contains("5. T5 - D\n   Effort: low | Impact: high\n"));
    assert!(!t.contains("T6"));
    assert!(t.ends_with("\n📄 Executive Summary:\n--------------------\nAll good."));
}

#[test]
fn sarif_document_shape() {
    let empty = sample_audit(0, RiskLevel::Negligible, vec![]);
    assert_eq!(
        generate_sarif_output(&empty),
        "{\n  \"runs\": [\n    {\n      \"results\": [],\n      \"tool\": {\n        \"driver\": {\n          \"informationUri\": \"https://github.com/openrye/openrye\",\n          \"name\": \"OpenRye Security Audit\",\n          \"version\": \"0.1.0\"\n        }\n      }\n    }\n  ],\n  \"version\": \"2.1.0\"\n}"
    );
    let one = sample_audit(920, RiskLevel::Critical, vec![finding("CVE-1", "say \"hi\"\n", 92)]);
    let doc = generate_sarif_output(&one);
    assert!(doc.contains("\"text\": \"say \\\"hi\\\"\\n\""));
    assert!(doc.contains("\"ruleId\": \"CVE-1\"\n        }\n      ],"));
    assert!(doc.contains("\"uri\": \"requests\""));
}

#[test]
fn html_badge_follows_score_bands() {
    let page = |score: u32, level: RiskLevel| generate_html_report(&sample_audit(score, level, vec![]));
    assert!(page(800, RiskLevel::Critical).contains("<div class=\"risk-score critical\">80/100</div>"));
    assert!(page(800, RiskLevel::Critical).contains("color: #d32f2f;\n        }"));
    assert!(page(600, RiskLevel::High).contains("risk-score high\">60/100"));
    assert!(page(300, RiskLevel::Medium).contains("risk-score medium\">30/100"));
    assert!(page(250, RiskLevel::Medium).contains("risk-score low\">25/100"));
    let with = generate_html_report(&sample_audit(920, RiskLevel::Critical, vec![finding("CVE-7", "Bad", 92)]));
    assert!(with.contains("<h2>Vulnerabilities (1)</h2>"));
    assert!(with.contains("<h3>CVE-7</h3>"));
    assert!(with.contains("<p>Risk Level: Critical</p>"));
}

#[test]
fn audit_command_plan() {
    let args = Args {
        format: "sarif".to_string(),
        fix: true,
        zero_day: false,
        supply_chain: false,
        compliance: vec![],
        path: ".".to_string(),
        monitor: false,
        ci: true,
        output: None,
    };
    let mut audit = sample_audit(920, RiskLevel::Critical, vec![finding("CVE-1", "x", 92)]);
    audit.dependency_audit.vulnerable_dependencies.push(VulnerableDependency {
        package: "foo".to_string(),
        current_version: "1.0".to_string(),
        vulnerabilities: vec![],
        safe_versions: vec!["1.2.3".to_string()],
        severity: "high".to_string(),
        update_urgency: "now".to_string(),
    });
    let plan = execute(&args, &audit);
    assert_eq!(plan.format, OutputFormat::Sarif);
    assert_eq!(plan.report.unwrap(), generate_sarif_output(&audit));
    assert_eq!(plan.fixes.len(), 1);
    assert_eq!(plan.exit_code, 1);
    assert_eq!(parse_format("json"), OutputFormat::Json);
    assert_eq!(parse_format("html"), OutputFormat::Html);
    assert_eq!(parse_format("yaml"), OutputFormat::Text);
    assert!(render_report(&audit, OutputFormat::Json).is_none());
}

#[test]
fn backend_selection_precedence() {
    let c = AIConfig::from_credentials(Some("k1".to_string()), Some("k2".to_string())).unwrap();
    assert_eq!(c.provider, AIProvider::OpenAI);
    assert_eq!(c.api_key, "k1");
    let c = AIConfig::from_credentials(None, Some("k2".to_string())).unwrap();
    assert_eq!(c.provider, AIProvider::Anthropic);
    assert!(matches!(AIConfig::from_credentials(None, None), Err(AuditError::Startup)));
    assert!(matches!(SecurityAuditor::new(None, None), Err(AuditError::Startup)));
    let auditor = SecurityAuditor::new(None, Some("k".to_string())).unwrap();
    assert_eq!(auditor.audit_project("p").stage, Stage::Scan);
}

#[test]
fn timestamps_print_as_utc() {
    let t = Timestamp::from_unix(1431648000, 0).unwrap();
    assert_eq!(t.text(), "2015-05-15 00:00:00 UTC");
    assert_eq!(t.secs(), 1431648000);
    assert!(Timestamp::from_unix(i64::MAX, 0).is_none());
}
