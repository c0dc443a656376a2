//! One audit cycle as a state machine: scan, enrich, synthesize, augment.
//!
//! The cycle says which backend queries to issue at each stage; whoever runs
//! it issues them (the queries of one stage concurrently), hands the answers
//! back, and the cycle decides the next stage. Scan, enrichment and synthesis
//! fail fast; augmentation never fails the cycle.
use vstd::prelude::*;
use crate::audit::SecurityAudit;
use crate::prompts::{
    audit_prompt, build_audit_prompt, check_latest_cves_prompt, code_pattern_prompt,
    configuration_prompt, dependency_prompt, detect_zero_day_patterns_prompt,
    known_vulnerability_prompt, scan_code_patterns_prompt, scan_configurations_prompt,
    scan_dependencies_prompt, threat_intelligence_prompt, threat_intelligence_query,
    zero_day_prompt,
};

verus! {

#[derive(Clone, Copy, Debug, PartialEq, Eq, Structural)]
pub enum Stage {
    Scan,
    Enrich,
    Synthesize,
    Augment,
    Done,
    Aborted,
}

/// What a backend query asks for.
#[derive(Clone, Copy, Debug, PartialEq, Eq, Structural)]
pub enum QueryKind {
    Dependencies,
    CodePatterns,
    Configurations,
    KnownVulnerabilities,
    ZeroDayPatterns,
    Synthesis,
    ThreatIntelligence,
}

/// One query for the inference backend.
#[derive(Debug)]
pub struct Query {
    pub kind: QueryKind,
    pub prompt: String,
}

/// The errors of the audit pipeline.
#[derive(Clone, Copy, Debug, PartialEq, Eq, Structural)]
pub enum AuditError {
    /// A scan query failed.
    Scan,
    /// An enrichment query failed.
    Enrichment,
    /// The synthesis answer is not a valid audit.
    SynthesisParse,
    /// The requested report format cannot be produced.
    Render,
    /// No backend credential is configured.
    Startup,
}

impl AuditError {
    /// A human-readable message for the error.
    pub fn message(&self) -> (r: &'static str)
        ensures
            r@ == error_message(*self),
    {
        match self {
            AuditError::Scan => "scan query failed",
            AuditError::Enrichment => "enrichment query failed",
            AuditError::SynthesisParse => "failed to parse security audit response",
            AuditError::Render => "cannot render the requested format",
            AuditError::Startup => "no AI provider configured: set OPENAI_API_KEY or ANTHROPIC_API_KEY",
        }
    }
}

pub open spec fn error_message(e: AuditError) -> Seq<char> {
    match e {
        AuditError::Scan => "scan query failed"@,
        AuditError::Enrichment => "enrichment query failed"@,
        AuditError::SynthesisParse => "failed to parse security audit response"@,
        AuditError::Render => "cannot render the requested format"@,
        AuditError::Startup => "no AI provider configured: set OPENAI_API_KEY or ANTHROPIC_API_KEY"@,
    }
}

/// A failed backend call.
#[derive(Debug)]
pub struct BackendError {
    pub message: String,
}

/// The queries each stage issues, in order.
pub open spec fn stage_queries(stage: Stage) -> Seq<QueryKind> {
    match stage {
        Stage::Scan => seq![QueryKind::Dependencies, QueryKind::CodePatterns, QueryKind::Configurations],
        Stage::Enrich => seq![QueryKind::KnownVulnerabilities, QueryKind::ZeroDayPatterns],
        Stage::Synthesize => seq![QueryKind::Synthesis],
        Stage::Augment => seq![QueryKind::ThreatIntelligence],
        _ => Seq::empty(),
    }
}

/// The stage after the scan: enrichment only when all three scans succeeded.
pub open spec fn after_scan(dependencies_ok: bool, code_patterns_ok: bool, configurations_ok: bool) -> Stage {
    if dependencies_ok && code_patterns_ok && configurations_ok {
        Stage::Enrich
    } else {
        Stage::Aborted
    }
}

/// What the augmentation appends to the executive summary.
pub open spec fn augmented_summary(summary: Seq<char>, intel: Seq<char>) -> Seq<char> {
    summary + "\n\n## Active Threat Intelligence\n"@ + intel
}

/// `b` is `a` with its executive summary replaced by `summary`.
pub open spec fn with_summary(a: SecurityAudit, b: SecurityAudit, summary: Seq<char>) -> bool {
    &&& b.scan_timestamp == a.scan_timestamp
    &&& b.risk_score == a.risk_score
    &&& b.risk_level == a.risk_level
    &&& b.vulnerabilities == a.vulnerabilities
    &&& b.zero_day_risks == a.zero_day_risks
    &&& b.dependency_audit == a.dependency_audit
    &&& b.code_vulnerabilities == a.code_vulnerabilities
    &&& b.secrets_scan == a.secrets_scan
    &&& b.compliance == a.compliance
    &&& b.supply_chain == a.supply_chain
    &&& b.recommendations == a.recommendations
    &&& b.executive_summary@ == summary
}

/// One audit cycle of a project and the evidence gathered so far.
#[derive(Debug)]
pub struct AuditCycle {
    pub project_path: String,
    pub stage: Stage,
    pub dependencies: String,
    pub code_patterns: String,
    pub configurations: String,
    pub cve_data: String,
    pub zero_day_patterns: String,
    pub audit: Option<SecurityAudit>,
    pub error: Option<AuditError>,
}

impl AuditCycle {
    /// An audit exists exactly from synthesis on, and it satisfies the schema;
    /// an aborted cycle holds its error.
    pub open spec fn wf(&self) -> bool {
        &&& (self.stage == Stage::Augment || self.stage == Stage::Done) <==> self.audit is Some
        &&& self.audit matches Some(a) ==> a.wf()
        &&& (self.stage == Stage::Aborted) <==> self.error is Some
    }

    /// The prompt of a query of this cycle, from the evidence it holds.
    pub open spec fn prompt_of(&self, kind: QueryKind) -> Seq<char> {
        match kind {
            QueryKind::Dependencies => dependency_prompt(self.project_path@),
            QueryKind::CodePatterns => code_pattern_prompt(self.project_path@),
            QueryKind::Configurations => configuration_prompt(self.project_path@),
            QueryKind::KnownVulnerabilities => known_vulnerability_prompt(self.dependencies@),
            QueryKind::ZeroDayPatterns => zero_day_prompt(self.code_patterns@),
            QueryKind::Synthesis => audit_prompt(
                self.dependencies@,
                self.code_patterns@,
                self.configurations@,
                self.cve_data@,
                self.zero_day_patterns@,
            ),
            QueryKind::ThreatIntelligence => threat_intelligence_prompt(),
        }
    }

    /// A cycle about to scan the project at `project_path`.
    pub fn new(project_path: &str) -> (r: AuditCycle)
        ensures
            r.wf(),
            r.stage == Stage::Scan,
            r.project_path@ == project_path@,
    {
        AuditCycle {
            project_path: String::from_str(project_path),
            stage: Stage::Scan,
            dependencies: String::new(),
            code_patterns: String::new(),
            configurations: String::new(),
            cve_data: String::new(),
            zero_day_patterns: String::new(),
            audit: None,
            error: None,
        }
    }

    fn query(&self, kind: QueryKind) -> (r: Query)
        ensures
            r.kind == kind,
            r.prompt@ == self.prompt_of(kind),
    {
        let prompt = match kind {
            QueryKind::Dependencies => scan_dependencies_prompt(self.project_path.as_str()),
            QueryKind::CodePatterns => scan_code_patterns_prompt(self.project_path.as_str()),
            QueryKind::Configurations => scan_configurations_prompt(self.project_path.as_str()),
            QueryKind::KnownVulnerabilities => check_latest_cves_prompt(self.dependencies.as_str()),
            QueryKind::ZeroDayPatterns => detect_zero_day_patterns_prompt(self.code_patterns.as_str()),
            QueryKind::Synthesis => build_audit_prompt(
                self.dependencies.as_str(),
                self.code_patterns.as_str(),
                self.configurations.as_str(),
                self.cve_data.as_str(),
                self.zero_day_patterns.as_str(),
            ),
            QueryKind::ThreatIntelligence => threat_intelligence_query(),
        };
        Query { kind, prompt }
    }

    /// The queries to issue now: three scans, then the two enrichments, then
    /// the synthesis, then the threat-intelligence query; none once the cycle
    /// has ended.
    pub fn queries(&self) -> (r: Vec<Query>)
        ensures
            r@.len() == stage_queries(self.stage).len(),
            forall|i: int|
                0 <= i < r@.len() ==> #[trigger] r@[i].kind == stage_queries(self.stage)[i]
                    && r@[i].prompt@ == self.prompt_of(r@[i].kind),
    {
        let mut r: Vec<Query> = Vec::new();
        match self.stage {
            Stage::Scan => {
                r.push(self.query(QueryKind::Dependencies));
                r.push(self.query(QueryKind::CodePatterns));
                r.push(self.query(QueryKind::Configurations));
            },
            Stage::Enrich => {
                r.push(self.query(QueryKind::KnownVulnerabilities));
                r.push(self.query(QueryKind::ZeroDayPatterns));
            },
            Stage::Synthesize => {
                r.push(self.query(QueryKind::Synthesis));
            },
            Stage::Augment => {
                r.push(self.query(QueryKind::ThreatIntelligence));
            },
            _ => {},
        }
        r
    }

    /// Takes the answers of the three scans. Any failure aborts the cycle with
    /// a scan error and keeps none of the evidence.
    pub fn on_scan(
        &mut self,
        dependencies: Result<String, BackendError>,
        code_patterns: Result<String, BackendError>,
        configurations: Result<String, BackendError>,
    )
        requires
            old(self).wf(),
            old(self).stage == Stage::Scan,
        ensures
            final(self).wf(),
            final(self).project_path == old(self).project_path,
            final(self).stage == after_scan(dependencies is Ok, code_patterns is Ok, configurations is Ok),
            final(self).stage == Stage::Aborted ==> final(self).error == Some(AuditError::Scan),
            final(self).stage == Stage::Enrich ==> {
                &&& final(self).dependencies@ == dependencies->Ok_0@
                &&& final(self).code_patterns@ == code_patterns->Ok_0@
                &&& final(self).configurations@ == configurations->Ok_0@
            },
            final(self).audit is None,
    {
        match (dependencies, code_patterns, configurations) {
            (Ok(d), Ok(c), Ok(g)) => {
                self.dependencies = d;
                self.code_patterns = c;
                self.configurations = g;
                self.stage = Stage::Enrich;
            },
            _ => {
                self.stage = Stage::Aborted;
                self.error = Some(AuditError::Scan);
            },
        }
    }

    /// Takes the answers of the two enrichment queries. Either failure aborts
    /// the cycle with an enrichment error.
    pub fn on_enrich(&mut self, cve_data: Result<String, BackendError>, zero_day_patterns: Result<String, BackendError>)
        requires
            old(self).wf(),
            old(self).stage == Stage::Enrich,
        ensures
            final(self).wf(),
            final(self).project_path == old(self).project_path,
            final(self).dependencies == old(self).dependencies,
            final(self).code_patterns == old(self).code_patterns,
            final(self).configurations == old(self).configurations,
            final(self).stage == (if cve_data is Ok && zero_day_patterns is Ok {
                Stage::Synthesize
            } else {
                Stage::Aborted
            }),
            final(self).stage == Stage::Aborted ==> final(self).error == Some(AuditError::Enrichment),
            final(self).stage == Stage::Synthesize ==> {
                &&& final(self).cve_data@ == cve_data->Ok_0@
                &&& final(self).zero_day_patterns@ == zero_day_patterns->Ok_0@
            },
            final(self).audit is None,
    {
        match (cve_data, zero_day_patterns) {
            (Ok(c), Ok(z)) => {
                self.cve_data = c;
                self.zero_day_patterns = z;
                self.stage = Stage::Synthesize;
            },
            _ => {
                self.stage = Stage::Aborted;
                self.error = Some(AuditError::Enrichment);
            },
        }
    }

    /// Takes the synthesis answer as parsed against the audit schema (`None`
    /// where it did not parse). An audit whose score is out of range or whose
    /// level is not the band of its score does not conform either; both abort
    /// the cycle with a parse error.
    pub fn on_synthesis(&mut self, parsed: Option<SecurityAudit>)
        requires
            old(self).wf(),
            old(self).stage == Stage::Synthesize,
        ensures
            final(self).wf(),
            final(self).project_path == old(self).project_path,
            match parsed {
                Some(a) if a.wf() => final(self).stage == Stage::Augment && final(self).audit == Some(a),
                _ => final(self).stage == Stage::Aborted && final(self).error == Some(AuditError::SynthesisParse)
                    && final(self).audit is None,
            },
    {
        match parsed {
            Some(a) => {
                if a.is_consistent() {
                    self.audit = Some(a);
                    self.stage = Stage::Augment;
                } else {
                    self.stage = Stage::Aborted;
                    self.error = Some(AuditError::SynthesisParse);
                }
            },
            None => {
                self.stage = Stage::Aborted;
                self.error = Some(AuditError::SynthesisParse);
            },
        }
    }

    /// Takes the threat-intelligence answer: on success it is appended to the
    /// executive summary; on failure the audit stays as it was. The cycle is
    /// done either way.
    pub fn on_augment(&mut self, intel: Result<String, BackendError>)
        requires
            old(self).wf(),
            old(self).stage == Stage::Augment,
        ensures
            final(self).wf(),
            final(self).stage == Stage::Done,
            final(self).project_path == old(self).project_path,
            final(self).audit matches Some(b) && old(self).audit matches Some(a) && match intel {
                Ok(t) => with_summary(a, b, augmented_summary(a.executive_summary@, t@)),
                Err(_) => b == a,
            },
    {
        let taken = self.audit.take();
        match taken {
            Some(mut a) => {
                match intel {
                    Ok(t) => {
                        a.executive_summary.append("\n\n## Active Threat Intelligence\n");
                        a.executive_summary.append(&t);
                    },
                    Err(_) => {},
                }
                self.audit = Some(a);
                self.stage = Stage::Done;
            },
            None => {
                self.stage = Stage::Done;
            },
        }
    }

    /// The audit of a finished cycle, or the error that ended it.
    pub fn outcome(self) -> (r: Result<SecurityAudit, AuditError>)
        requires
            self.wf(),
            self.stage == Stage::Done || self.stage == Stage::Aborted,
        ensures
            self.stage == Stage::Done ==> r == Ok::<SecurityAudit, AuditError>(self.audit->Some_0),
            self.stage == Stage::Aborted ==> r == Err::<SecurityAudit, AuditError>(self.error->Some_0),
            r matches Ok(a) ==> a.wf(),
    {
        match self.audit {
            Some(a) => Ok(a),
            None => match self.error {
                Some(e) => Err(e),
                None => Err(AuditError::Scan),
            },
        }
    }
}

} // verus!
