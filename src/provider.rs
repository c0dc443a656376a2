//! The choice of inference backend, and the auditor built on it.
use vstd::prelude::*;
use crate::cycle::{AuditCycle, AuditError, Stage};

verus! {

/// The inference backends.
#[derive(Clone, Copy, Debug, PartialEq, Eq, Structural)]
pub enum AIProvider {
    Anthropic,
    OpenAI,
}

/// The selected backend and its credential. Which model the backend runs is
/// the backend client's own setting.
#[derive(Debug)]
pub struct AIConfig {
    pub provider: AIProvider,
    pub api_key: String,
}

impl AIConfig {
    /// The backend of the first credential present, OpenAI before Anthropic;
    /// a startup error where there is none.
    pub fn from_credentials(openai_key: Option<String>, anthropic_key: Option<String>) -> (r: Result<AIConfig, AuditError>)
        ensures
            match openai_key {
                Some(k) => r matches Ok(c) && c.provider == AIProvider::OpenAI && c.api_key@ == k@,
                None => match anthropic_key {
                    Some(k) => r matches Ok(c) && c.provider == AIProvider::Anthropic && c.api_key@ == k@,
                    None => r == Err::<AIConfig, AuditError>(AuditError::Startup),
                },
            },
    {
        match openai_key {
            Some(k) => Ok(AIConfig { provider: AIProvider::OpenAI, api_key: k }),
            None => match anthropic_key {
                Some(k) => Ok(AIConfig { provider: AIProvider::Anthropic, api_key: k }),
                None => Err(AuditError::Startup),
            },
        }
    }
}

/// Runs security audits against the configured backend.
#[derive(Debug)]
pub struct SecurityAuditor {
    pub config: AIConfig,
}

impl SecurityAuditor {
    /// An auditor on the backend of the first credential present; a startup
    /// error where there is none.
    pub fn new(openai_key: Option<String>, anthropic_key: Option<String>) -> (r: Result<SecurityAuditor, AuditError>)
        ensures
            r is Err <==> (openai_key is None && anthropic_key is None),
            r matches Err(e) ==> e == AuditError::Startup,
            r matches Ok(a) ==> match openai_key {
                Some(k) => a.config.provider == AIProvider::OpenAI && a.config.api_key@ == k@,
                None => a.config.provider == AIProvider::Anthropic && a.config.api_key@ == anthropic_key->Some_0@,
            },
    {
        match AIConfig::from_credentials(openai_key, anthropic_key) {
            Ok(config) => Ok(SecurityAuditor { config }),
            Err(e) => Err(e),
        }
    }

    /// A fresh audit cycle of the project at `project_path`.
    pub fn audit_project(&self, project_path: &str) -> (r: AuditCycle)
        ensures
            r.wf(),
            r.stage == Stage::Scan,
            r.project_path@ == project_path@,
    {
        AuditCycle::new(project_path)
    }
}

/// The Anthropic backend's credential and model.
#[derive(Debug)]
pub struct ClaudeProvider {
    pub api_key: String,
    pub model: String,
}

impl ClaudeProvider {
    pub fn new(api_key: String, model: String) -> (r: ClaudeProvider)
        ensures
            r.api_key == api_key,
            r.model == model,
    {
        ClaudeProvider { api_key, model }
    }
}

/// An assistant that talks to OpenAI with a given configuration.
#[derive(Debug)]
pub struct OpenAIAssistant {
    pub config: AIConfig,
}

impl OpenAIAssistant {
    pub fn new(config: AIConfig) -> (r: OpenAIAssistant)
        ensures
            r.config == config,
    {
        OpenAIAssistant { config }
    }
}

/// The severity of an issue in a code analysis.
#[derive(Clone, Copy, Debug, PartialEq, Eq, Structural)]
pub enum Severity {
    Error,
    Warning,
    Info,
}

#[derive(Debug)]
pub struct Issue {
    pub severity: Severity,
    pub message: String,
    pub line: Option<usize>,
    pub suggestion: Option<String>,
}

/// What the backend says of a piece of code.
#[derive(Debug)]
pub struct CodeAnalysis {
    pub issues: Vec<Issue>,
    pub suggestions: Vec<String>,
    pub performance_tips: Vec<String>,
    pub security_warnings: Vec<String>,
}

/// A suggested package.
#[derive(Debug)]
pub struct DependencyRecommendation {
    pub package: String,
    pub version: String,
    pub reason: String,
}

} // verus!
