//! Security auditing of a software project: the risk data model, the staged
//! audit cycle against an inference backend, the monitoring loop, the CI gate,
//! the choice of remediations and the report renderers.
//!
//! Around that core sit the pieces of project tooling that share the backend:
//! code-review results and their reports, pull-request texts and templates,
//! project initialisation, and templates for Rust extensions of Python projects.
//!
//! Nothing here performs I/O. The caller issues the backend queries that an
//! audit cycle asks for, hands the answers back, and prints or writes what the
//! renderers return.
pub mod audit;
pub mod code_review;
pub mod command;
pub mod cycle;
pub mod gate;
pub mod html_report;
pub mod interop;
pub mod laws;
pub mod monitor;
pub mod num;
pub mod project_init;
pub mod prompts;
pub mod provider;
pub mod pull_request;
pub mod review_report;
pub mod sarif;
pub mod session;
pub mod template_catalog;
pub mod templates;
pub mod text;
pub mod text_report;
