//! Pull-request descriptions: their data and the description templates.
use vstd::prelude::*;
use crate::cycle::AuditError;
use crate::command::same_text;
use crate::provider::{AIConfig, AIProvider};
use crate::text::{lines_of, push_trimmed_lines, string_view, trimmed_nonblank};

verus! {

#[derive(Debug)]
pub struct PullRequest {
    pub title: String,
    pub description: String,
    pub commit_messages: Vec<CommitMessage>,
    pub changelog: Changelog,
    pub testing_checklist: Vec<TestItem>,
    pub deployment_notes: Option<String>,
    pub breaking_changes: Vec<BreakingChange>,
    pub related_issues: Vec<String>,
    pub reviewers: Vec<String>,
    pub labels: Vec<String>,
    pub estimated_review_time: String,
}

#[derive(Debug)]
pub struct CommitMessage {
    pub hash: Option<String>,
    pub conventional_type: String,
    pub scope: Option<String>,
    pub description: String,
    pub body: Option<String>,
    pub breaking: bool,
    pub closes: Vec<String>,
}

#[derive(Debug)]
pub struct Changelog {
    pub version: String,
    pub date: String,
    pub sections: ChangelogSections,
}

#[derive(Debug)]
pub struct ChangelogSections {
    pub features: Vec<String>,
    pub fixes: Vec<String>,
    pub performance: Vec<String>,
    pub security: Vec<String>,
    pub documentation: Vec<String>,
    pub deprecated: Vec<String>,
    pub removed: Vec<String>,
}

#[derive(Debug)]
pub struct TestItem {
    pub category: String,
    pub description: String,
    pub checked: bool,
    pub automated: bool,
}

#[derive(Debug)]
pub struct BreakingChange {
    pub component: String,
    pub description: String,
    pub migration_guide: String,
    pub affected_versions: Vec<String>,
}

#[derive(Debug)]
pub struct PRContext {
    pub repository: String,
    pub source_branch: String,
    pub target_branch: String,
    pub author: String,
    pub project_type: String,
    pub primary_language: String,
    pub team_members: Vec<String>,
}

#[derive(Debug)]
pub struct ReviewComment {
    pub author: String,
    pub text: String,
    pub file: String,
    pub line: usize,
}

/// Generates pull-request descriptions through the configured backend.
#[derive(Debug)]
pub struct PRGenerator {
    pub config: AIConfig,
}

impl PRGenerator {
    /// A generator on the backend of the first credential present, OpenAI
    /// before Anthropic; a startup error where there is none.
    pub fn new(openai_key: Option<String>, anthropic_key: Option<String>) -> (r: Result<PRGenerator, AuditError>)
        ensures
            r is Err <==> (openai_key is None && anthropic_key is None),
            r matches Err(e) ==> e == AuditError::Startup,
            r matches Ok(g) ==> match openai_key {
                Some(k) => g.config.provider == AIProvider::OpenAI && g.config.api_key@ == k@,
                None => g.config.provider == AIProvider::Anthropic && g.config.api_key@ == anthropic_key->Some_0@,
            },
    {
        match AIConfig::from_credentials(openai_key, anthropic_key) {
            Ok(config) => Ok(PRGenerator { config }),
            Err(e) => Err(e),
        }
    }
}

/// The description template for a kind of project: `web`, `api`, `library`,
/// or the default one for any other.
pub open spec fn pr_template_for(project_type: Seq<char>) -> Seq<char> {
    if project_type == "web"@ {
        "\n## Description\nBrief description of changes\n\n## Screenshots\n[Add screenshots for UI changes]\n\n## Browser Testing\n- [ ] Chrome\n- [ ] Firefox\n- [ ] Safari\n- [ ] Edge\n\n## Responsive Testing\n- [ ] Mobile\n- [ ] Tablet\n- [ ] Desktop\n\n## Accessibility\n- [ ] Screen reader tested\n- [ ] Keyboard navigation works\n- [ ] Color contrast meets WCAG standards\n"@
    } else if project_type == "api"@ {
        "\n## Description\nBrief description of changes\n\n## API Changes\n- [ ] New endpoints added\n- [ ] Existing endpoints modified\n- [ ] Breaking changes\n- [ ] Backwards compatible\n\n## Performance Impact\n- [ ] Load tested\n- [ ] Database queries optimized\n- [ ] Caching implemented where appropriate\n\n## Security\n- [ ] Input validation added\n- [ ] Authentication/authorization checked\n- [ ] SQL injection prevented\n- [ ] XSS prevention in place\n"@
    } else if project_type == "library"@ {
        "\n## Description\nBrief description of changes\n\n## API Changes\n- [ ] New public APIs added\n- [ ] Existing APIs modified\n- [ ] Deprecations added\n- [ ] Breaking changes\n\n## Compatibility\n- [ ] Backwards compatible\n- [ ] Minimum version requirements updated\n- [ ] Migration guide provided\n\n## Documentation\n- [ ] API docs updated\n- [ ] Examples updated\n- [ ] README updated\n- [ ] CHANGELOG updated\n"@
    } else {
        "\n## Description\nBrief description of changes\n\n## Type of Change\n- [ ] Bug fix (non-breaking change which fixes an issue)\n- [ ] New feature (non-breaking change which adds functionality)\n- [ ] Breaking change (fix or feature that would cause existing functionality to not work as expected)\n- [ ] Documentation update\n\n## Testing\n- [ ] Unit tests pass\n- [ ] Integration tests pass\n- [ ] Manual testing completed\n\n## Checklist\n- [ ] My code follows the style guidelines\n- [ ] I have performed a self-review\n- [ ] I have commented my code where necessary\n- [ ] I have updated the documentation\n- [ ] My changes generate no new warnings\n- [ ] I have added tests that prove my fix/feature works\n- [ ] New and existing unit tests pass locally\n"@
    }
}

pub fn generate_pr_template(project_type: &str) -> (r: String)
    ensures
        r@ == pr_template_for(project_type@),
{
    if same_text(project_type, "web") {
        String::from_str("\n## Description\nBrief description of changes\n\n## Screenshots\n[Add screenshots for UI changes]\n\n## Browser Testing\n- [ ] Chrome\n- [ ] Firefox\n- [ ] Safari\n- [ ] Edge\n\n## Responsive Testing\n- [ ] Mobile\n- [ ] Tablet\n- [ ] Desktop\n\n## Accessibility\n- [ ] Screen reader tested\n- [ ] Keyboard navigation works\n- [ ] Color contrast meets WCAG standards\n")
    } else if same_text(project_type, "api") {
        String::from_str("\n## Description\nBrief description of changes\n\n## API Changes\n- [ ] New endpoints added\n- [ ] Existing endpoints modified\n- [ ] Breaking changes\n- [ ] Backwards compatible\n\n## Performance Impact\n- [ ] Load tested\n- [ ] Database queries optimized\n- [ ] Caching implemented where appropriate\n\n## Security\n- [ ] Input validation added\n- [ ] Authentication/authorization checked\n- [ ] SQL injection prevented\n- [ ] XSS prevention in place\n")
    } else if same_text(project_type, "library") {
        String::from_str("\n## Description\nBrief description of changes\n\n## API Changes\n- [ ] New public APIs added\n- [ ] Existing APIs modified\n- [ ] Deprecations added\n- [ ] Breaking changes\n\n## Compatibility\n- [ ] Backwards compatible\n- [ ] Minimum version requirements updated\n- [ ] Migration guide provided\n\n## Documentation\n- [ ] API docs updated\n- [ ] Examples updated\n- [ ] README updated\n- [ ] CHANGELOG updated\n")
    } else {
        String::from_str("\n## Description\nBrief description of changes\n\n## Type of Change\n- [ ] Bug fix (non-breaking change which fixes an issue)\n- [ ] New feature (non-breaking change which adds functionality)\n- [ ] Breaking change (fix or feature that would cause existing functionality to not work as expected)\n- [ ] Documentation update\n\n## Testing\n- [ ] Unit tests pass\n- [ ] Integration tests pass\n- [ ] Manual testing completed\n\n## Checklist\n- [ ] My code follows the style guidelines\n- [ ] I have performed a self-review\n- [ ] I have commented my code where necessary\n- [ ] I have updated the documentation\n- [ ] My changes generate no new warnings\n- [ ] I have added tests that prove my fix/feature works\n- [ ] New and existing unit tests pass locally\n")
    }
}

/// The strings of `s` separated by `sep`.
pub open spec fn joined(s: Seq<String>, sep: Seq<char>) -> Seq<char>
    decreases s.len(),
{
    if s.len() == 0 {
        Seq::empty()
    } else if s.len() == 1 {
        s[0]@
    } else {
        joined(s.drop_last(), sep) + sep + s.last()@
    }
}

/// Joins `items` with `", "`.
pub fn join_comma(items: &Vec<String>) -> (r: String)
    ensures
        r@ == joined(items@, ", "@),
{
    let mut r = String::new();
    let mut i: usize = 0;
    while i < items.len()
        invariant
            i <= items@.len(),
            r@ == joined(items@.subrange(0, i as int), ", "@),
        decreases items.len() - i,
    {
        proof {
            assert(items@.subrange(0, i + 1).drop_last() =~= items@.subrange(0, i as int));
        }
        if i == 0 {
            r = items[0].clone();
        } else {
            r.append(", ");
            r.append(&items[i]);
        }
        i = i + 1;
    }
    proof {
        assert(items@.subrange(0, items@.len() as int) =~= items@);
    }
    r
}

/// A commit message in the conventional-commits form:
/// `type(scope)!: description`, then the body, the breaking-change footer
/// and the issues it closes, each after a blank line where present.
pub open spec fn commit_text(c: CommitMessage) -> Seq<char> {
    c.conventional_type@ + (match c.scope {
        Some(s) => "("@ + s@ + ")"@,
        None => Seq::empty(),
    }) + (if c.breaking { "!"@ } else { Seq::empty() }) + ": "@ + c.description@ + (match c.body {
        Some(b) => "\n\n"@ + b@,
        None => Seq::empty(),
    }) + (if c.breaking {
        "\n\nBREAKING CHANGE: This commit contains breaking changes"@
    } else {
        Seq::empty()
    }) + (if c.closes@.len() > 0 {
        "\n\nCloses: "@ + joined(c.closes@, ", "@)
    } else {
        Seq::empty()
    })
}

pub fn format_commit_message(commit: &CommitMessage) -> (r: String)
    ensures
        r@ == commit_text(*commit),
{
    let mut scope = String::new();
    if let Some(s) = &commit.scope {
        scope = String::from_str("(");
        scope.append(s);
        scope.append(")");
    }
    let mut bang = String::new();
    if commit.breaking {
        bang = String::from_str("!");
    }
    let mut body = String::new();
    if let Some(b) = &commit.body {
        body = String::from_str("\n\n");
        body.append(b);
    }
    let mut footer = String::new();
    if commit.breaking {
        footer = String::from_str("\n\nBREAKING CHANGE: This commit contains breaking changes");
    }
    let mut closes = String::new();
    if commit.closes.len() > 0 {
        closes = String::from_str("\n\nCloses: ");
        closes.append(&join_comma(&commit.closes));
    }
    let mut r = commit.conventional_type.clone();
    r.append(&scope);
    r.append(&bang);
    r.append(": ");
    r.append(&commit.description);
    r.append(&body);
    r.append(&footer);
    r.append(&closes);
    r
}

/// Which manifest files the working directory holds.
#[derive(Clone, Copy, Debug, PartialEq, Eq, Structural)]
pub struct ProjectFiles {
    pub package_json: bool,
    pub cargo_toml: bool,
    pub pyproject_toml: bool,
    pub setup_py: bool,
}

/// The kind of project: `web` with a `package.json`, else `rust` with a
/// `Cargo.toml`, else `python` with a `pyproject.toml` or `setup.py`, else `general`.
pub open spec fn project_kind(f: ProjectFiles) -> Seq<char> {
    if f.package_json {
        "web"@
    } else if f.cargo_toml {
        "rust"@
    } else if f.pyproject_toml || f.setup_py {
        "python"@
    } else {
        "general"@
    }
}

pub fn detect_project_type(files: &ProjectFiles) -> (r: String)
    ensures
        r@ == project_kind(*files),
{
    if files.package_json {
        String::from_str("web")
    } else if files.cargo_toml {
        String::from_str("rust")
    } else if files.pyproject_toml || files.setup_py {
        String::from_str("python")
    } else {
        String::from_str("general")
    }
}

/// The main language: `rust` with a `Cargo.toml`, else `python` with a
/// `pyproject.toml`, else `javascript` with a `package.json`, else `unknown`.
pub open spec fn primary_language(f: ProjectFiles) -> Seq<char> {
    if f.cargo_toml {
        "rust"@
    } else if f.pyproject_toml {
        "python"@
    } else if f.package_json {
        "javascript"@
    } else {
        "unknown"@
    }
}

pub fn detect_primary_language(files: &ProjectFiles) -> (r: String)
    ensures
        r@ == primary_language(*files),
{
    if files.cargo_toml {
        String::from_str("rust")
    } else if files.pyproject_toml {
        String::from_str("python")
    } else if files.package_json {
        String::from_str("javascript")
    } else {
        String::from_str("unknown")
    }
}

/// A commit message as the text listing prints it.
pub open spec fn commit_entry(c: CommitMessage) -> Seq<char> {
    "- "@ + commit_text(c) + "\n"@
}

pub open spec fn commit_entries(s: Seq<CommitMessage>) -> Seq<char>
    decreases s.len(),
{
    if s.len() == 0 { Seq::empty() } else { commit_entries(s.drop_last()) + commit_entry(s.last()) }
}

/// The plain listing of a pull request: its title, its description, and its
/// commit messages where it has any.
pub open spec fn pr_text(pr: PullRequest) -> Seq<char> {
    "TITLE: "@ + pr.title@ + "\n\nDESCRIPTION:\n"@ + pr.description@ + "\n"@ + (if pr.commit_messages@.len() > 0 {
        "\nCOMMIT MESSAGES:\n"@ + commit_entries(pr.commit_messages@)
    } else {
        Seq::empty()
    })
}

pub fn output_text_pr(pr: &PullRequest) -> (r: String)
    ensures
        r@ == pr_text(*pr),
{
    let mut commits = String::new();
    if pr.commit_messages.len() > 0 {
        let s = &pr.commit_messages;
        let mut lines = String::new();
        let mut i: usize = 0;
        while i < s.len()
            invariant
                i <= s@.len(),
                lines@ == commit_entries(s@.subrange(0, i as int)),
            decreases s.len() - i,
        {
            proof {
                assert(s@.subrange(0, i + 1).drop_last() =~= s@.subrange(0, i as int));
            }
            let mut e = String::from_str("- ");
            e.append(&format_commit_message(&s[i]));
            e.append("\n");
            lines.append(&e);
            i = i + 1;
        }
        proof {
            assert(s@.subrange(0, s@.len() as int) =~= s@);
        }
        commits = String::from_str("\nCOMMIT MESSAGES:\n");
        commits.append(&lines);
    }
    let mut r = String::from_str("TITLE: ");
    r.append(&pr.title);
    r.append("\n\nDESCRIPTION:\n");
    r.append(&pr.description);
    r.append("\n");
    r.append(&commits);
    r
}

/// The merge-request heading and description in GitLab's form.
pub open spec fn gitlab_text(pr: PullRequest) -> Seq<char> {
    "## "@ + pr.title@ + "\n\n"@ + pr.description@ + "\n"@
}

pub fn output_gitlab_pr(pr: &PullRequest) -> (r: String)
    ensures
        r@ == gitlab_text(*pr),
{
    let mut r = String::from_str("## ");
    r.append(&pr.title);
    r.append("\n\n");
    r.append(&pr.description);
    r.append("\n");
    r
}

/// The heading under which the complexity analysis joins the description.
pub open spec fn focus_heading() -> Seq<char> {
    "\n\n## 🔍 Review Focus Areas\n"@
}

impl PRGenerator {
    /// Appends the backend's complexity analysis of the diff to the
    /// description, under its own heading.
    pub fn enhance_pr_description(&self, pr: &mut PullRequest, analysis: &str)
        ensures
            final(pr).description@ == old(pr).description@ + focus_heading() + analysis@,
            final(pr).title == old(pr).title,
            final(pr).labels == old(pr).labels,
            final(pr).reviewers == old(pr).reviewers,
    {
        pr.description.append("\n\n## 🔍 Review Focus Areas\n");
        pr.description.append(analysis);
    }

    /// Adds the labels that the backend suggested, one per non-blank line.
    pub fn add_smart_labels(&self, pr: &mut PullRequest, suggested: &str)
        ensures
            final(pr).labels@.map_values(|l: String| string_view(l)) == old(pr).labels@.map_values(
                |l: String| string_view(l),
            ) + trimmed_nonblank(lines_of(suggested@)),
            final(pr).title == old(pr).title,
            final(pr).description == old(pr).description,
            final(pr).reviewers == old(pr).reviewers,
    {
        push_trimmed_lines(&mut pr.labels, suggested);
    }

    /// Adds the people that the backend suggested, one per non-blank line.
    pub fn suggest_reviewers(&self, pr: &mut PullRequest, suggested: &str)
        ensures
            final(pr).reviewers@.map_values(|l: String| string_view(l)) == old(pr).reviewers@.map_values(
                |l: String| string_view(l),
            ) + trimmed_nonblank(lines_of(suggested@)),
            final(pr).title == old(pr).title,
            final(pr).description == old(pr).description,
            final(pr).labels == old(pr).labels,
    {
        push_trimmed_lines(&mut pr.reviewers, suggested);
    }
}

} // verus!
