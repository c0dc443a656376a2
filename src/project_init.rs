//! Project initialisation: detecting an existing project and building the
//! description of a new one.
use vstd::prelude::*;
use crate::command::same_text;

verus! {

/// The files whose presence marks a directory as a Python project.
pub open spec fn is_project_marker(name: Seq<char>) -> bool {
    name == "pyproject.toml"@ || name == "setup.py"@ || name == "requirements.txt"@
}

fn is_marker(name: &str) -> (r: bool)
    ensures
        r == is_project_marker(name@),
{
    same_text(name, "pyproject.toml") || same_text(name, "setup.py") || same_text(name, "requirements.txt")
}

/// Whether a directory with these entries already holds a Python project:
/// one of `pyproject.toml`, `setup.py` and `requirements.txt` is among them.
pub fn is_existing_project(entries: &Vec<String>) -> (r: bool)
    ensures
        r == exists|i: int| 0 <= i < entries@.len() && is_project_marker(#[trigger] entries@[i]@),
{
    let mut i: usize = 0;
    while i < entries.len()
        invariant
            i <= entries@.len(),
            forall|j: int| 0 <= j < i ==> !is_project_marker(#[trigger] entries@[j]@),
        decreases entries.len() - i,
    {
        if is_marker(entries[i].as_str()) {
            return true;
        }
        i = i + 1;
    }
    false
}

/// Why initialisation failed.
#[derive(Debug)]
pub enum InitError {
    ProjectExists { path: String },
    InvalidPythonVersion { version: String },
    TemplateNotFound { name: String },
    Io { message: String },
}

/// Where templates and caches live, and the defaults of new projects.
#[derive(Debug)]
pub struct InitConfig {
    pub templates_dir: String,
    pub cache_dir: String,
    pub default_python: String,
    pub ai_enabled: bool,
    pub ai_model: String,
}

/// A project to create.
#[derive(Debug)]
pub struct Project {
    pub name: String,
    pub path: String,
    pub python_version: String,
    pub dependencies: Vec<String>,
}

/// Builds a `Project` step by step.
#[derive(Debug)]
pub struct ProjectBuilder {
    pub name: String,
    pub path: String,
    pub python_version: Option<String>,
    pub dependencies: Vec<String>,
}

impl ProjectBuilder {
    /// A project named `name` in the current directory, with no Python
    /// version chosen and no dependencies.
    pub fn new(name: String) -> (r: ProjectBuilder)
        ensures
            r.name == name,
            r.path@ == "."@,
            r.python_version is None,
            r.dependencies@.len() == 0,
    {
        ProjectBuilder { name, path: String::from_str("."), python_version: None, dependencies: Vec::new() }
    }

    pub fn path(self, path: String) -> (r: ProjectBuilder)
        ensures
            r.path == path,
            r.name == self.name,
            r.python_version == self.python_version,
            r.dependencies == self.dependencies,
    {
        ProjectBuilder { path, ..self }
    }

    pub fn python_version(self, version: String) -> (r: ProjectBuilder)
        ensures
            r.python_version == Some(version),
            r.name == self.name,
            r.path == self.path,
            r.dependencies == self.dependencies,
    {
        ProjectBuilder { python_version: Some(version), ..self }
    }

    /// Adds a dependency after those already added.
    pub fn add_dependency(self, dep: String) -> (r: ProjectBuilder)
        ensures
            r.dependencies@ == self.dependencies@.push(dep),
            r.name == self.name,
            r.path == self.path,
            r.python_version == self.python_version,
    {
        let mut b = self;
        b.dependencies.push(dep);
        b
    }

    /// The project, on `default_python` where no version was chosen.
    pub fn build(self, default_python: String) -> (r: Result<Project, InitError>)
        ensures
            r matches Ok(p) && p.name == self.name && p.path == self.path && p.dependencies
                == self.dependencies && p.python_version == (match self.python_version {
                Some(v) => v,
                None => default_python,
            }),
    {
        let python_version = match self.python_version {
            Some(v) => v,
            None => default_python,
        };
        Ok(Project { name: self.name, path: self.path, python_version, dependencies: self.dependencies })
    }
}

/// The dependencies predicted for a kind of project; no prediction is made yet.
pub fn predict_dependencies(project_type: &str) -> (r: Vec<String>)
    ensures
        r@.len() == 0,
{
    Vec::new()
}

/// Generated boilerplate for a project; none is generated yet.
pub fn generate_boilerplate(project_name: &str) -> (r: String)
    ensures
        r@.len() == 0,
{
    String::new()
}

/// Suggested improvements of a piece of code; none are made yet.
pub fn suggest_improvements(code: &str) -> (r: Vec<String>)
    ensures
        r@.len() == 0,
{
    Vec::new()
}

/// A project template: its name, files and dependencies.
#[derive(Debug)]
pub struct Template {
    pub name: String,
    pub files: Vec<ProjectFile>,
    pub dependencies: Vec<String>,
}

/// A file of a template: its path and content.
#[derive(Debug)]
pub struct ProjectFile {
    pub path: String,
    pub content: String,
}

impl Template {
    /// The empty template named `default`.
    pub fn empty() -> (r: Template)
        ensures
            r.name@ == "default"@,
            r.files@.len() == 0,
            r.dependencies@.len() == 0,
    {
        Template { name: String::from_str("default"), files: Vec::new(), dependencies: Vec::new() }
    }
}

} // verus!
