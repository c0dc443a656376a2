//! Rust extensions of Python projects: where they live and which hot paths
//! of Python code could move to Rust.
use vstd::prelude::*;
use crate::templates::{
    data_processing_template, data_processing_text, numerical_loop_template, numerical_loop_text,
    python_to_rust_template, python_to_rust_text,
};
use crate::text::{contains_text, has_substring};

verus! {

/// Manages the Rust extensions of the project at `project_root`.
#[derive(Debug)]
pub struct RustExtensionManager {
    pub project_root: String,
}

impl RustExtensionManager {
    pub fn new(project_root: String) -> (r: RustExtensionManager)
        ensures
            r.project_root == project_root,
    {
        RustExtensionManager { project_root }
    }
}

/// A place in Python code that Rust could speed up.
#[derive(Debug)]
pub struct OptimizationSuggestion {
    pub line: usize,
    pub description: String,
    pub estimated_speedup: String,
    pub rust_template: Option<String>,
}

/// Suggests Rust for the hot paths of a Python project.
#[derive(Debug)]
pub struct RustOptimizer {
    pub project_root: String,
}

/// A numerical loop: the code mentions both `for` and `range`.
pub open spec fn has_numeric_loop(code: Seq<char>) -> bool {
    has_substring(code, "for"@) && has_substring(code, "range"@)
}

/// Data processing: the code mentions `numpy` or `pandas`.
pub open spec fn has_data_processing(code: Seq<char>) -> bool {
    has_substring(code, "numpy"@) || has_substring(code, "pandas"@)
}

pub open spec fn suggestion_is(
    s: OptimizationSuggestion,
    description: Seq<char>,
    speedup: Seq<char>,
    template: Seq<char>,
) -> bool {
    &&& s.line == 0
    &&& s.description@ == description
    &&& s.estimated_speedup@ == speedup
    &&& s.rust_template matches Some(t) && t@ == template
}

impl RustOptimizer {
    pub fn new(project_root: String) -> (r: RustOptimizer)
        ensures
            r.project_root == project_root,
    {
        RustOptimizer { project_root }
    }

    /// The suggestions for Python source `code`: one for a numerical loop,
    /// then one for data processing, each where the code shows it.
    pub fn suggest_optimizations(&self, code: &str) -> (r: Vec<OptimizationSuggestion>)
        ensures
            r@.len() == (if has_numeric_loop(code@) { 1int } else { 0 }) + (if has_data_processing(code@) { 1int } else { 0 }),
            has_numeric_loop(code@) ==> suggestion_is(
                r@[0],
                "Numerical loop detected - could be optimized with Rust"@,
                "10-100x"@,
                numerical_loop_text(),
            ),
            has_data_processing(code@) ==> suggestion_is(
                r@.last(),
                "Data processing detected - consider Rust for performance"@,
                "5-50x"@,
                data_processing_text(),
            ),
    {
        let mut r: Vec<OptimizationSuggestion> = Vec::new();
        if contains_text(code, "for") && contains_text(code, "range") {
            r.push(
                OptimizationSuggestion {
                    line: 0,
                    description: String::from_str("Numerical loop detected - could be optimized with Rust"),
                    estimated_speedup: String::from_str("10-100x"),
                    rust_template: Some(numerical_loop_template()),
                },
            );
        }
        if contains_text(code, "numpy") || contains_text(code, "pandas") {
            r.push(
                OptimizationSuggestion {
                    line: 0,
                    description: String::from_str("Data processing detected - consider Rust for performance"),
                    estimated_speedup: String::from_str("5-50x"),
                    rust_template: Some(data_processing_template()),
                },
            );
        }
        r
    }

    /// A Rust skeleton for the Python function `function_name`.
    pub fn convert_to_rust(&self, py_code: &str, function_name: &str) -> (r: String)
        ensures
            r@ == python_to_rust_text(function_name@),
    {
        python_to_rust_template(function_name, py_code)
    }
}

} // verus!
