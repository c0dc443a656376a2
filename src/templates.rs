//! Source templates for Rust extensions of Python projects.
use vstd::prelude::*;

verus! {

pub open spec fn cargo_toml_text(name: Seq<char>) -> Seq<char> {
    "[package]\nname = \""@ + name + "\"\nversion = \"0.1.0\"\nedition = \"2021\"\n\n[lib]\nname = \""@ + name + "\"\ncrate-type = [\"cdylib\"]\n\n[dependencies]\npyo3 = { version = \"0.20\", features = [\"extension-module\"] }\nnumpy = \"0.20\"\nndarray = \"0.15\"\n\n[profile.release]\nopt-level = 3\nlto = true\ncodegen-units = 1\n"@
}

pub fn cargo_toml_template(name: &str) -> (r: String)
    ensures
        r@ == cargo_toml_text(name@),
{
    let mut r = String::from_str("[package]\nname = \"");
    r.append(name);
    r.append("\"\nversion = \"0.1.0\"\nedition = \"2021\"\n\n[lib]\nname = \"");
    r.append(name);
    r.append("\"\ncrate-type = [\"cdylib\"]\n\n[dependencies]\npyo3 = { version = \"0.20\", features = [\"extension-module\"] }\nnumpy = \"0.20\"\nndarray = \"0.15\"\n\n[profile.release]\nopt-level = 3\nlto = true\ncodegen-units = 1\n");
    r
}

pub open spec fn lib_rs_text(name: Seq<char>) -> Seq<char> {
    "use pyo3::prelude::*;\nuse pyo3::wrap_pyfunction;\n\n/// Example function that adds two numbers\n#[pyfunction]\nfn add(a: i64, b: i64) -> PyResult<i64> {\n    Ok(a + b)\n}\n\n/// Example function that processes a list\n#[pyfunction]\nfn process_list(items: Vec<f64>) -> PyResult<f64> {\n    Ok(items.iter().sum())\n}\n\n/// Example class\n#[pyclass]\nstruct Counter {\n    count: i64,\n}\n\n#[pymethods]\nimpl Counter {\n    #[new]\n    fn new() -> Self {\n        Counter { count: 0 }\n    }\n    \n    fn increment(&mut self) -> PyResult<()> {\n        self.count += 1;\n        Ok(())\n    }\n    \n    fn get_count(&self) -> PyResult<i64> {\n        Ok(self.count)\n    }\n}\n\n/// Module initialization\n#[pymodule]\nfn "@ + name + "(_py: Python, m: &PyModule) -> PyResult<()> {\n    m.add_function(wrap_pyfunction!(add, m)?)?;\n    m.add_function(wrap_pyfunction!(process_list, m)?)?;\n    m.add_class::<Counter>()?;\n    Ok(())\n}\n"@
}

pub fn lib_rs_template(name: &str) -> (r: String)
    ensures
        r@ == lib_rs_text(name@),
{
    let mut r = String::from_str("use pyo3::prelude::*;\nuse pyo3::wrap_pyfunction;\n\n/// Example function that adds two numbers\n#[pyfunction]\nfn add(a: i64, b: i64) -> PyResult<i64> {\n    Ok(a + b)\n}\n\n/// Example function that processes a list\n#[pyfunction]\nfn process_list(items: Vec<f64>) -> PyResult<f64> {\n    Ok(items.iter().sum())\n}\n\n/// Example class\n#[pyclass]\nstruct Counter {\n    count: i64,\n}\n\n#[pymethods]\nimpl Counter {\n    #[new]\n    fn new() -> Self {\n        Counter { count: 0 }\n    }\n    \n    fn increment(&mut self) -> PyResult<()> {\n        self.count += 1;\n        Ok(())\n    }\n    \n    fn get_count(&self) -> PyResult<i64> {\n        Ok(self.count)\n    }\n}\n\n/// Module initialization\n#[pymodule]\nfn ");
    r.append(name);
    r.append("(_py: Python, m: &PyModule) -> PyResult<()> {\n    m.add_function(wrap_pyfunction!(add, m)?)?;\n    m.add_function(wrap_pyfunction!(process_list, m)?)?;\n    m.add_class::<Counter>()?;\n    Ok(())\n}\n");
    r
}

pub open spec fn build_py_text(name: Seq<char>) -> Seq<char> {
    "#!/usr/bin/env python3\n\"\"\"Build script for "@ + name + " Rust extension\"\"\"\n\nimport subprocess\nimport sys\nfrom pathlib import Path\n\ndef build():\n    \\\"\\\"\\\"Build the Rust extension using maturin\\\"\\\"\\\"\n    try:\n        subprocess.run(\n            [\"maturin\", \"build\", \"--release\"],\n            check=True,\n            cwd=Path(__file__).parent\n        )\n        print(f\"✅ Successfully built "@ + name + "\")\n    except subprocess.CalledProcessError as e:\n        print(f\"❌ Build failed: {e}\")\n        sys.exit(1)\n    except FileNotFoundError:\n        print(\"❌ maturin not found. Install with: pip install maturin\")\n        sys.exit(1)\n\nif __name__ == \"__main__\":\n    build()\n"@
}

pub fn build_py_template(name: &str) -> (r: String)
    ensures
        r@ == build_py_text(name@),
{
    let mut r = String::from_str("#!/usr/bin/env python3\n\"\"\"Build script for ");
    r.append(name);
    r.append(" Rust extension\"\"\"\n\nimport subprocess\nimport sys\nfrom pathlib import Path\n\ndef build():\n    \\\"\\\"\\\"Build the Rust extension using maturin\\\"\\\"\\\"\n    try:\n        subprocess.run(\n            [\"maturin\", \"build\", \"--release\"],\n            check=True,\n            cwd=Path(__file__).parent\n        )\n        print(f\"✅ Successfully built ");
    r.append(name);
    r.append("\")\n    except subprocess.CalledProcessError as e:\n        print(f\"❌ Build failed: {e}\")\n        sys.exit(1)\n    except FileNotFoundError:\n        print(\"❌ maturin not found. Install with: pip install maturin\")\n        sys.exit(1)\n\nif __name__ == \"__main__\":\n    build()\n");
    r
}

pub open spec fn pyproject_section_text(extension_name: Seq<char>) -> Seq<char> {
    "[build-system]\nrequires = [\"maturin>=1.0,<2.0\"]\nbuild-backend = \"maturin\"\n\n[project]\nname = \""@ + extension_name + "\"\nversion = \"0.1.0\"\ndescription = \"Python project with Rust extensions\"\nrequires-python = \">=3.8\"\n\n[tool.maturin]\nfeatures = [\"pyo3/extension-module\"]\nmodule-name = \""@ + extension_name + "\"\n"@
}

pub fn pyproject_rust_section(extension_name: &str) -> (r: String)
    ensures
        r@ == pyproject_section_text(extension_name@),
{
    let mut r = String::from_str("[build-system]\nrequires = [\"maturin>=1.0,<2.0\"]\nbuild-backend = \"maturin\"\n\n[project]\nname = \"");
    r.append(extension_name);
    r.append("\"\nversion = \"0.1.0\"\ndescription = \"Python project with Rust extensions\"\nrequires-python = \">=3.8\"\n\n[tool.maturin]\nfeatures = [\"pyo3/extension-module\"]\nmodule-name = \"");
    r.append(extension_name);
    r.append("\"\n");
    r
}

pub open spec fn numerical_loop_text() -> Seq<char> {
    "use pyo3::prelude::*;\nuse ndarray::Array1;\n\n#[pyfunction]\nfn fast_loop(n: usize) -> PyResult<Vec<f64>> {\n    let mut result = Vec::with_capacity(n);\n    for i in 0..n {\n        // Your computation here\n        result.push((i as f64).sqrt());\n    }\n    Ok(result)\n}\n\n#[pyfunction]\nfn vectorized_operation(data: Vec<f64>) -> PyResult<Vec<f64>> {\n    let arr = Array1::from_vec(data);\n    let result = arr.mapv(|x| x.powi(2) + 2.0 * x + 1.0);\n    Ok(result.to_vec())\n}\n"@
}

pub fn numerical_loop_template() -> (r: String)
    ensures
        r@ == numerical_loop_text(),
{
    String::from_str("use pyo3::prelude::*;\nuse ndarray::Array1;\n\n#[pyfunction]\nfn fast_loop(n: usize) -> PyResult<Vec<f64>> {\n    let mut result = Vec::with_capacity(n);\n    for i in 0..n {\n        // Your computation here\n        result.push((i as f64).sqrt());\n    }\n    Ok(result)\n}\n\n#[pyfunction]\nfn vectorized_operation(data: Vec<f64>) -> PyResult<Vec<f64>> {\n    let arr = Array1::from_vec(data);\n    let result = arr.mapv(|x| x.powi(2) + 2.0 * x + 1.0);\n    Ok(result.to_vec())\n}\n")
}

pub open spec fn data_processing_text() -> Seq<char> {
    "use pyo3::prelude::*;\nuse numpy::{PyArray1, PyArray2};\nuse ndarray::{Array1, Array2, Axis};\n\n#[pyfunction]\nfn process_array<'py>(\n    py: Python<'py>,\n    data: &PyArray1<f64>\n) -> PyResult<&'py PyArray1<f64>> {\n    let array = unsafe { data.as_array() };\n    let result: Array1<f64> = array.mapv(|x| x.ln_1p());\n    Ok(PyArray1::from_array(py, &result))\n}\n\n#[pyfunction]\nfn matrix_operation<'py>(\n    py: Python<'py>,\n    matrix: &PyArray2<f64>\n) -> PyResult<&'py PyArray1<f64>> {\n    let arr = unsafe { matrix.as_array() };\n    let means = arr.mean_axis(Axis(0)).unwrap();\n    Ok(PyArray1::from_array(py, &means))\n}\n"@
}

pub fn data_processing_template() -> (r: String)
    ensures
        r@ == data_processing_text(),
{
    String::from_str("use pyo3::prelude::*;\nuse numpy::{PyArray1, PyArray2};\nuse ndarray::{Array1, Array2, Axis};\n\n#[pyfunction]\nfn process_array<'py>(\n    py: Python<'py>,\n    data: &PyArray1<f64>\n) -> PyResult<&'py PyArray1<f64>> {\n    let array = unsafe { data.as_array() };\n    let result: Array1<f64> = array.mapv(|x| x.ln_1p());\n    Ok(PyArray1::from_array(py, &result))\n}\n\n#[pyfunction]\nfn matrix_operation<'py>(\n    py: Python<'py>,\n    matrix: &PyArray2<f64>\n) -> PyResult<&'py PyArray1<f64>> {\n    let arr = unsafe { matrix.as_array() };\n    let means = arr.mean_axis(Axis(0)).unwrap();\n    Ok(PyArray1::from_array(py, &means))\n}\n")
}

pub open spec fn python_to_rust_text(function_name: Seq<char>) -> Seq<char> {
    "use pyo3::prelude::*;\n\n/// Rust implementation of "@ + function_name + "\n#[pyfunction]\nfn "@ + function_name + "(/* parameters */) -> PyResult</* return type */> {\n    // TODO: Implement the function logic\n    // Original Python code has been analyzed\n    // This is an optimized Rust version\n    \n    Ok(/* result */)\n}\n"@
}

pub fn python_to_rust_template(function_name: &str, _py_code: &str) -> (r: String)
    ensures
        r@ == python_to_rust_text(function_name@),
{
    let mut r = String::from_str("use pyo3::prelude::*;\n\n/// Rust implementation of ");
    r.append(function_name);
    r.append("\n#[pyfunction]\nfn ");
    r.append(function_name);
    r.append("(/* parameters */) -> PyResult</* return type */> {\n    // TODO: Implement the function logic\n    // Original Python code has been analyzed\n    // This is an optimized Rust version\n    \n    Ok(/* result */)\n}\n");
    r
}

pub open spec fn async_text() -> Seq<char> {
    "use pyo3::prelude::*;\nuse pyo3_asyncio;\nuse tokio;\n\n#[pyfunction]\nfn async_operation(py: Python) -> PyResult<&PyAny> {\n    pyo3_asyncio::tokio::future_into_py(py, async {\n        // Async operation here\n        tokio::time::sleep(tokio::time::Duration::from_secs(1)).await;\n        Ok(Python::with_gil(|py| py.None()))\n    })\n}\n"@
}

pub fn async_template() -> (r: String)
    ensures
        r@ == async_text(),
{
    String::from_str("use pyo3::prelude::*;\nuse pyo3_asyncio;\nuse tokio;\n\n#[pyfunction]\nfn async_operation(py: Python) -> PyResult<&PyAny> {\n    pyo3_asyncio::tokio::future_into_py(py, async {\n        // Async operation here\n        tokio::time::sleep(tokio::time::Duration::from_secs(1)).await;\n        Ok(Python::with_gil(|py| py.None()))\n    })\n}\n")
}

} // verus!
