//! The catalog of project templates that the `template` command shows.
use vstd::prelude::*;
use crate::command::same_text;

verus! {

/// The listing of the available templates.
pub open spec fn template_listing() -> Seq<char> {
    "📋 Available Project Templates\n\nWeb API:\n  fastapi - Production-ready FastAPI with async, auth, and testing\n\nData Science:\n  jupyter - Jupyter notebook with common data science libraries\n  ml-pipeline - Machine learning pipeline with MLflow\n\nCLI Tools:\n  cli-simple - Basic Click CLI application\n  cli-advanced - CLI with subcommands and plugins\n\nComing Soon:\n  django  - Django web framework with admin and ORM\n  flask   - Lightweight Flask application\n\nUse 'openrye init --template <name>' to create a project\nUse 'openrye template install <name>' to install from marketplace\n"@
}

/// The lines that list the available templates.
pub fn list_templates() -> (r: String)
    ensures
        r@ == template_listing(),
{
    String::from_str(
        "📋 Available Project Templates\n\nWeb API:\n  fastapi - Production-ready FastAPI with async, auth, and testing\n\nData Science:\n  jupyter - Jupyter notebook with common data science libraries\n  ml-pipeline - Machine learning pipeline with MLflow\n\nCLI Tools:\n  cli-simple - Basic Click CLI application\n  cli-advanced - CLI with subcommands and plugins\n\nComing Soon:\n  django  - Django web framework with admin and ORM\n  flask   - Lightweight Flask application\n\nUse 'openrye init --template <name>' to create a project\nUse 'openrye template install <name>' to install from marketplace\n",
    )
}

pub open spec fn fastapi_details() -> Seq<char> {
    "FastAPI Template\n================\nA production-ready FastAPI application with:\n- Async/await support\n- JWT authentication\n- SQLAlchemy ORM\n- Docker configuration\n- Testing with pytest\n- Pre-commit hooks\n\nDependencies:\n  fastapi>=0.104.0\n  uvicorn[standard]\n  sqlalchemy>=2.0\n  pydantic>=2.0\n  pytest>=7.0\n"@
}

/// The details of a template: those of `fastapi`, or a note that the name is unknown.
pub open spec fn template_details(name: Seq<char>) -> Seq<char> {
    if name == "fastapi"@ {
        fastapi_details()
    } else {
        "Template '"@ + name + "' not found\nUse 'openrye template list' to see available templates\n"@
    }
}

/// The lines that describe the template `name`.
pub fn show_template_details(name: &str) -> (r: String)
    ensures
        r@ == template_details(name@),
{
    if same_text(name, "fastapi") {
        String::from_str(
            "FastAPI Template\n================\nA production-ready FastAPI application with:\n- Async/await support\n- JWT authentication\n- SQLAlchemy ORM\n- Docker configuration\n- Testing with pytest\n- Pre-commit hooks\n\nDependencies:\n  fastapi>=0.104.0\n  uvicorn[standard]\n  sqlalchemy>=2.0\n  pydantic>=2.0\n  pytest>=7.0\n",
        )
    } else {
        let mut r = String::from_str("Template '");
        r.append(name);
        r.append("' not found\nUse 'openrye template list' to see available templates\n");
        r
    }
}

/// A client of the template marketplace.
#[derive(Debug)]
pub struct MarketplaceClient {
    pub base_url: String,
}

impl MarketplaceClient {
    pub fn new(base_url: String) -> (r: MarketplaceClient)
        ensures
            r.base_url == base_url,
    {
        MarketplaceClient { base_url }
    }
}

} // verus!
