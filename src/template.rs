use vstd::prelude::*;

use crate::config::{viewed, Config};
use crate::schema::{config_wf, parse_text, Malformed};
use crate::text::same_text;

verus! {

/// The configuration template for Python projects.
pub const PYTHON_TEMPLATE: &'static str = "repos:\n  - repo: https://github.com/pre-commit/pre-commit-hooks\n    rev: v4.4.0\n    hooks:\n      - id: trailing-whitespace\n      - id: end-of-file-fixer\n      - id: check-yaml\n      - id: debug-statements\n  - repo: local\n    hooks:\n      - id: black\n        name: black\n        entry: black\n        types: [python]\n        pass_filenames: true\n      - id: flake8\n        name: flake8\n        entry: flake8\n        types: [python]\n        pass_filenames: true\n      - id: pytest\n        name: pytest\n        entry: pytest\n        always_run: true\n        stages: [push]\n";

/// The configuration template for Rust projects.
pub const RUST_TEMPLATE: &'static str = "repos:\n  - repo: https://github.com/pre-commit/pre-commit-hooks\n    rev: v4.4.0\n    hooks:\n      - id: trailing-whitespace\n      - id: end-of-file-fixer\n      - id: check-yaml\n      - id: check-toml\n  - repo: local\n    hooks:\n      - id: cargo-fmt\n        name: cargo fmt\n        entry: cargo fmt --all --\n        types: [rust]\n      - id: cargo-clippy\n        name: cargo clippy\n        entry: cargo clippy --all-targets\n        types: [rust]\n        args: [\"--\", \"-D\", \"warnings\"]\n      - id: cargo-test\n        name: cargo test\n        entry: cargo test\n        always_run: true\n        stages: [push]\n";

/// The configuration template for Go projects.
pub const GO_TEMPLATE: &'static str = "repos:\n  - repo: https://github.com/pre-commit/pre-commit-hooks\n    rev: v4.4.0\n    hooks:\n      - id: trailing-whitespace\n      - id: end-of-file-fixer\n      - id: check-yaml\n  - repo: local\n    hooks:\n      - id: gofmt\n        name: gofmt\n        entry: gofmt -l -w\n        types: [go]\n        pass_filenames: true\n      - id: go-vet\n        name: go vet\n        entry: go vet ./...\n        types: [go]\n      - id: go-test\n        name: go test\n        entry: go test ./...\n        args: [\"-race\"]\n        always_run: true\n        stages: [push]\n";

/// A language that has a built-in template.
#[derive(Debug, Clone, Copy, PartialEq, Eq, Structural)]
pub enum Language {
    Python,
    Rust,
    Go,
}

/// The language that a selector token names, if any.
pub open spec fn language_of(t: Seq<char>) -> Option<Language> {
    if t == "python"@ {
        Some(Language::Python)
    } else if t == "rust"@ {
        Some(Language::Rust)
    } else if t == "go"@ {
        Some(Language::Go)
    } else {
        None
    }
}

/// The template text of each language.
pub open spec fn template_text(l: Language) -> Seq<char> {
    match l {
        Language::Python => PYTHON_TEMPLATE@,
        Language::Rust => RUST_TEMPLATE@,
        Language::Go => GO_TEMPLATE@,
    }
}

impl Language {
    /// The language that selector `t` names; any other token is refused.
    pub fn from_token(t: &str) -> (r: Option<Language>)
        ensures
            r == language_of(t@),
    {
        if same_text(t, "python") {
            Some(Language::Python)
        } else if same_text(t, "rust") {
            Some(Language::Rust)
        } else if same_text(t, "go") {
            Some(Language::Go)
        } else {
            None
        }
    }

    /// The built-in template of this language.
    pub fn template(&self) -> (r: &'static str)
        ensures
            r@ == template_text(*self),
    {
        match self {
            Language::Python => PYTHON_TEMPLATE,
            Language::Rust => RUST_TEMPLATE,
            Language::Go => GO_TEMPLATE,
        }
    }
}

impl Config {
    /// The document that this language's template describes, with every
    /// default filled in.
    pub fn for_language(language: Language) -> (r: Result<Config, Malformed>)
        ensures
            viewed(r) == parse_text(template_text(language)),
            r is Ok ==> config_wf(r->Ok_0@),
    {
        Config::parse(language.template())
    }
}

} // verus!
