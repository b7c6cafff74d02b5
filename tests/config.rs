use precommit_gen::config::{Config, Hook};
use precommit_gen::schema::{Field, Malformed};
use precommit_gen::stage::Stage;
use precommit_gen::template::Language;
use precommit_gen::yaml::Node;

const LANGUAGES: [Language; 3] = [Language::Python, Language::Rust, Language::Go];

#[test]
fn every_template_parses() {
    for l in LANGUAGES {
        let c = Config::for_language(l).unwrap();
        assert!(!c.repos.is_empty());
        for r in &c.repos {
            assert!(!r.hooks.is_empty());
        }
    }
}

#[test]
fn every_template_round_trips() {
    for l in LANGUAGES {
        let c = Config::for_language(l).unwrap();
        let text = c.serialize().unwrap();
        let again = Config::parse(&text).unwrap();
        assert_eq!(again, c);
        assert_eq!(again.serialize().unwrap(), text);
    }
}

#[test]
fn templates_get_their_defaults() {
    let c = Config::for_language(Language::Rust).unwrap();
    assert!(c.fail_fast);
    let h = &c.repos[0].hooks[0];
    assert_eq!(h.id, "trailing-whitespace");
    assert_eq!(h.name, None);
    assert_eq!(h.entry, None);
    assert_eq!(h.language, "system");
    assert!(!h.always_run);
    assert!(!h.verbose);
    assert!(!h.pass_filenames);
    assert_eq!(h.stages, vec![Stage::Commit]);
    assert!(h.types.is_empty());
    assert_eq!(h.files, "");
    assert_eq!(h.args, None);
    assert_eq!(c.repos[0].rev.as_deref(), Some("v4.4.0"));
    assert_eq!(c.repos[1].repo, "local");
    assert_eq!(c.repos[1].rev, None);
}

#[test]
fn given_values_are_kept() {
    let c = Config::for_language(Language::Python).unwrap();
    let h = &c.repos[1].hooks[2];
    assert_eq!(h.id, "pytest");
    assert_eq!(h.name.as_deref(), Some("pytest"));
    assert!(h.always_run);
    assert_eq!(h.stages, vec![Stage::Push]);
    let b = &c.repos[1].hooks[0];
    assert!(b.pass_filenames);
    assert_eq!(b.types, vec!["python".to_string()]);
    let g = Config::for_language(Language::Go).unwrap();
    assert_eq!(g.repos[1].hooks[2].args, Some(vec!["-race".to_string()]));
}

#[test]
fn serialized_text_leaves_out_absent_fields() {
    let text = "repos:\n  - repo: local\n    hooks:\n      - id: x\n";
    let c = Config::parse(text).unwrap();
    let out = c.serialize().unwrap();
    let keys: Vec<&str> = out.lines().map(|l| l.trim_start().trim_start_matches("- ")).collect();
    assert!(!keys.iter().any(|l| l.starts_with("rev:")));
    assert!(!keys.iter().any(|l| l.starts_with("name:")));
    assert!(!keys.iter().any(|l| l.starts_with("entry:")));
    assert!(!keys.iter().any(|l| l.starts_with("args:")));
    assert!(keys.iter().any(|l| l.starts_with("id:")));
    assert!(out.contains("language: system"));
    assert!(out.contains("fail_fast: true"));
    assert!(out.contains("commit"));
    assert!(out.contains("pass_filenames: false"));
}

#[test]
fn stage_tokens_survive_a_round_trip() {
    let text = "repos:\n  - repo: local\n    hooks:\n      - id: x\n        stages: [commit, merge-commit, push, prepare-commit-msg, commit-msg, post-checkout, post-commit, post-merge, post-rewrite, manual]\n";
    let c = Config::parse(text).unwrap();
    let again = Config::parse(&c.serialize().unwrap()).unwrap();
    assert_eq!(
        again.repos[0].hooks[0].stages,
        vec![
            Stage::Commit,
            Stage::MergeCommit,
            Stage::Push,
            Stage::PrepareCommitMsg,
            Stage::CommitMsg,
            Stage::PostCheckout,
            Stage::PostCommit,
            Stage::PostMerge,
            Stage::PostRewrite,
            Stage::Manual,
        ]
    );
}

#[test]
fn unknown_stage_is_malformed() {
    let text = "repos:\n  - repo: local\n    hooks:\n      - id: x\n        stages: [commitX]\n";
    assert_eq!(Config::parse(text), Err(Malformed::UnknownStage));
}

#[test]
fn malformed_documents() {
    assert_eq!(Config::parse("repos: ["), Err(Malformed::Unreadable));
    assert_eq!(Config::parse("- a\n- b\n"), Err(Malformed::WrongType(Field::Document)));
    assert_eq!(Config::parse("fail_fast: true\n"), Err(Malformed::Missing(Field::Repos)));
    assert_eq!(Config::parse("repos: 5\n"), Err(Malformed::WrongType(Field::Repos)));
    assert_eq!(Config::parse("repos:\n  - rev: v1\n    hooks: []\n"), Err(Malformed::Missing(Field::Repo)));
    assert_eq!(Config::parse("repos:\n  - repo: local\n"), Err(Malformed::Missing(Field::Hooks)));
    assert_eq!(Config::parse("repos:\n  - repo: local\n    hooks: []\n"), Err(Malformed::NoHooks));
    assert_eq!(
        Config::parse("repos:\n  - repo: local\n    hooks:\n      - name: x\n"),
        Err(Malformed::Missing(Field::Id))
    );
    assert_eq!(
        Config::parse("repos:\n  - repo: local\n    hooks:\n      - id: x\n        verbose: [1]\n"),
        Err(Malformed::WrongType(Field::Verbose))
    );
    assert_eq!(
        Config::parse("repos:\n  - repo: local\n    hooks:\n      - id: x\n        types: [[a]]\n"),
        Err(Malformed::WrongType(Field::Types))
    );
    assert_eq!(
        Config::parse("repos: []\nfail_fast: maybe\n"),
        Err(Malformed::WrongType(Field::FailFast))
    );
}

#[test]
fn empty_document_and_explicit_nulls() {
    let c = Config::parse("repos: []\nfail_fast: false\n").unwrap();
    assert!(c.repos.is_empty());
    assert!(!c.fail_fast);
    let c = Config::parse("repos:\n  - repo: local\n    rev: ~\n    hooks:\n      - id: x\n        language: ~\n").unwrap();
    assert_eq!(c.repos[0].rev, None);
    assert_eq!(c.repos[0].hooks[0].language, "system");
    assert!(c.fail_fast);
}

#[test]
fn hook_from_a_tree() {
    let n = Node::Table(vec![
        ("id".to_string(), Node::Text("fmt".to_string())),
        ("verbose".to_string(), Node::Bool(true)),
        ("args".to_string(), Node::List(vec![Node::Text("-q".to_string())])),
    ]);
    let h = Hook::from_node(&n).unwrap();
    assert_eq!(h.id, "fmt");
    assert!(h.verbose);
    assert_eq!(h.args, Some(vec!["-q".to_string()]));
    assert_eq!(h.stages, vec![Stage::Commit]);
    assert_eq!(Hook::from_node(&Node::Null), Err(Malformed::WrongType(Field::Hooks)));
}

#[test]
fn document_tree_round_trips() {
    let c = Config::for_language(Language::Go).unwrap();
    assert_eq!(Config::from_node(&c.to_node()).unwrap(), c);
}

#[test]
fn serialization_is_deterministic() {
    for l in LANGUAGES {
        let a = Config::for_language(l).unwrap();
        let b = Config::for_language(l).unwrap();
        assert_eq!(a, b);
        assert_eq!(a.serialize(), b.serialize());
        assert!(a.serialize().is_some());
    }
}
