use precommit_gen::config::Config;
use precommit_gen::defaults::{default_false, default_files, default_language, default_stages, default_true};
use precommit_gen::generate::{check_destination, config_file_name, find_project_root, generate, select_language, GenError};
use precommit_gen::stage::Stage;
use precommit_gen::template::Language;

#[test]
fn selector_accepts_the_three_languages() {
    assert_eq!(select_language("python"), Ok(Language::Python));
    assert_eq!(select_language("rust"), Ok(Language::Rust));
    assert_eq!(select_language("go"), Ok(Language::Go));
    assert_eq!("rust".parse::<Language>(), Ok(Language::Rust));
}

#[test]
fn selector_refuses_other_tokens() {
    for t in ["java", "", "Rust", "python ", "golang", "c++"] {
        assert_eq!(select_language(t), Err(GenError::UnsupportedSelector(t.to_string())));
        assert_eq!(generate(t, false, false), Err(GenError::UnsupportedSelector(t.to_string())));
    }
}

#[test]
fn existing_file_blocks_without_overwrite() {
    assert_eq!(check_destination(true, false), Err(GenError::OutputExists));
    assert_eq!(generate("python", true, false), Err(GenError::OutputExists));
}

#[test]
fn existing_file_is_overwritten_when_asked() {
    assert_eq!(check_destination(true, true), Ok(()));
    assert_eq!(check_destination(false, false), Ok(()));
    assert_eq!(check_destination(false, true), Ok(()));
    let text = generate("go", true, true).unwrap();
    let expected = Config::for_language(Language::Go).unwrap().serialize().unwrap();
    assert_eq!(text, expected);
}

#[test]
fn rust_scenario() {
    let text = generate("rust", false, false).unwrap();
    let c = Config::parse(&text).unwrap();
    assert!(c.fail_fast);
    assert_eq!(c.repos[0].hooks[0].stages, vec![Stage::Commit]);
    assert_eq!(c, Config::for_language(Language::Rust).unwrap());
}

#[test]
fn unsupported_selector_wins_over_existing_file() {
    assert_eq!(generate("java", true, false), Err(GenError::UnsupportedSelector("java".to_string())));
}

#[test]
fn default_values() {
    assert!(default_true());
    assert!(!default_false());
    assert_eq!(default_stages(), vec![Stage::Commit]);
    assert_eq!(default_language(), "system");
    assert_eq!(default_files(), "");
}

#[test]
fn destination_path() {
    assert_eq!(find_project_root(), ".");
    assert_eq!(config_file_name(), ".pre-commit-config.yaml");
}
