use vstd::prelude::*;

use crate::config::Config;
use crate::schema::{encode_config, parse_text, Malformed};
use crate::template::{language_of, template_text, Language};
use crate::yaml::yaml_text;

verus! {

/// Why a configuration file was not produced.
#[derive(Debug, PartialEq, Eq)]
pub enum GenError {
    /// The language selector names no built-in template.
    UnsupportedSelector(String),
    /// The destination exists and overwriting was not asked for.
    OutputExists,
    /// A built-in template does not describe a document.
    TemplateMalformed(Malformed),
    /// The document could not be written as YAML text.
    Unserializable,
    /// The file system refused to create or write the destination.
    IoFailure(String),
}

/// The directory the configuration file is written to: the working directory.
pub fn find_project_root() -> (r: String)
    ensures
        r@ == "."@,
{
    ".".to_owned()
}

/// The name of the configuration file inside the project root.
pub fn config_file_name() -> (r: &'static str)
    ensures
        r@ == ".pre-commit-config.yaml"@,
{
    ".pre-commit-config.yaml"
}

/// Resolves a language selector token.
pub fn select_language(token: &str) -> (r: Result<Language, GenError>)
    ensures
        match r {
            Ok(l) => language_of(token@) == Some(l),
            Err(e) => language_of(token@) is None && e is UnsupportedSelector && e->UnsupportedSelector_0@ == token@,
        },
{
    match Language::from_token(token) {
        Some(l) => Ok(l),
        None => Err(GenError::UnsupportedSelector(token.to_owned())),
    }
}

impl std::str::FromStr for Language {
    type Err = GenError;

    fn from_str(s: &str) -> Result<Language, GenError> {
        select_language(s)
    }
}

/// Whether the destination may be written: it must not exist, unless
/// overwriting was asked for.
pub fn check_destination(present: bool, overwrite: bool) -> (r: Result<(), GenError>)
    ensures
        (r is Ok) <==> (!present || overwrite),
        r is Err ==> (r->Err_0 is OutputExists),
{
    if present && !overwrite {
        Err(GenError::OutputExists)
    } else {
        Ok(())
    }
}

/// The text of the configuration file for selector `token`, given whether
/// the destination already exists and whether overwriting was asked for.
/// Nothing is to be written unless this returns `Ok`.
pub fn generate(token: &str, present: bool, overwrite: bool) -> (r: Result<String, GenError>)
    ensures
        language_of(token@) is None ==> (r is Err && r->Err_0 is UnsupportedSelector),
        (language_of(token@) is Some && present && !overwrite) ==> (r is Err && r->Err_0 is OutputExists),
        (language_of(token@) is Some && (!present || overwrite)) ==> match parse_text(
            template_text(language_of(token@)->Some_0),
        ) {
            Err(m) => r is Err && r->Err_0 is TemplateMalformed && r->Err_0->TemplateMalformed_0 == m,
            Ok(c) => match yaml_text(encode_config(c)) {
                Some(text) => r is Ok && r->Ok_0@ == text,
                None => r is Err && r->Err_0 is Unserializable,
            },
        },
{
    let language = match select_language(token) {
        Ok(l) => l,
        Err(e) => {
            return Err(e);
        },
    };
    match check_destination(present, overwrite) {
        Ok(()) => {},
        Err(e) => {
            return Err(e);
        },
    }
    let config = match Config::for_language(language) {
        Ok(c) => c,
        Err(m) => {
            return Err(GenError::TemplateMalformed(m));
        },
    };
    match config.serialize() {
        Some(text) => Ok(text),
        None => Err(GenError::Unserializable),
    }
}

} // verus!
