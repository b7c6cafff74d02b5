use vstd::prelude::*;

use crate::stage::{stage_of, token_of, Stage};
use crate::yaml::NodeV;

verus! {

/// A field of a configuration document, named in errors and used as a key.
#[derive(Debug, Clone, Copy, PartialEq, Eq, Structural)]
pub enum Field {
    Document,
    Repos,
    FailFast,
    Repo,
    Rev,
    Hooks,
    Id,
    Name,
    Entry,
    Language,
    AlwaysRun,
    Verbose,
    PassFilenames,
    Stages,
    Types,
    Files,
    Args,
}

/// Why a text does not describe a configuration document.
#[derive(Debug, Clone, Copy, PartialEq, Eq, Structural)]
pub enum Malformed {
    /// The text is not YAML, or holds what a document never does.
    Unreadable,
    /// A required field is absent.
    Missing(Field),
    /// A field holds a value of the wrong kind.
    WrongType(Field),
    /// A stage list holds a token that names no stage.
    UnknownStage,
    /// A repository lists no hooks.
    NoHooks,
}

/// The key under which a field stands in a table.
pub open spec fn key_of(f: Field) -> Seq<char> {
    match f {
        Field::Document => ""@,
        Field::Repos => "repos"@,
        Field::FailFast => "fail_fast"@,
        Field::Repo => "repo"@,
        Field::Rev => "rev"@,
        Field::Hooks => "hooks"@,
        Field::Id => "id"@,
        Field::Name => "name"@,
        Field::Entry => "entry"@,
        Field::Language => "language"@,
        Field::AlwaysRun => "always_run"@,
        Field::Verbose => "verbose"@,
        Field::PassFilenames => "pass_filenames"@,
        Field::Stages => "stages"@,
        Field::Types => "types"@,
        Field::Files => "files"@,
        Field::Args => "args"@,
    }
}

/// The mathematical form of a hook.
pub struct HookV {
    pub id: Seq<char>,
    pub name: Option<Seq<char>>,
    pub entry: Option<Seq<char>>,
    pub language: Seq<char>,
    pub always_run: bool,
    pub verbose: bool,
    pub pass_filenames: bool,
    pub stages: Seq<Stage>,
    pub types: Seq<Seq<char>>,
    pub files: Seq<char>,
    pub args: Option<Seq<Seq<char>>>,
}

/// The mathematical form of a repository entry.
pub struct RepoV {
    pub repo: Seq<char>,
    pub rev: Option<Seq<char>>,
    pub hooks: Seq<HookV>,
}

/// The mathematical form of a configuration document.
pub struct ConfigV {
    pub repos: Seq<RepoV>,
    pub fail_fast: bool,
}

/// A document is well formed when every repository lists a hook.
pub open spec fn config_wf(c: ConfigV) -> bool {
    forall|i: int| 0 <= i < c.repos.len() ==> #[trigger] c.repos[i].hooks.len() > 0
}

/// The language a hook runs under when none is given.
pub open spec fn default_language_text() -> Seq<char> {
    "system"@
}

/// The value under `k` in a table: the first entry with that key.
pub open spec fn lookup(t: Seq<(Seq<char>, NodeV)>, k: Seq<char>) -> Option<NodeV>
    decreases t.len(),
{
    if t.len() == 0 {
        None
    } else if t[0].0 == k {
        Some(t[0].1)
    } else {
        lookup(t.drop_first(), k)
    }
}

/// The value of a field; an explicit null counts as absent.
pub open spec fn field_value(t: Seq<(Seq<char>, NodeV)>, f: Field) -> Option<NodeV> {
    match lookup(t, key_of(f)) {
        Some(NodeV::Null) => None,
        other => other,
    }
}

/// Decodes each item in order; the first failure is the result.
pub open spec fn decode_all<T>(items: Seq<NodeV>, d: spec_fn(NodeV) -> Result<T, Malformed>) -> Result<Seq<T>, Malformed>
    decreases items.len(),
{
    if items.len() == 0 {
        Ok(Seq::empty())
    } else {
        match d(items[0]) {
            Err(e) => Err(e),
            Ok(x) => match decode_all(items.drop_first(), d) {
                Ok(xs) => Ok(seq![x] + xs),
                Err(e) => Err(e),
            },
        }
    }
}

/// `p` placed before the items of a successful result.
pub open spec fn prefixed<T>(p: Seq<T>, r: Result<Seq<T>, Malformed>) -> Result<Seq<T>, Malformed> {
    match r {
        Ok(xs) => Ok(p + xs),
        Err(e) => Err(e),
    }
}

/// Decoding the items from `i` on is decoding item `i`, then the rest.
pub proof fn lemma_decode_all_step<T>(items: Seq<NodeV>, d: spec_fn(NodeV) -> Result<T, Malformed>, i: int)
    requires
        0 <= i < items.len(),
    ensures
        decode_all(items.skip(i), d) == match d(items[i]) {
            Err(e) => Err(e),
            Ok(x) => prefixed(seq![x], decode_all(items.skip(i + 1), d)),
        },
{
    assert(items.skip(i).drop_first() =~= items.skip(i + 1));
    assert(items.skip(i)[0] == items[i]);
}

/// Moving one decoded item into the prefix keeps the whole result.
pub proof fn lemma_prefixed_push<T>(p: Seq<T>, x: T, r: Result<Seq<T>, Malformed>)
    ensures
        prefixed(p, prefixed(seq![x], r)) == prefixed(p.push(x), r),
{
    if let Ok(xs) = r {
        assert(p + (seq![x] + xs) =~= p.push(x) + xs);
    }
}

/// The whole list decodes as the prefix before position `0`, which is empty.
pub proof fn lemma_prefixed_start<T>(items: Seq<NodeV>, d: spec_fn(NodeV) -> Result<T, Malformed>)
    ensures
        prefixed(Seq::<T>::empty(), decode_all(items.skip(0), d)) == decode_all(items, d),
        decode_all(items.skip(items.len() as int), d) == Ok::<Seq<T>, Malformed>(Seq::<T>::empty()),
{
    assert(items.skip(0) =~= items);
    assert(items.skip(items.len() as int) =~= Seq::<NodeV>::empty());
    if let Ok(xs) = decode_all(items, d) {
        assert(Seq::<T>::empty() + xs =~= xs);
    }
}

/// A text item of a list field.
pub open spec fn text_item(n: NodeV, f: Field) -> Result<Seq<char>, Malformed> {
    match n {
        NodeV::Text(s) => Ok(s),
        _ => Err(Malformed::WrongType(f)),
    }
}

/// A stage item of the stage list.
pub open spec fn stage_item(n: NodeV) -> Result<Stage, Malformed> {
    match n {
        NodeV::Text(s) => match stage_of(s) {
            Some(st) => Ok(st),
            None => Err(Malformed::UnknownStage),
        },
        _ => Err(Malformed::WrongType(Field::Stages)),
    }
}

/// A text field that must be present.
pub open spec fn required_text(t: Seq<(Seq<char>, NodeV)>, f: Field) -> Result<Seq<char>, Malformed> {
    match field_value(t, f) {
        None => Err(Malformed::Missing(f)),
        Some(NodeV::Text(s)) => Ok(s),
        Some(_) => Err(Malformed::WrongType(f)),
    }
}

/// A text field that may be absent.
pub open spec fn optional_text(t: Seq<(Seq<char>, NodeV)>, f: Field) -> Result<Option<Seq<char>>, Malformed> {
    match field_value(t, f) {
        None => Ok(None),
        Some(NodeV::Text(s)) => Ok(Some(s)),
        Some(_) => Err(Malformed::WrongType(f)),
    }
}

/// A text field that takes `d` when absent.
pub open spec fn text_or(t: Seq<(Seq<char>, NodeV)>, f: Field, d: Seq<char>) -> Result<Seq<char>, Malformed> {
    match optional_text(t, f) {
        Ok(None) => Ok(d),
        Ok(Some(s)) => Ok(s),
        Err(e) => Err(e),
    }
}

/// A boolean field that takes `d` when absent.
pub open spec fn bool_or(t: Seq<(Seq<char>, NodeV)>, f: Field, d: bool) -> Result<bool, Malformed> {
    match field_value(t, f) {
        None => Ok(d),
        Some(NodeV::Bool(b)) => Ok(b),
        Some(_) => Err(Malformed::WrongType(f)),
    }
}

/// The items of a list field that may be absent.
pub open spec fn optional_list(t: Seq<(Seq<char>, NodeV)>, f: Field) -> Result<Option<Seq<NodeV>>, Malformed> {
    match field_value(t, f) {
        None => Ok(None),
        Some(NodeV::List(items)) => Ok(Some(items)),
        Some(_) => Err(Malformed::WrongType(f)),
    }
}

/// A list of text that may be absent.
pub open spec fn optional_texts(t: Seq<(Seq<char>, NodeV)>, f: Field) -> Result<Option<Seq<Seq<char>>>, Malformed> {
    match optional_list(t, f) {
        Err(e) => Err(e),
        Ok(None) => Ok(None),
        Ok(Some(items)) => match decode_all(items, |n: NodeV| text_item(n, f)) {
            Ok(xs) => Ok(Some(xs)),
            Err(e) => Err(e),
        },
    }
}

/// A list of text that is empty when absent.
pub open spec fn texts_or_empty(t: Seq<(Seq<char>, NodeV)>, f: Field) -> Result<Seq<Seq<char>>, Malformed> {
    match optional_texts(t, f) {
        Ok(None) => Ok(Seq::empty()),
        Ok(Some(xs)) => Ok(xs),
        Err(e) => Err(e),
    }
}

/// The stage list, `[commit]` when absent.
pub open spec fn stages_or_default(t: Seq<(Seq<char>, NodeV)>) -> Result<Seq<Stage>, Malformed> {
    match optional_list(t, Field::Stages) {
        Err(e) => Err(e),
        Ok(None) => Ok(seq![Stage::Commit]),
        Ok(Some(items)) => decode_all(items, |n: NodeV| stage_item(n)),
    }
}

/// Reads a hook from its table, filling each absent optional field with its
/// default.
pub open spec fn decode_hook(n: NodeV) -> Result<HookV, Malformed> {
    match n {
        NodeV::Table(t) => {
            let id = required_text(t, Field::Id);
            let name = optional_text(t, Field::Name);
            let entry = optional_text(t, Field::Entry);
            let language = text_or(t, Field::Language, default_language_text());
            let always_run = bool_or(t, Field::AlwaysRun, false);
            let verbose = bool_or(t, Field::Verbose, false);
            let pass_filenames = bool_or(t, Field::PassFilenames, false);
            let stages = stages_or_default(t);
            let types = texts_or_empty(t, Field::Types);
            let files = text_or(t, Field::Files, Seq::empty());
            let args = optional_texts(t, Field::Args);
            if id is Err {
                Err(id->Err_0)
            } else if name is Err {
                Err(name->Err_0)
            } else if entry is Err {
                Err(entry->Err_0)
            } else if language is Err {
                Err(language->Err_0)
            } else if always_run is Err {
                Err(always_run->Err_0)
            } else if verbose is Err {
                Err(verbose->Err_0)
            } else if pass_filenames is Err {
                Err(pass_filenames->Err_0)
            } else if stages is Err {
                Err(stages->Err_0)
            } else if types is Err {
                Err(types->Err_0)
            } else if files is Err {
                Err(files->Err_0)
            } else if args is Err {
                Err(args->Err_0)
            } else {
                Ok(
                    HookV {
                        id: id->Ok_0,
                        name: name->Ok_0,
                        entry: entry->Ok_0,
                        language: language->Ok_0,
                        always_run: always_run->Ok_0,
                        verbose: verbose->Ok_0,
                        pass_filenames: pass_filenames->Ok_0,
                        stages: stages->Ok_0,
                        types: types->Ok_0,
                        files: files->Ok_0,
                        args: args->Ok_0,
                    },
                )
            }
        },
        _ => Err(Malformed::WrongType(Field::Hooks)),
    }
}

/// Reads a repository entry from its table.
pub open spec fn decode_repo(n: NodeV) -> Result<RepoV, Malformed> {
    match n {
        NodeV::Table(t) => {
            let repo = required_text(t, Field::Repo);
            let rev = optional_text(t, Field::Rev);
            if repo is Err {
                Err(repo->Err_0)
            } else if rev is Err {
                Err(rev->Err_0)
            } else {
                match field_value(t, Field::Hooks) {
                    None => Err(Malformed::Missing(Field::Hooks)),
                    Some(NodeV::List(items)) => match decode_all(items, |h: NodeV| decode_hook(h)) {
                        Err(e) => Err(e),
                        Ok(hooks) => if hooks.len() == 0 {
                            Err(Malformed::NoHooks)
                        } else {
                            Ok(RepoV { repo: repo->Ok_0, rev: rev->Ok_0, hooks })
                        },
                    },
                    Some(_) => Err(Malformed::WrongType(Field::Hooks)),
                }
            }
        },
        _ => Err(Malformed::WrongType(Field::Repos)),
    }
}

/// Reads a configuration document from its tree.
pub open spec fn decode_config(n: NodeV) -> Result<ConfigV, Malformed> {
    match n {
        NodeV::Table(t) => match field_value(t, Field::Repos) {
            None => Err(Malformed::Missing(Field::Repos)),
            Some(NodeV::List(items)) => match decode_all(items, |r: NodeV| decode_repo(r)) {
                Err(e) => Err(e),
                Ok(repos) => match bool_or(t, Field::FailFast, true) {
                    Err(e) => Err(e),
                    Ok(fail_fast) => Ok(ConfigV { repos, fail_fast }),
                },
            },
            Some(_) => Err(Malformed::WrongType(Field::Repos)),
        },
        _ => Err(Malformed::WrongType(Field::Document)),
    }
}

/// A table holding one entry, for field `f`.
pub open spec fn entry(f: Field, v: NodeV) -> Seq<(Seq<char>, NodeV)> {
    seq![(key_of(f), v)]
}

/// A table holding one entry for field `f` where there is a value, else none.
pub open spec fn entry_if(f: Field, v: Option<NodeV>) -> Seq<(Seq<char>, NodeV)> {
    match v {
        Some(x) => entry(f, x),
        None => Seq::empty(),
    }
}

/// Optional text as an optional tree.
pub open spec fn text_opt(o: Option<Seq<char>>) -> Option<NodeV> {
    match o {
        Some(s) => Some(NodeV::Text(s)),
        None => None,
    }
}

/// A list of text as a tree.
pub open spec fn encode_texts(xs: Seq<Seq<char>>) -> NodeV {
    NodeV::List(xs.map_values(|s: Seq<char>| NodeV::Text(s)))
}

/// An optional list of text as an optional tree.
pub open spec fn texts_opt(o: Option<Seq<Seq<char>>>) -> Option<NodeV> {
    match o {
        Some(xs) => Some(encode_texts(xs)),
        None => None,
    }
}

/// A list of stages as a tree of their tokens.
pub open spec fn encode_stages(xs: Seq<Stage>) -> NodeV {
    NodeV::List(xs.map_values(|s: Stage| NodeV::Text(token_of(s))))
}

/// The table that a hook is written as: absent name, entry and arguments are
/// left out, every defaulted field is written.
pub open spec fn encode_hook(h: HookV) -> NodeV {
    NodeV::Table(
        entry(Field::Id, NodeV::Text(h.id))
            + entry_if(Field::Name, text_opt(h.name))
            + entry_if(Field::Entry, text_opt(h.entry))
            + entry(Field::Language, NodeV::Text(h.language))
            + entry(Field::AlwaysRun, NodeV::Bool(h.always_run))
            + entry(Field::Verbose, NodeV::Bool(h.verbose))
            + entry(Field::PassFilenames, NodeV::Bool(h.pass_filenames))
            + entry(Field::Stages, encode_stages(h.stages))
            + entry(Field::Types, encode_texts(h.types))
            + entry(Field::Files, NodeV::Text(h.files))
            + entry_if(Field::Args, texts_opt(h.args)),
    )
}

/// The table that a repository entry is written as; an absent revision is
/// left out.
pub open spec fn encode_repo(r: RepoV) -> NodeV {
    NodeV::Table(
        entry(Field::Repo, NodeV::Text(r.repo))
            + entry_if(Field::Rev, text_opt(r.rev))
            + entry(Field::Hooks, NodeV::List(r.hooks.map_values(|h: HookV| encode_hook(h)))),
    )
}

/// The table that a document is written as.
pub open spec fn encode_config(c: ConfigV) -> NodeV {
    NodeV::Table(
        entry(Field::Repos, NodeV::List(c.repos.map_values(|r: RepoV| encode_repo(r))))
            + entry(Field::FailFast, NodeV::Bool(c.fail_fast)),
    )
}

/// Reads a configuration document from YAML text.
pub open spec fn parse_text(text: Seq<char>) -> Result<ConfigV, Malformed> {
    match crate::yaml::yaml_tree(text) {
        None => Err(Malformed::Unreadable),
        Some(n) => decode_config(n),
    }
}

} // verus!
