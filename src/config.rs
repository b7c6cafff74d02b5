use vstd::prelude::*;

use crate::defaults::{default_false, default_files, default_language, default_stages, default_true};
use crate::schema::{
    bool_or, config_wf, decode_all, decode_config, decode_hook, decode_repo, encode_config, encode_hook,
    encode_repo, encode_stages, encode_texts, entry, entry_if, field_value, key_of,
    lemma_decode_all_step, lemma_prefixed_push, lemma_prefixed_start, lookup, optional_text,
    optional_texts, parse_text, prefixed, required_text, stage_item, stages_or_default, text_item,
    text_opt, text_or, texts_or_empty, ConfigV, Field, HookV, Malformed, RepoV,
};
use crate::lemmas::lemma_decoded_wf;
use crate::stage::{token_of, Stage};
use crate::text::same_text;
use crate::yaml::{
    entries_view, items_view, lemma_list_view, lemma_table_view, read_yaml, write_yaml, yaml_text, Node, NodeV,
};

verus! {

/// A single check that the hook runner executes.
#[derive(Debug, PartialEq, Eq)]
pub struct Hook {
    pub id: String,
    pub name: Option<String>,
    pub entry: Option<String>,
    pub language: String,
    pub always_run: bool,
    pub verbose: bool,
    pub pass_filenames: bool,
    pub stages: Vec<Stage>,
    pub types: Vec<String>,
    pub files: String,
    pub args: Option<Vec<String>>,
}

/// A source of hooks, with the hooks taken from it.
#[derive(Debug, PartialEq, Eq)]
pub struct Repo {
    pub repo: String,
    pub rev: Option<String>,
    pub hooks: Vec<Hook>,
}

/// A hook configuration document.
#[derive(Debug, PartialEq, Eq)]
pub struct Config {
    pub repos: Vec<Repo>,
    pub fail_fast: bool,
}

impl View for Hook {
    type V = HookV;

    open spec fn view(&self) -> HookV {
        HookV {
            id: self.id@,
            name: self.name.deep_view(),
            entry: self.entry.deep_view(),
            language: self.language@,
            always_run: self.always_run,
            verbose: self.verbose,
            pass_filenames: self.pass_filenames,
            stages: self.stages@,
            types: self.types.deep_view(),
            files: self.files@,
            args: self.args.deep_view(),
        }
    }
}

impl View for Repo {
    type V = RepoV;

    open spec fn view(&self) -> RepoV {
        RepoV { repo: self.repo@, rev: self.rev.deep_view(), hooks: self.hooks@.map_values(|h: Hook| h@) }
    }
}

impl View for Config {
    type V = ConfigV;

    open spec fn view(&self) -> ConfigV {
        ConfigV { repos: self.repos@.map_values(|r: Repo| r@), fail_fast: self.fail_fast }
    }
}

/// A decoding result, with the value in its mathematical form.
pub open spec fn viewed<T: View>(r: Result<T, Malformed>) -> Result<T::V, Malformed> {
    match r {
        Ok(x) => Ok(x@),
        Err(e) => Err(e),
    }
}

impl Field {
    /// The key under which this field stands in a table.
    pub fn key(&self) -> (r: &'static str)
        ensures
            r@ == key_of(*self),
    {
        match self {
            Field::Document => "",
            Field::Repos => "repos",
            Field::FailFast => "fail_fast",
            Field::Repo => "repo",
            Field::Rev => "rev",
            Field::Hooks => "hooks",
            Field::Id => "id",
            Field::Name => "name",
            Field::Entry => "entry",
            Field::Language => "language",
            Field::AlwaysRun => "always_run",
            Field::Verbose => "verbose",
            Field::PassFilenames => "pass_filenames",
            Field::Stages => "stages",
            Field::Types => "types",
            Field::Files => "files",
            Field::Args => "args",
        }
    }
}

/// The value of field `f` in table `n`, with an explicit null read as absent.
fn field_of(n: &Node, f: Field) -> (r: Option<&Node>)
    requires
        n is Table,
    ensures
        n@ is Table,
        r is Some ==> field_value(n@->Table_0, f) == Some(r->Some_0@),
        r is None ==> field_value(n@->Table_0, f) is None,
{
    let key = f.key();
    match n {
        Node::Table(v) => {
            let ghost tv = n@->Table_0;
            assert(tv.skip(0) =~= tv);
            assert(tv.len() == v.len());
            let mut i: usize = 0;
            while i < v.len()
                invariant
                    0 <= i <= v.len(),
                    n@ == NodeV::Table(tv),
                    key@ == key_of(f),
                    tv.len() == v.len(),
                    forall|j: int| 0 <= j < v.len() ==> #[trigger] tv[j] == (v[j].0@, v[j].1@),
                    lookup(tv, key_of(f)) == lookup(tv.skip(i as int), key_of(f)),
                decreases v.len() - i,
            {
                assert(tv.skip(i as int)[0] == tv[i as int]);
                assert(tv[i as int] == (v[i as int].0@, v[i as int].1@));
                if same_text(v[i].0.as_str(), key) {
                    let x = &v[i].1;
                    assert(lookup(tv.skip(i as int), key_of(f)) == Some(x@));
                    match x {
                        Node::Null => {
                            return None;
                        },
                        _ => {
                            return Some(x);
                        },
                    }
                }
                assert(tv.skip(i as int).drop_first() =~= tv.skip(i + 1));
                i += 1;
            }
            None
        },
        _ => None,
    }
}

/// A text field that must be present.
fn required_text_of(t: &Node, f: Field) -> (r: Result<String, Malformed>)
    requires
        t is Table,
    ensures
        t@ is Table,
        match r {
            Ok(s) => required_text(t@->Table_0, f) == Ok::<Seq<char>, Malformed>(s@),
            Err(e) => required_text(t@->Table_0, f) == Err::<Seq<char>, Malformed>(e),
        },
{
    match field_of(t, f) {
        None => Err(Malformed::Missing(f)),
        Some(Node::Text(s)) => Ok(s.clone()),
        Some(_) => Err(Malformed::WrongType(f)),
    }
}

/// A text field that may be absent.
fn optional_text_of(t: &Node, f: Field) -> (r: Result<Option<String>, Malformed>)
    requires
        t is Table,
    ensures
        t@ is Table,
        match r {
            Ok(o) => optional_text(t@->Table_0, f) == Ok::<Option<Seq<char>>, Malformed>(o.deep_view()),
            Err(e) => optional_text(t@->Table_0, f) == Err::<Option<Seq<char>>, Malformed>(e),
        },
{
    match field_of(t, f) {
        None => Ok(None),
        Some(Node::Text(s)) => Ok(Some(s.clone())),
        Some(_) => Err(Malformed::WrongType(f)),
    }
}

/// A text field that takes `d` when absent.
fn text_or_of(t: &Node, f: Field, d: &str) -> (r: Result<String, Malformed>)
    requires
        t is Table,
    ensures
        t@ is Table,
        match r {
            Ok(s) => text_or(t@->Table_0, f, d@) == Ok::<Seq<char>, Malformed>(s@),
            Err(e) => text_or(t@->Table_0, f, d@) == Err::<Seq<char>, Malformed>(e),
        },
{
    match optional_text_of(t, f) {
        Ok(None) => Ok(d.to_owned()),
        Ok(Some(s)) => Ok(s),
        Err(e) => Err(e),
    }
}

/// A boolean field that takes `d` when absent.
fn bool_or_of(t: &Node, f: Field, d: bool) -> (r: Result<bool, Malformed>)
    requires
        t is Table,
    ensures
        t@ is Table,
        r == bool_or(t@->Table_0, f, d),
{
    match field_of(t, f) {
        None => Ok(d),
        Some(Node::Bool(b)) => Ok(*b),
        Some(_) => Err(Malformed::WrongType(f)),
    }
}

/// The text items of list `n`, read as field `f`.
fn texts_from(n: &Node, f: Field) -> (r: Result<Vec<String>, Malformed>)
    requires
        n is List,
    ensures
        n@ is List,
        match r {
            Ok(xs) => decode_all(n@->List_0, |m: NodeV| text_item(m, f)) == Ok::<Seq<Seq<char>>, Malformed>(
                xs.deep_view(),
            ),
            Err(e) => decode_all(n@->List_0, |m: NodeV| text_item(m, f)) == Err::<Seq<Seq<char>>, Malformed>(e),
        },
{
    let ghost d = |m: NodeV| text_item(m, f);
    match n {
        Node::List(v) => {
            let ghost items = n@->List_0;
            proof {
                lemma_prefixed_start(items, d);
            }
            let mut out: Vec<String> = Vec::new();
            let mut i: usize = 0;
            while i < v.len()
                invariant
                    0 <= i <= v.len(),
                    n@ == NodeV::List(items),
                    items.len() == v.len(),
                    forall|j: int| 0 <= j < v.len() ==> #[trigger] items[j] == v[j]@,
                    d == (|m: NodeV| text_item(m, f)),
                    prefixed(out.deep_view(), decode_all(items.skip(i as int), d)) == decode_all(items, d),
                decreases v.len() - i,
            {
                proof {
                    lemma_decode_all_step(items, d, i as int);
                }
                match &v[i] {
                    Node::Text(s) => {
                        let ghost before = out.deep_view();
                        proof {
                            lemma_prefixed_push(before, s@, decode_all(items.skip(i + 1), d));
                        }
                        out.push(s.clone());
                        assert(out.deep_view() =~= before.push(s@));
                    },
                    _ => {
                        return Err(Malformed::WrongType(f));
                    },
                }
                i += 1;
            }
            assert(items.skip(i as int) =~= Seq::<NodeV>::empty());
            assert(out.deep_view() + Seq::<Seq<char>>::empty() =~= out.deep_view());
            Ok(out)
        },
        _ => Err(Malformed::WrongType(f)),
    }
}

/// A text list field that may be absent.
fn optional_texts_of(t: &Node, f: Field) -> (r: Result<Option<Vec<String>>, Malformed>)
    requires
        t is Table,
    ensures
        t@ is Table,
        match r {
            Ok(o) => optional_texts(t@->Table_0, f) == Ok::<Option<Seq<Seq<char>>>, Malformed>(o.deep_view()),
            Err(e) => optional_texts(t@->Table_0, f) == Err::<Option<Seq<Seq<char>>>, Malformed>(e),
        },
{
    match field_of(t, f) {
        None => Ok(None),
        Some(m) => match m {
            Node::List(_) => match texts_from(m, f) {
                Ok(xs) => Ok(Some(xs)),
                Err(e) => Err(e),
            },
            _ => Err(Malformed::WrongType(f)),
        },
    }
}

/// The stages of list `n`.
fn stages_from(n: &Node) -> (r: Result<Vec<Stage>, Malformed>)
    requires
        n is List,
    ensures
        n@ is List,
        match r {
            Ok(xs) => decode_all(n@->List_0, |m: NodeV| stage_item(m)) == Ok::<Seq<Stage>, Malformed>(xs@),
            Err(e) => decode_all(n@->List_0, |m: NodeV| stage_item(m)) == Err::<Seq<Stage>, Malformed>(e),
        },
{
    let ghost d = |m: NodeV| stage_item(m);
    match n {
        Node::List(v) => {
            let ghost items = n@->List_0;
            proof {
                lemma_prefixed_start(items, d);
            }
            let mut out: Vec<Stage> = Vec::new();
            let mut i: usize = 0;
            while i < v.len()
                invariant
                    0 <= i <= v.len(),
                    n@ == NodeV::List(items),
                    items.len() == v.len(),
                    forall|j: int| 0 <= j < v.len() ==> #[trigger] items[j] == v[j]@,
                    d == (|m: NodeV| stage_item(m)),
                    prefixed(out@, decode_all(items.skip(i as int), d)) == decode_all(items, d),
                decreases v.len() - i,
            {
                proof {
                    lemma_decode_all_step(items, d, i as int);
                }
                match &v[i] {
                    Node::Text(s) => match Stage::from_token(s.as_str()) {
                        Some(st) => {
                            proof {
                                lemma_prefixed_push(out@, st, decode_all(items.skip(i + 1), d));
                            }
                            out.push(st);
                        },
                        None => {
                            return Err(Malformed::UnknownStage);
                        },
                    },
                    _ => {
                        return Err(Malformed::WrongType(Field::Stages));
                    },
                }
                i += 1;
            }
            assert(items.skip(i as int) =~= Seq::<NodeV>::empty());
            assert(out@ + Seq::<Stage>::empty() =~= out@);
            Ok(out)
        },
        _ => Err(Malformed::WrongType(Field::Stages)),
    }
}

/// The stage field, `[commit]` when absent.
fn stages_of(t: &Node) -> (r: Result<Vec<Stage>, Malformed>)
    requires
        t is Table,
    ensures
        t@ is Table,
        match r {
            Ok(xs) => stages_or_default(t@->Table_0) == Ok::<Seq<Stage>, Malformed>(xs@),
            Err(e) => stages_or_default(t@->Table_0) == Err::<Seq<Stage>, Malformed>(e),
        },
{
    match field_of(t, Field::Stages) {
        None => Ok(default_stages()),
        Some(m) => match m {
            Node::List(_) => stages_from(m),
            _ => Err(Malformed::WrongType(Field::Stages)),
        },
    }
}

impl Hook {
    /// Reads a hook from its table in a document tree, filling every absent
    /// optional field with its default.
    pub fn from_node(n: &Node) -> (r: Result<Hook, Malformed>)
        ensures
            viewed(r) == decode_hook(n@),
    {
        match n {
            Node::Table(_) => {},
            _ => {
                return Err(Malformed::WrongType(Field::Hooks));
            },
        }
        let id = match required_text_of(n, Field::Id) {
            Ok(x) => x,
            Err(e) => {
                return Err(e);
            },
        };
        let name = match optional_text_of(n, Field::Name) {
            Ok(x) => x,
            Err(e) => {
                return Err(e);
            },
        };
        let entry = match optional_text_of(n, Field::Entry) {
            Ok(x) => x,
            Err(e) => {
                return Err(e);
            },
        };
        let language = match text_or_of(n, Field::Language, default_language().as_str()) {
            Ok(x) => x,
            Err(e) => {
                return Err(e);
            },
        };
        let always_run = match bool_or_of(n, Field::AlwaysRun, default_false()) {
            Ok(x) => x,
            Err(e) => {
                return Err(e);
            },
        };
        let verbose = match bool_or_of(n, Field::Verbose, default_false()) {
            Ok(x) => x,
            Err(e) => {
                return Err(e);
            },
        };
        let pass_filenames = match bool_or_of(n, Field::PassFilenames, default_false()) {
            Ok(x) => x,
            Err(e) => {
                return Err(e);
            },
        };
        let stages = match stages_of(n) {
            Ok(x) => x,
            Err(e) => {
                return Err(e);
            },
        };
        let types = match optional_texts_of(n, Field::Types) {
            Ok(Some(x)) => x,
            Ok(None) => Vec::new(),
            Err(e) => {
                return Err(e);
            },
        };
        let files = match text_or_of(n, Field::Files, default_files().as_str()) {
            Ok(x) => x,
            Err(e) => {
                return Err(e);
            },
        };
        let args = match optional_texts_of(n, Field::Args) {
            Ok(x) => x,
            Err(e) => {
                return Err(e);
            },
        };
        let h = Hook {
            id,
            name,
            entry,
            language,
            always_run,
            verbose,
            pass_filenames,
            stages,
            types,
            files,
            args,
        };
        assert(h.types.deep_view() =~= texts_or_empty(n@->Table_0, Field::Types)->Ok_0);
        Ok(h)
    }
}

/// The hooks of list `n`.
fn hooks_from(n: &Node) -> (r: Result<Vec<Hook>, Malformed>)
    requires
        n is List,
    ensures
        n@ is List,
        match r {
            Ok(xs) => decode_all(n@->List_0, |h: NodeV| decode_hook(h)) == Ok::<Seq<HookV>, Malformed>(
                xs@.map_values(|h: Hook| h@),
            ),
            Err(e) => decode_all(n@->List_0, |h: NodeV| decode_hook(h)) == Err::<Seq<HookV>, Malformed>(e),
        },
{
    let ghost d = |h: NodeV| decode_hook(h);
    match n {
        Node::List(v) => {
            let ghost items = n@->List_0;
            proof {
                lemma_prefixed_start(items, d);
            }
            let mut out: Vec<Hook> = Vec::new();
            let mut i: usize = 0;
            while i < v.len()
                invariant
                    0 <= i <= v.len(),
                    n@ == NodeV::List(items),
                    items.len() == v.len(),
                    forall|j: int| 0 <= j < v.len() ==> #[trigger] items[j] == v[j]@,
                    d == (|h: NodeV| decode_hook(h)),
                    prefixed(out@.map_values(|h: Hook| h@), decode_all(items.skip(i as int), d)) == decode_all(items, d),
                decreases v.len() - i,
            {
                proof {
                    lemma_decode_all_step(items, d, i as int);
                }
                match Hook::from_node(&v[i]) {
                    Ok(h) => {
                        let ghost before = out@.map_values(|h: Hook| h@);
                        proof {
                            lemma_prefixed_push(before, h@, decode_all(items.skip(i + 1), d));
                        }
                        out.push(h);
                        assert(out@.map_values(|h: Hook| h@) =~= before.push(h@));
                    },
                    Err(e) => {
                        return Err(e);
                    },
                }
                i += 1;
            }
            assert(items.skip(i as int) =~= Seq::<NodeV>::empty());
            assert(out@.map_values(|h: Hook| h@) + Seq::<HookV>::empty() =~= out@.map_values(|h: Hook| h@));
            Ok(out)
        },
        _ => Err(Malformed::WrongType(Field::Hooks)),
    }
}

impl Repo {
    /// Reads a repository entry from its table in a document tree.
    pub fn from_node(n: &Node) -> (r: Result<Repo, Malformed>)
        ensures
            viewed(r) == decode_repo(n@),
    {
        match n {
            Node::Table(_) => {},
            _ => {
                return Err(Malformed::WrongType(Field::Repos));
            },
        }
        let repo = match required_text_of(n, Field::Repo) {
            Ok(x) => x,
            Err(e) => {
                return Err(e);
            },
        };
        let rev = match optional_text_of(n, Field::Rev) {
            Ok(x) => x,
            Err(e) => {
                return Err(e);
            },
        };
        let hooks = match field_of(n, Field::Hooks) {
            None => {
                return Err(Malformed::Missing(Field::Hooks));
            },
            Some(m) => match m {
                Node::List(_) => match hooks_from(m) {
                    Ok(x) => x,
                    Err(e) => {
                        return Err(e);
                    },
                },
                _ => {
                    return Err(Malformed::WrongType(Field::Hooks));
                },
            },
        };
        if hooks.len() == 0 {
            return Err(Malformed::NoHooks);
        }
        Ok(Repo { repo, rev, hooks })
    }
}

/// The repositories of list `n`.
fn repos_from(n: &Node) -> (r: Result<Vec<Repo>, Malformed>)
    requires
        n is List,
    ensures
        n@ is List,
        match r {
            Ok(xs) => decode_all(n@->List_0, |r: NodeV| decode_repo(r)) == Ok::<Seq<RepoV>, Malformed>(
                xs@.map_values(|r: Repo| r@),
            ),
            Err(e) => decode_all(n@->List_0, |r: NodeV| decode_repo(r)) == Err::<Seq<RepoV>, Malformed>(e),
        },
{
    let ghost d = |r: NodeV| decode_repo(r);
    match n {
        Node::List(v) => {
            let ghost items = n@->List_0;
            proof {
                lemma_prefixed_start(items, d);
            }
            let mut out: Vec<Repo> = Vec::new();
            let mut i: usize = 0;
            while i < v.len()
                invariant
                    0 <= i <= v.len(),
                    n@ == NodeV::List(items),
                    items.len() == v.len(),
                    forall|j: int| 0 <= j < v.len() ==> #[trigger] items[j] == v[j]@,
                    d == (|r: NodeV| decode_repo(r)),
                    prefixed(out@.map_values(|r: Repo| r@), decode_all(items.skip(i as int), d)) == decode_all(items, d),
                decreases v.len() - i,
            {
                proof {
                    lemma_decode_all_step(items, d, i as int);
                }
                match Repo::from_node(&v[i]) {
                    Ok(x) => {
                        let ghost before = out@.map_values(|r: Repo| r@);
                        proof {
                            lemma_prefixed_push(before, x@, decode_all(items.skip(i + 1), d));
                        }
                        out.push(x);
                        assert(out@.map_values(|r: Repo| r@) =~= before.push(x@));
                    },
                    Err(e) => {
                        return Err(e);
                    },
                }
                i += 1;
            }
            assert(items.skip(i as int) =~= Seq::<NodeV>::empty());
            assert(out@.map_values(|r: Repo| r@) + Seq::<RepoV>::empty() =~= out@.map_values(|r: Repo| r@));
            Ok(out)
        },
        _ => Err(Malformed::WrongType(Field::Repos)),
    }
}

impl Config {
    /// Reads a configuration document from its tree, filling every absent
    /// optional field with its default.
    pub fn from_node(n: &Node) -> (r: Result<Config, Malformed>)
        ensures
            viewed(r) == decode_config(n@),
            r is Ok ==> config_wf(r->Ok_0@),
    {
        match n {
            Node::Table(_) => {},
            _ => {
                return Err(Malformed::WrongType(Field::Document));
            },
        }
        let repos = match field_of(n, Field::Repos) {
            None => {
                return Err(Malformed::Missing(Field::Repos));
            },
            Some(m) => match m {
                Node::List(_) => match repos_from(m) {
                    Ok(x) => x,
                    Err(e) => {
                        return Err(e);
                    },
                },
                _ => {
                    return Err(Malformed::WrongType(Field::Repos));
                },
            },
        };
        let fail_fast = match bool_or_of(n, Field::FailFast, default_true()) {
            Ok(x) => x,
            Err(e) => {
                return Err(e);
            },
        };
        let c = Config { repos, fail_fast };
        proof {
            lemma_decoded_wf(n@);
        }
        Ok(c)
    }

    /// Reads a configuration document from YAML text.
    pub fn parse(text: &str) -> (r: Result<Config, Malformed>)
        ensures
            viewed(r) == parse_text(text@),
            r is Ok ==> config_wf(r->Ok_0@),
    {
        match read_yaml(text) {
            None => Err(Malformed::Unreadable),
            Some(n) => Config::from_node(&n),
        }
    }
}

/// Appends the entry for field `f`.
fn push_entry(t: &mut Vec<(String, Node)>, f: Field, v: Node)
    ensures
        entries_view(final(t)@) == entries_view(old(t)@) + entry(f, v@),
{
    let ghost before = t@;
    let ghost value = v@;
    t.push((f.key().to_owned(), v));
    assert(entries_view(t@) =~= entries_view(before) + entry(f, value));
}

/// Appends the entry for field `f` where there is a value.
fn push_entry_if(t: &mut Vec<(String, Node)>, f: Field, v: Option<Node>)
    ensures
        entries_view(final(t)@) == entries_view(old(t)@) + entry_if(
            f,
            match v {
                Some(x) => Some(x@),
                None => None,
            },
        ),
{
    match v {
        Some(x) => push_entry(t, f, x),
        None => {
            assert(entries_view(t@) =~= entries_view(t@) + Seq::<(Seq<char>, NodeV)>::empty());
        },
    }
}

/// A table node holding `t`'s entries.
fn table(t: Vec<(String, Node)>) -> (r: Node)
    ensures
        r@ == NodeV::Table(entries_view(t@)),
{
    proof {
        lemma_table_view(t);
    }
    Node::Table(t)
}

/// A list of text as a node.
fn texts_node(xs: &Vec<String>) -> (r: Node)
    ensures
        r@ == encode_texts(xs.deep_view()),
{
    let mut out: Vec<Node> = Vec::new();
    let mut i: usize = 0;
    while i < xs.len()
        invariant
            0 <= i <= xs.len(),
            items_view(out@) =~= xs.deep_view().take(i as int).map_values(|s: Seq<char>| NodeV::Text(s)),
        decreases xs.len() - i,
    {
        let ghost before = out@;
        let item = Node::Text(xs[i].clone());
        assert(item@ == NodeV::Text(xs.deep_view()[i as int]));
        out.push(item);
        assert(items_view(out@) =~= items_view(before).push(item@));
        assert(xs.deep_view().take(i + 1) =~= xs.deep_view().take(i as int).push(xs[i as int]@));
        i += 1;
    }
    assert(xs.deep_view().take(i as int) =~= xs.deep_view());
    proof {
        lemma_list_view(out);
    }
    Node::List(out)
}

/// A list of stages as a node of their tokens.
fn stages_node(xs: &Vec<Stage>) -> (r: Node)
    ensures
        r@ == encode_stages(xs@),
{
    let mut out: Vec<Node> = Vec::new();
    let mut i: usize = 0;
    while i < xs.len()
        invariant
            0 <= i <= xs.len(),
            items_view(out@) =~= xs@.take(i as int).map_values(|s: Stage| NodeV::Text(token_of(s))),
        decreases xs.len() - i,
    {
        let ghost before = out@;
        let item = Node::Text(xs[i].token().to_owned());
        out.push(item);
        assert(items_view(out@) =~= items_view(before).push(item@));
        assert(xs@.take(i + 1) =~= xs@.take(i as int).push(xs[i as int]));
        i += 1;
    }
    assert(xs@.take(i as int) =~= xs@);
    proof {
        lemma_list_view(out);
    }
    Node::List(out)
}

/// Optional text as an optional node.
fn text_opt_node(o: &Option<String>) -> (r: Option<Node>)
    ensures
        match r {
            Some(x) => Some(x@),
            None => None,
        } == text_opt(o.deep_view()),
{
    match o {
        Some(s) => Some(Node::Text(s.clone())),
        None => None,
    }
}

impl Hook {
    /// The table this hook is written as.
    pub fn to_node(&self) -> (r: Node)
        ensures
            r@ == encode_hook(self@),
    {
        let mut t: Vec<(String, Node)> = Vec::new();
        push_entry(&mut t, Field::Id, Node::Text(self.id.clone()));
        push_entry_if(&mut t, Field::Name, text_opt_node(&self.name));
        push_entry_if(&mut t, Field::Entry, text_opt_node(&self.entry));
        push_entry(&mut t, Field::Language, Node::Text(self.language.clone()));
        push_entry(&mut t, Field::AlwaysRun, Node::Bool(self.always_run));
        push_entry(&mut t, Field::Verbose, Node::Bool(self.verbose));
        push_entry(&mut t, Field::PassFilenames, Node::Bool(self.pass_filenames));
        push_entry(&mut t, Field::Stages, stages_node(&self.stages));
        push_entry(&mut t, Field::Types, texts_node(&self.types));
        push_entry(&mut t, Field::Files, Node::Text(self.files.clone()));
        let args = match &self.args {
            Some(a) => Some(texts_node(a)),
            None => None,
        };
        push_entry_if(&mut t, Field::Args, args);
        assert(entries_view(Seq::<(String, Node)>::empty()) =~= Seq::<(Seq<char>, NodeV)>::empty());
        assert(entries_view(t@) =~= encode_hook(self@)->Table_0);
        table(t)
    }
}

impl Repo {
    /// The table this repository entry is written as.
    pub fn to_node(&self) -> (r: Node)
        ensures
            r@ == encode_repo(self@),
    {
        let mut hooks: Vec<Node> = Vec::new();
        let mut i: usize = 0;
        while i < self.hooks.len()
            invariant
                0 <= i <= self.hooks.len(),
                items_view(hooks@) =~= self@.hooks.take(i as int).map_values(|h: HookV| encode_hook(h)),
            decreases self.hooks.len() - i,
        {
            let ghost before = hooks@;
            let item = self.hooks[i].to_node();
            hooks.push(item);
            assert(items_view(hooks@) =~= items_view(before).push(item@));
            assert(self@.hooks[i as int] == self.hooks[i as int]@);
            assert(self@.hooks.take(i + 1) =~= self@.hooks.take(i as int).push(self.hooks[i as int]@));
            i += 1;
        }
        assert(self@.hooks.take(i as int) =~= self@.hooks);
        proof {
            lemma_list_view(hooks);
        }
        let mut t: Vec<(String, Node)> = Vec::new();
        push_entry(&mut t, Field::Repo, Node::Text(self.repo.clone()));
        push_entry_if(&mut t, Field::Rev, text_opt_node(&self.rev));
        push_entry(&mut t, Field::Hooks, Node::List(hooks));
        assert(entries_view(Seq::<(String, Node)>::empty()) =~= Seq::<(Seq<char>, NodeV)>::empty());
        assert(entries_view(t@) =~= encode_repo(self@)->Table_0);
        table(t)
    }
}

impl Config {
    /// The tree this document is written as.
    pub fn to_node(&self) -> (r: Node)
        ensures
            r@ == encode_config(self@),
    {
        let mut repos: Vec<Node> = Vec::new();
        let mut i: usize = 0;
        while i < self.repos.len()
            invariant
                0 <= i <= self.repos.len(),
                items_view(repos@) =~= self@.repos.take(i as int).map_values(|r: RepoV| encode_repo(r)),
            decreases self.repos.len() - i,
        {
            let ghost before = repos@;
            let item = self.repos[i].to_node();
            repos.push(item);
            assert(items_view(repos@) =~= items_view(before).push(item@));
            assert(self@.repos[i as int] == self.repos[i as int]@);
            assert(self@.repos.take(i + 1) =~= self@.repos.take(i as int).push(self.repos[i as int]@));
            i += 1;
        }
        assert(self@.repos.take(i as int) =~= self@.repos);
        proof {
            lemma_list_view(repos);
        }
        let mut t: Vec<(String, Node)> = Vec::new();
        push_entry(&mut t, Field::Repos, Node::List(repos));
        push_entry(&mut t, Field::FailFast, Node::Bool(self.fail_fast));
        assert(entries_view(Seq::<(String, Node)>::empty()) =~= Seq::<(Seq<char>, NodeV)>::empty());
        assert(entries_view(t@) =~= encode_config(self@)->Table_0);
        table(t)
    }

    /// This document as YAML text.
    pub fn serialize(&self) -> (r: Option<String>)
        ensures
            match r {
                Some(s) => yaml_text(encode_config(self@)) == Some(s@),
                None => yaml_text(encode_config(self@)) is None,
            },
    {
        write_yaml(self.to_node())
    }
}

} // verus!
