use vstd::prelude::*;

use crate::schema::{
    config_wf, decode_all, decode_config, decode_hook, decode_repo, default_language_text,
    encode_config, encode_hook, encode_repo, entry, entry_if, field_value, key_of, lookup,
    parse_text, stage_item, text_item, ConfigV, Field, HookV, Malformed, RepoV,
};
use crate::stage::{lemma_token_round_trip, token_of, Stage};
use crate::yaml::NodeV;

verus! {

/// Distinct fields stand under distinct keys.
pub proof fn lemma_keys_distinct(f: Field, g: Field)
    ensures
        f != g ==> key_of(f) != key_of(g),
{
    reveal_strlit("");
    reveal_strlit("repos");
    reveal_strlit("fail_fast");
    reveal_strlit("repo");
    reveal_strlit("rev");
    reveal_strlit("hooks");
    reveal_strlit("id");
    reveal_strlit("name");
    reveal_strlit("entry");
    reveal_strlit("language");
    reveal_strlit("always_run");
    reveal_strlit("verbose");
    reveal_strlit("pass_filenames");
    reveal_strlit("stages");
    reveal_strlit("types");
    reveal_strlit("files");
    reveal_strlit("args");
    if f != g && key_of(f) == key_of(g) {
        assert(key_of(f).len() == key_of(g).len());
        assert(key_of(f)[0] == key_of(g)[0]);
    }
}

/// Looking a key up in two tables joined is looking in the first, then the
/// second.
pub broadcast proof fn lemma_lookup_concat(a: Seq<(Seq<char>, NodeV)>, b: Seq<(Seq<char>, NodeV)>, k: Seq<char>)
    ensures
        #[trigger] lookup(a + b, k) == match lookup(a, k) {
            Some(v) => Some(v),
            None => lookup(b, k),
        },
    decreases a.len(),
{
    if a.len() == 0 {
        assert(a + b =~= b);
    } else {
        assert((a + b).drop_first() =~= a.drop_first() + b);
        lemma_lookup_concat(a.drop_first(), b, k);
    }
}

/// A one-entry table answers for its own field only.
pub broadcast proof fn lemma_lookup_entry(f: Field, v: NodeV, g: Field)
    ensures
        #[trigger] lookup(entry(f, v), key_of(g)) == if f == g {
            Some(v)
        } else {
            None::<NodeV>
        },
{
    lemma_keys_distinct(f, g);
    assert(entry(f, v).drop_first() =~= Seq::<(Seq<char>, NodeV)>::empty());
    assert(lookup(Seq::<(Seq<char>, NodeV)>::empty(), key_of(g)) is None);
    assert(entry(f, v)[0] == (key_of(f), v));
}

/// A table with an entry only where there is a value answers for its own
/// field only.
pub broadcast proof fn lemma_lookup_entry_if(f: Field, v: Option<NodeV>, g: Field)
    ensures
        #[trigger] lookup(entry_if(f, v), key_of(g)) == if f == g {
            v
        } else {
            None::<NodeV>
        },
{
    if let Some(x) = v {
        lemma_lookup_entry(f, x, g);
    }
}

/// Decoding the encoded form of each item gives the items back.
pub proof fn lemma_decode_all_map<A>(
    xs: Seq<A>,
    e: spec_fn(A) -> NodeV,
    d: spec_fn(NodeV) -> Result<A, Malformed>,
)
    requires
        forall|i: int| 0 <= i < xs.len() ==> #[trigger] d(e(xs[i])) == Ok::<A, Malformed>(xs[i]),
    ensures
        decode_all(xs.map_values(e), d) == Ok::<Seq<A>, Malformed>(xs),
    decreases xs.len(),
{
    if xs.len() > 0 {
        assert(xs.map_values(e).drop_first() =~= xs.drop_first().map_values(e));
        assert(d(e(xs[0])) == Ok::<A, Malformed>(xs[0]));
        assert forall|i: int| 0 <= i < xs.drop_first().len() implies #[trigger] d(e(xs.drop_first()[i]))
            == Ok::<A, Malformed>(xs.drop_first()[i]) by {
            assert(xs.drop_first()[i] == xs[i + 1]);
        }
        lemma_decode_all_map(xs.drop_first(), e, d);
        assert(seq![xs[0]] + xs.drop_first() =~= xs);
    } else {
        assert(xs =~= Seq::<A>::empty());
    }
}

/// A hook read back from the table it is written as is the same hook.
pub proof fn lemma_hook_round_trip(h: HookV)
    ensures
        decode_hook(encode_hook(h)) == Ok::<HookV, Malformed>(h),
{
    broadcast use lemma_lookup_concat, lemma_lookup_entry, lemma_lookup_entry_if;

    assert forall|i: int| 0 <= i < h.stages.len() implies #[trigger] stage_item(NodeV::Text(token_of(h.stages[i])))
        == Ok::<Stage, Malformed>(h.stages[i]) by {
        lemma_token_round_trip(h.stages[i]);
    }
    lemma_decode_all_map(h.stages, |s: Stage| NodeV::Text(token_of(s)), |n: NodeV| stage_item(n));
    lemma_decode_all_map(h.types, |s: Seq<char>| NodeV::Text(s), |n: NodeV| text_item(n, Field::Types));
    if let Some(a) = h.args {
        lemma_decode_all_map(a, |s: Seq<char>| NodeV::Text(s), |n: NodeV| text_item(n, Field::Args));
    }
}

/// A repository entry read back from the table it is written as is the same
/// entry, where it lists a hook.
pub proof fn lemma_repo_round_trip(r: RepoV)
    requires
        r.hooks.len() > 0,
    ensures
        decode_repo(encode_repo(r)) == Ok::<RepoV, Malformed>(r),
{
    broadcast use lemma_lookup_concat, lemma_lookup_entry, lemma_lookup_entry_if;

    assert forall|i: int| 0 <= i < r.hooks.len() implies #[trigger] decode_hook(encode_hook(r.hooks[i]))
        == Ok::<HookV, Malformed>(r.hooks[i]) by {
        lemma_hook_round_trip(r.hooks[i]);
    }
    lemma_decode_all_map(r.hooks, |h: HookV| encode_hook(h), |h: NodeV| decode_hook(h));
}

/// A well-formed document read back from the tree it is written as is the
/// same document: writing loses nothing, and reading adds nothing.
pub proof fn lemma_config_round_trip(c: ConfigV)
    requires
        config_wf(c),
    ensures
        decode_config(encode_config(c)) == Ok::<ConfigV, Malformed>(c),
{
    broadcast use lemma_lookup_concat, lemma_lookup_entry, lemma_lookup_entry_if;

    assert forall|i: int| 0 <= i < c.repos.len() implies #[trigger] decode_repo(encode_repo(c.repos[i]))
        == Ok::<RepoV, Malformed>(c.repos[i]) by {
        lemma_repo_round_trip(c.repos[i]);
    }
    lemma_decode_all_map(c.repos, |r: RepoV| encode_repo(r), |r: NodeV| decode_repo(r));
}

/// Each item of a successful decoding is the decoding of its node.
pub proof fn lemma_decode_all_items<T>(items: Seq<NodeV>, d: spec_fn(NodeV) -> Result<T, Malformed>)
    requires
        decode_all(items, d) is Ok,
    ensures
        decode_all(items, d)->Ok_0.len() == items.len(),
        forall|i: int|
            0 <= i < items.len() ==> #[trigger] d(items[i]) == Ok::<T, Malformed>(decode_all(items, d)->Ok_0[i]),
    decreases items.len(),
{
    if items.len() > 0 {
        lemma_decode_all_items(items.drop_first(), d);
        let xs = decode_all(items, d)->Ok_0;
        assert forall|i: int| 0 <= i < items.len() implies #[trigger] d(items[i]) == Ok::<T, Malformed>(xs[i]) by {
            if i > 0 {
                assert(items[i] == items.drop_first()[i - 1]);
            }
        }
    }
}

/// Every document that decoding yields is well formed.
pub proof fn lemma_decoded_wf(n: NodeV)
    requires
        decode_config(n) is Ok,
    ensures
        config_wf(decode_config(n)->Ok_0),
{
    if let NodeV::Table(t) = n {
        if let Some(NodeV::List(items)) = field_value(t, Field::Repos) {
            lemma_decode_all_items(items, |r: NodeV| decode_repo(r));
            let d = |r: NodeV| decode_repo(r);
            let c = decode_config(n)->Ok_0;
            assert(c.repos == decode_all(items, d)->Ok_0);
            assert forall|i: int| 0 <= i < c.repos.len() implies #[trigger] c.repos[i].hooks.len() > 0 by {
                assert(d(items[i]) == Ok::<RepoV, Malformed>(c.repos[i]));
            }
        }
    }
}

/// For every text that parses, writing the parsed document out as a tree and
/// reading that tree back yields the same document.
pub proof fn lemma_parse_round_trip(text: Seq<char>)
    requires
        parse_text(text) is Ok,
    ensures
        decode_config(encode_config(parse_text(text)->Ok_0)) == parse_text(text),
{
    let n = crate::yaml::yaml_tree(text)->Some_0;
    lemma_decoded_wf(n);
    lemma_config_round_trip(parse_text(text)->Ok_0);
}

/// Every optional field of hook `h` that table `t` leaves out (or sets to
/// null) holds that field's default.
pub open spec fn defaults_filled(t: Seq<(Seq<char>, NodeV)>, h: HookV) -> bool {
    &&& field_value(t, Field::Language) is None ==> h.language == default_language_text()
    &&& field_value(t, Field::AlwaysRun) is None ==> !h.always_run
    &&& field_value(t, Field::Verbose) is None ==> !h.verbose
    &&& field_value(t, Field::PassFilenames) is None ==> !h.pass_filenames
    &&& field_value(t, Field::Stages) is None ==> h.stages == seq![Stage::Commit]
    &&& field_value(t, Field::Types) is None ==> h.types == Seq::<Seq<char>>::empty()
    &&& field_value(t, Field::Files) is None ==> h.files == Seq::<char>::empty()
}

/// Reading a hook fills every optional field that its table leaves out (or
/// sets to null) with that field's default.
pub proof fn lemma_hook_defaults(t: Seq<(Seq<char>, NodeV)>)
    requires
        decode_hook(NodeV::Table(t)) is Ok,
    ensures
        defaults_filled(t, decode_hook(NodeV::Table(t))->Ok_0),
{
}

/// In every document that a text parses to, each hook was read from a table
/// and holds the default of every optional field that the table leaves out.
pub proof fn lemma_parsed_hooks_defaults(text: Seq<char>, i: int, j: int)
    requires
        parse_text(text) is Ok,
        0 <= i < parse_text(text)->Ok_0.repos.len(),
        0 <= j < parse_text(text)->Ok_0.repos[i].hooks.len(),
    ensures
        exists|t: Seq<(Seq<char>, NodeV)>|
            #[trigger] decode_hook(NodeV::Table(t)) == Ok::<HookV, Malformed>(
                parse_text(text)->Ok_0.repos[i].hooks[j],
            ) && defaults_filled(t, parse_text(text)->Ok_0.repos[i].hooks[j]),
{
    let c = parse_text(text)->Ok_0;
    let n = crate::yaml::yaml_tree(text)->Some_0;
    let root = n->Table_0;
    let items = field_value(root, Field::Repos)->Some_0->List_0;
    let dr = |r: NodeV| decode_repo(r);
    lemma_decode_all_items(items, dr);
    assert(dr(items[i]) == Ok::<RepoV, Malformed>(c.repos[i]));
    let rt = items[i]->Table_0;
    let hitems = field_value(rt, Field::Hooks)->Some_0->List_0;
    let dh = |h: NodeV| decode_hook(h);
    lemma_decode_all_items(hitems, dh);
    assert(dh(hitems[j]) == Ok::<HookV, Malformed>(c.repos[i].hooks[j]));
    let ht = hitems[j]->Table_0;
    assert(hitems[j] == NodeV::Table(ht));
    lemma_hook_defaults(ht);
}

/// Reading a document sets `fail_fast` when its table leaves it out (or sets
/// it to null).
pub proof fn lemma_config_defaults(t: Seq<(Seq<char>, NodeV)>)
    requires
        decode_config(NodeV::Table(t)) is Ok,
    ensures
        field_value(t, Field::FailFast) is None ==> decode_config(NodeV::Table(t))->Ok_0.fail_fast,
{
}

} // verus!
