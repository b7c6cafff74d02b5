use serde_yaml::Value;
use vstd::prelude::*;

verus! {

/// A YAML document tree, restricted to what configuration documents use:
/// tables have text keys, and scalars are null, booleans or text (a number
/// is held as its text).
#[derive(Debug)]
pub enum Node {
    Null,
    Bool(bool),
    Text(String),
    List(Vec<Node>),
    Table(Vec<(String, Node)>),
}

/// The mathematical form of a [`Node`].
pub enum NodeV {
    Null,
    Bool(bool),
    Text(Seq<char>),
    List(Seq<NodeV>),
    Table(Seq<(Seq<char>, NodeV)>),
}

/// The mathematical form of a tree.
pub open spec fn node_view(n: Node) -> NodeV
    decreases n,
{
    match n {
        Node::Null => NodeV::Null,
        Node::Bool(b) => NodeV::Bool(b),
        Node::Text(s) => NodeV::Text(s@),
        Node::List(v) => NodeV::List(
            Seq::new(v.len() as nat, |i: int| if 0 <= i < v.len() { node_view(v[i]) } else { NodeV::Null }),
        ),
        Node::Table(v) => NodeV::Table(
            Seq::new(
                v.len() as nat,
                |i: int| if 0 <= i < v.len() { (v[i].0@, node_view(v[i].1)) } else { (Seq::empty(), NodeV::Null) },
            ),
        ),
    }
}

/// The mathematical form of a table's entries.
pub open spec fn entries_view(v: Seq<(String, Node)>) -> Seq<(Seq<char>, NodeV)> {
    v.map_values(|e: (String, Node)| (e.0@, node_view(e.1)))
}

/// The mathematical form of a list's items.
pub open spec fn items_view(v: Seq<Node>) -> Seq<NodeV> {
    v.map_values(|n: Node| node_view(n))
}

/// A table's form is the form of its entries.
pub proof fn lemma_table_view(v: Vec<(String, Node)>)
    ensures
        node_view(Node::Table(v)) == NodeV::Table(entries_view(v@)),
{
    assert(node_view(Node::Table(v))->Table_0 =~= entries_view(v@));
}

/// A list's form is the form of its items.
pub proof fn lemma_list_view(v: Vec<Node>)
    ensures
        node_view(Node::List(v)) == NodeV::List(items_view(v@)),
{
    assert(node_view(Node::List(v))->List_0 =~= items_view(v@));
}

impl View for Node {
    type V = NodeV;

    open spec fn view(&self) -> NodeV {
        node_view(*self)
    }
}

#[verifier::external_type_specification]
#[verifier::external_body]
pub struct ExYamlValue(Value);

/// The tree that serde_yaml reads from a text, where it reads one that a
/// [`Node`] can hold.
pub uninterp spec fn yaml_tree(text: Seq<char>) -> Option<NodeV>;

/// The text that serde_yaml writes for a tree, or `None` where it refuses to
/// write it.
pub uninterp spec fn yaml_text(tree: NodeV) -> Option<Seq<char>>;

/// Relies on `serde_yaml::from_str` (into `serde_yaml::Value`) to read YAML
/// text; the tree it gives depends on the text alone.
#[verifier::external_body]
pub(crate) fn read_yaml(text: &str) -> (r: Option<Node>)
    ensures
        r is Some ==> yaml_tree(text@) == Some(r->Some_0@),
        r is None ==> yaml_tree(text@) is None,
{
    match serde_yaml::from_str::<Value>(text) {
        Ok(v) => node_from_value(v),
        Err(_) => None,
    }
}

/// Relies on `serde_yaml::to_string` (of a `serde_yaml::Value`) to write YAML
/// text; whether it succeeds, and the text it gives, depend on the tree alone.
#[verifier::external_body]
pub(crate) fn write_yaml(tree: Node) -> (r: Option<String>)
    ensures
        match r {
            Some(s) => yaml_text(tree@) == Some(s@),
            None => yaml_text(tree@) is None,
        },
{
    serde_yaml::to_string(&value_from_node(tree)).ok()
}

/// Converts a `serde_yaml::Value` into a [`Node`], variant for variant; a
/// number becomes its text, and a tagged value or a table key that is not
/// text has no counterpart. Only [`read_yaml`] calls it.
#[verifier::external_body]
fn node_from_value(v: Value) -> Option<Node> {
    match v {
        Value::Null => Some(Node::Null),
        Value::Bool(b) => Some(Node::Bool(b)),
        Value::Number(n) => Some(Node::Text(n.to_string())),
        Value::String(s) => Some(Node::Text(s)),
        Value::Sequence(xs) => xs.into_iter().map(node_from_value).collect::<Option<_>>().map(Node::List),
        Value::Mapping(m) => m.into_iter().map(|(k, x)| match k {
            Value::String(k) => node_from_value(x).map(|n| (k, n)),
            _ => None,
        }).collect::<Option<_>>().map(Node::Table),
        Value::Tagged(_) => None,
    }
}

/// Converts a [`Node`] into a `serde_yaml::Value`, variant for variant. Only
/// [`write_yaml`] calls it.
#[verifier::external_body]
fn value_from_node(n: Node) -> Value {
    match n {
        Node::Null => Value::Null,
        Node::Bool(b) => Value::Bool(b),
        Node::Text(s) => Value::String(s),
        Node::List(xs) => Value::Sequence(xs.into_iter().map(value_from_node).collect()),
        Node::Table(es) => Value::Mapping(es.into_iter().map(|(k, x)| (Value::String(k), value_from_node(x))).collect()),
    }
}

} // verus!
