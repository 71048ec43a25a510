//! The `CustomResourceDefinition` manifest of the resource.

use vstd::prelude::*;

verus! {

/// The YAML value of the `serde_yaml` crate.
#[verifier::external_type_specification]
#[verifier::external_body]
pub struct ExYamlValue(serde_yaml::Value);

/// The error of the `serde_yaml` crate.
#[verifier::external_type_specification]
#[verifier::external_body]
pub struct ExYamlError(serde_yaml::Error);

/// A YAML document as a tree. A table keeps its entries in order.
pub enum YamlNode {
    Text(Seq<char>),
    Flag(bool),
    List(Seq<YamlNode>),
    Table(Seq<(Seq<char>, YamlNode)>),
}

/// What a YAML value holds.
pub uninterp spec fn yaml_node(v: serde_yaml::Value) -> YamlNode;

/// The YAML text that `serde_yaml` writes for a tree, if it writes one.
pub uninterp spec fn yaml_text(n: YamlNode) -> Option<Seq<char>>;

/// What each of a list of YAML values holds.
pub open spec fn yaml_nodes(s: Seq<serde_yaml::Value>) -> Seq<YamlNode> {
    s.map_values(|v: serde_yaml::Value| yaml_node(v))
}

/// What each of a list of named YAML values holds, with its name.
pub open spec fn yaml_entries(s: Seq<(&str, serde_yaml::Value)>) -> Seq<(Seq<char>, YamlNode)> {
    s.map_values(|e: (&str, serde_yaml::Value)| (e.0@, yaml_node(e.1)))
}

/// `serde_yaml::Value::from` on a string: the string itself.
#[verifier::external_body]
fn yaml_string(s: &str) -> (r: serde_yaml::Value)
    ensures
        yaml_node(r) == YamlNode::Text(s@),
{
    serde_yaml::Value::from(s)
}

/// `serde_yaml::Value::Bool`: the flag itself.
#[verifier::external_body]
fn yaml_flag(b: bool) -> (r: serde_yaml::Value)
    ensures
        yaml_node(r) == YamlNode::Flag(b),
{
    serde_yaml::Value::Bool(b)
}

/// `serde_yaml::Value::Sequence`: the values in their order.
#[verifier::external_body]
fn yaml_list(values: Vec<serde_yaml::Value>) -> (r: serde_yaml::Value)
    ensures
        yaml_node(r) == YamlNode::List(yaml_nodes(values@)),
{
    serde_yaml::Value::Sequence(values)
}

/// `serde_yaml::Mapping::from_iter`: the entries in their order, as long as no
/// name comes twice.
#[verifier::external_body]
fn yaml_table(entries: Vec<(&str, serde_yaml::Value)>) -> (r: serde_yaml::Value)
    requires
        crate::bindings::distinct_keys(yaml_entries(entries@)),
    ensures
        yaml_node(r) == YamlNode::Table(yaml_entries(entries@)),
{
    let pairs = entries.into_iter().map(|(k, v)| (serde_yaml::Value::from(k), v));
    serde_yaml::Value::Mapping(serde_yaml::Mapping::from_iter(pairs))
}

/// `serde_yaml::to_string` on a YAML value: whether it writes a text, and
/// which, is a function of what the value holds.
#[verifier::external_body]
fn yaml_write(v: &serde_yaml::Value) -> (r: Result<String, serde_yaml::Error>)
    ensures
        match yaml_text(yaml_node(*v)) {
            Some(t) => r is Ok && r->Ok_0@ == t,
            None => r is Err,
        },
{
    serde_yaml::to_string(v)
}

/// The names under which the resource is served.
pub open spec fn crd_names() -> YamlNode {
    YamlNode::Table(
        seq![
            ("kind"@, YamlNode::Text("LavaArchitecture"@)),
            ("listKind"@, YamlNode::Text("LavaArchitectureList"@)),
            ("plural"@, YamlNode::Text("lavaarchitectures"@)),
            ("singular"@, YamlNode::Text("lavaarchitecture"@)),
        ],
    )
}

/// The one version: served, and the one that is stored.
pub open spec fn crd_version() -> YamlNode {
    YamlNode::Table(
        seq![
            ("name"@, YamlNode::Text("v1alpha1"@)),
            ("served"@, YamlNode::Flag(true)),
            ("storage"@, YamlNode::Flag(true)),
        ],
    )
}

/// The spec of the definition.
pub open spec fn crd_spec() -> YamlNode {
    YamlNode::Table(
        seq![
            ("group"@, YamlNode::Text("lava.pleme.io"@)),
            ("scope"@, YamlNode::Text("Namespaced"@)),
            ("names"@, crd_names()),
            ("versions"@, YamlNode::List(seq![crd_version()])),
        ],
    )
}

/// The metadata of the definition.
pub open spec fn crd_metadata() -> YamlNode {
    YamlNode::Table(seq![("name"@, YamlNode::Text("lavaarchitectures.lava.pleme.io"@))])
}

/// The manifest.
pub open spec fn crd_document() -> YamlNode {
    YamlNode::Table(
        seq![
            ("apiVersion"@, YamlNode::Text("apiextensions.k8s.io/v1"@)),
            ("kind"@, YamlNode::Text("CustomResourceDefinition"@)),
            ("metadata"@, crd_metadata()),
            ("spec"@, crd_spec()),
        ],
    )
}

fn names_value() -> (r: serde_yaml::Value)
    ensures
        yaml_node(r) == crd_names(),
{
    let entries = vec![
        ("kind", yaml_string("LavaArchitecture")),
        ("listKind", yaml_string("LavaArchitectureList")),
        ("plural", yaml_string("lavaarchitectures")),
        ("singular", yaml_string("lavaarchitecture")),
    ];
    proof {
        reveal_strlit("kind");
        reveal_strlit("listKind");
        reveal_strlit("plural");
        reveal_strlit("singular");
        assert(yaml_entries(entries@) =~= crd_names()->Table_0);
        assert("kind"@[0] == 'k' && "listKind"@[0] == 'l' && "plural"@[0] == 'p' && "singular"@[0]
            == 's');
    }
    yaml_table(entries)
}

fn version_value() -> (r: serde_yaml::Value)
    ensures
        yaml_node(r) == crd_version(),
{
    let entries = vec![
        ("name", yaml_string("v1alpha1")),
        ("served", yaml_flag(true)),
        ("storage", yaml_flag(true)),
    ];
    proof {
        reveal_strlit("name");
        reveal_strlit("served");
        reveal_strlit("storage");
        assert(yaml_entries(entries@) =~= crd_version()->Table_0);
        assert("name"@[0] == 'n' && "served"@[1] == 'e' && "storage"@[1] == 't');
    }
    yaml_table(entries)
}

fn metadata_value() -> (r: serde_yaml::Value)
    ensures
        yaml_node(r) == crd_metadata(),
{
    let entries = vec![("name", yaml_string("lavaarchitectures.lava.pleme.io"))];
    assert(yaml_entries(entries@) =~= crd_metadata()->Table_0);
    yaml_table(entries)
}

fn spec_value() -> (r: serde_yaml::Value)
    ensures
        yaml_node(r) == crd_spec(),
{
    let versions = vec![version_value()];
    assert(yaml_nodes(versions@) =~= seq![crd_version()]);
    let entries = vec![
        ("group", yaml_string("lava.pleme.io")),
        ("scope", yaml_string("Namespaced")),
        ("names", names_value()),
        ("versions", yaml_list(versions)),
    ];
    proof {
        reveal_strlit("group");
        reveal_strlit("scope");
        reveal_strlit("names");
        reveal_strlit("versions");
        assert(yaml_entries(entries@) =~= crd_spec()->Table_0);
        assert("group"@[0] == 'g' && "scope"@[0] == 's' && "names"@[0] == 'n' && "versions"@[0]
            == 'v');
    }
    yaml_table(entries)
}

/// The manifest as a YAML value.
pub fn crd_value() -> (r: serde_yaml::Value)
    ensures
        yaml_node(r) == crd_document(),
{
    let entries = vec![
        ("apiVersion", yaml_string("apiextensions.k8s.io/v1")),
        ("kind", yaml_string("CustomResourceDefinition")),
        ("metadata", metadata_value()),
        ("spec", spec_value()),
    ];
    proof {
        reveal_strlit("apiVersion");
        reveal_strlit("kind");
        reveal_strlit("metadata");
        reveal_strlit("spec");
        assert(yaml_entries(entries@) =~= crd_document()->Table_0);
        assert("apiVersion"@[0] == 'a' && "kind"@[0] == 'k' && "metadata"@[0] == 'm' && "spec"@[0]
            == 's');
    }
    yaml_table(entries)
}

/// The manifest as YAML text, for `kubectl apply`. Empty if it cannot be written.
pub fn crd_yaml() -> (r: String)
    ensures
        r@ == (match yaml_text(crd_document()) {
            Some(t) => t,
            None => Seq::<char>::empty(),
        }),
{
    match yaml_write(&crd_value()) {
        Ok(text) => text,
        Err(_) => String::new(),
    }
}

/// The definition is named by its plural and its group, the list by the kind,
/// and its one version is both served and stored.
pub proof fn law_manifest_names_agree()
    ensures
        crd_document()->Table_0[2] == ("metadata"@, crd_metadata()),
        crd_document()->Table_0[3] == ("spec"@, crd_spec()),
        crd_spec()->Table_0[2] == ("names"@, crd_names()),
        crd_metadata()->Table_0[0].1->Text_0 == crd_names()->Table_0[2].1->Text_0 + "."@
            + crd_spec()->Table_0[0].1->Text_0,
        crd_names()->Table_0[1].1->Text_0 == crd_names()->Table_0[0].1->Text_0 + "List"@,
        crd_names()->Table_0[2].1->Text_0 == crd_names()->Table_0[3].1->Text_0 + "s"@,
        crd_spec()->Table_0[3].1 == YamlNode::List(seq![crd_version()]),
        crd_version()->Table_0[1] == ("served"@, YamlNode::Flag(true)),
        crd_version()->Table_0[2] == ("storage"@, YamlNode::Flag(true)),
{
    reveal_strlit("lavaarchitectures.lava.pleme.io");
    reveal_strlit("lavaarchitectures");
    reveal_strlit("lavaarchitecture");
    reveal_strlit("lava.pleme.io");
    reveal_strlit("LavaArchitecture");
    reveal_strlit("LavaArchitectureList");
    reveal_strlit(".");
    reveal_strlit("List");
    reveal_strlit("s");
    assert("lavaarchitectures.lava.pleme.io"@ =~= "lavaarchitectures"@ + "."@ + "lava.pleme.io"@);
    assert("LavaArchitectureList"@ =~= "LavaArchitecture"@ + "List"@);
    assert("lavaarchitectures"@ =~= "lavaarchitecture"@ + "s"@);
}

} // verus!
