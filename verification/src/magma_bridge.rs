//! The bridge to the magma-lava renderer.

use crate::architecture::Source;
use crate::bindings;
use indexmap::IndexMap;
use magma_lava::Binding as LavaBinding;
use vstd::prelude::*;

verus! {

/// Where the renderer gets its `.tlisp` text from.
#[derive(Clone, Debug, PartialEq)]
pub enum LavaSource {
    /// The text itself.
    Inline { inline: String },
    /// The name of a bundled architecture.
    Bundled { name: String },
    /// A file.
    Path { path: String },
}

/// What a binding binds a name to.
#[derive(Clone, Debug, PartialEq)]
pub enum Binding {
    Scalar(String),
    List(Vec<String>),
}

/// What a binding says.
pub enum BindingView {
    Scalar(Seq<char>),
    List(Seq<Seq<char>>),
}

impl View for Binding {
    type V = BindingView;

    open spec fn view(&self) -> BindingView {
        match *self {
            Binding::Scalar(s) => BindingView::Scalar(s@),
            Binding::List(l) => BindingView::List(crate::text::texts(l@)),
        }
    }
}

/// The binding of the `magma_lava` crate.
#[verifier::external_type_specification]
#[verifier::external_body]
pub struct ExLavaBinding(LavaBinding);

/// What a map of the renderer's bindings holds, in insertion order.
pub uninterp spec fn artifact_entries(m: IndexMap<String, LavaBinding>) -> Seq<
    (Seq<char>, BindingView),
>;

/// `indexmap::IndexMap::new`: a map that holds nothing.
#[verifier::external_body]
fn new_artifact_bindings() -> (r: IndexMap<String, LavaBinding>)
    ensures
        artifact_entries(r) == Seq::<(Seq<char>, BindingView)>::empty(),
{
    IndexMap::new()
}

/// `indexmap::IndexMap::insert`: a key that is there keeps its place and gets
/// the new binding, a new key comes last.
#[verifier::external_body]
fn insert_artifact_binding(m: &mut IndexMap<String, LavaBinding>, key: String, value: Binding)
    ensures
        artifact_entries(*final(m)) == bindings::put(artifact_entries(*old(m)), key@, value@),
{
    let value = match value {
        Binding::Scalar(s) => LavaBinding::Scalar(s),
        Binding::List(l) => LavaBinding::List(l),
    };
    m.insert(key, value);
}

/// The renderer's source: a git source is read from its path.
pub open spec fn rendered_source(src: Source) -> LavaSource {
    match src {
        Source::Inline { inline } => LavaSource::Inline { inline },
        Source::Name { name } => LavaSource::Bundled { name },
        Source::Git { path, .. } => LavaSource::Path { path },
    }
}

/// The renderer's source.
pub fn source_to_lava_source(src: &Source) -> (r: LavaSource)
    ensures
        r == rendered_source(*src),
        src matches Source::Inline { inline } ==> r == (LavaSource::Inline { inline: *inline }),
        src matches Source::Name { name } ==> r == (LavaSource::Bundled { name: *name }),
        src matches Source::Git { url, rev, path } ==> r == (LavaSource::Path { path: *path }),
{
    match src {
        Source::Inline { inline } => LavaSource::Inline { inline: inline.clone() },
        Source::Name { name } => LavaSource::Bundled { name: name.clone() },
        Source::Git { url: _, rev: _, path } => LavaSource::Path { path: path.clone() },
    }
}

/// Each of `entries` as a scalar binding.
pub open spec fn scalar_entries(entries: Seq<(Seq<char>, Seq<char>)>) -> Seq<
    (Seq<char>, BindingView),
> {
    entries.map_values(|e: (Seq<char>, Seq<char>)| (e.0, BindingView::Scalar(e.1)))
}

/// The renderer gets as many bindings as there are, each under its key, in its
/// place, and bound to one text: the value to the letter.
pub proof fn law_every_binding_reaches_the_renderer(
    b: IndexMap<String, String>,
    r: IndexMap<String, LavaBinding>,
    i: int,
)
    requires
        artifact_entries(r) == scalar_entries(bindings::binding_entries(b)),
        0 <= i < bindings::binding_entries(b).len(),
    ensures
        artifact_entries(r).len() == bindings::binding_entries(b).len(),
        artifact_entries(r)[i].0 == bindings::binding_entries(b)[i].0,
        artifact_entries(r)[i].1 is Scalar,
        artifact_entries(r)[i].1->Scalar_0.len() == bindings::binding_entries(b)[i].1.len(),
        forall|j: int|
            0 <= j < bindings::binding_entries(b)[i].1.len() ==> (
            #[trigger] artifact_entries(r)[i].1->Scalar_0[j]) == bindings::binding_entries(
                b,
            )[i].1[j],
{
}

/// A map without bindings gives the renderer none.
pub proof fn law_no_binding_is_made_up(b: IndexMap<String, String>, r: IndexMap<String, LavaBinding>)
    requires
        artifact_entries(r) == scalar_entries(bindings::binding_entries(b)),
        bindings::binding_entries(b).len() == 0,
    ensures
        artifact_entries(r).len() == 0,
{
}

/// A binding is told by what it holds: a scalar by its text, a list by its
/// texts in their order.
pub proof fn law_binding_tells_what_it_holds(s: String, l: Vec<String>, i: int)
    requires
        0 <= i < l@.len(),
    ensures
        Binding::Scalar(s)@ is Scalar,
        Binding::Scalar(s)@->Scalar_0 == s@,
        Binding::List(l)@ is List,
        Binding::List(l)@->List_0.len() == l@.len(),
        Binding::List(l)@->List_0[i] == l@[i]@,
{
}

/// The renderer reads an inline source from its text, a named one from the
/// bundled architecture of that name, and a git one from its path.
pub proof fn law_renderer_reads_the_source(src: Source)
    ensures
        src is Inline <==> rendered_source(src) is Inline,
        src is Inline ==> rendered_source(src)->inline == src->inline,
        src is Name <==> rendered_source(src) is Bundled,
        src is Name ==> rendered_source(src)->Bundled_name == src->name,
        src is Git <==> rendered_source(src) is Path,
        src is Git ==> rendered_source(src)->Path_path == src->path,
{
}

/// The renderer's bindings: every value as a scalar, under its key, in its place.
pub fn bindings_to_artifact_bindings(b: &IndexMap<String, String>) -> (r: IndexMap<
    String,
    LavaBinding,
>)
    ensures
        artifact_entries(r) == scalar_entries(bindings::binding_entries(*b)),
        artifact_entries(r).len() == bindings::binding_entries(*b).len(),
        forall|i: int|
            0 <= i < bindings::binding_entries(*b).len() ==> {
                &&& (#[trigger] artifact_entries(r)[i]).0 == bindings::binding_entries(*b)[i].0
                &&& artifact_entries(r)[i].1 == BindingView::Scalar(
                    bindings::binding_entries(*b)[i].1,
                )
            },
{
    let items = bindings::binding_list(b);
    let ghost pairs = bindings::pair_texts(items@);
    let ghost want = scalar_entries(pairs);
    let mut out = new_artifact_bindings();
    assert(want.take(0) =~= Seq::empty());
    for i in 0..items.len()
        invariant
            pairs == bindings::pair_texts(items@),
            want == scalar_entries(pairs),
            artifact_entries(out) == bindings::put_all(want.take(i as int)),
    {
        insert_artifact_binding(&mut out, items[i].0.clone(), Binding::Scalar(items[i].1.clone()));
        assert(want.take(i as int + 1).drop_last() =~= want.take(i as int));
        assert(want.take(i as int + 1).last() == want[i as int]);
        assert(pairs[i as int] == (items@[i as int].0@, items@[i as int].1@));
    }
    proof {
        assert(want.take(items@.len() as int) =~= want);
        assert(bindings::distinct_keys(want)) by {
            assert forall|i: int, j: int| 0 <= i < j < want.len() implies (#[trigger] want[i]).0
                != (#[trigger] want[j]).0 by {
                assert(want[i].0 == pairs[i].0 && want[j].0 == pairs[j].0);
            }
        }
        bindings::lemma_put_all_distinct(want);
    }
    out
}

/// Renders a source to `terraform.json`: hands the renderer a source, bindings
/// and a gate in its own terms, and returns what it answers.
pub fn magma_lava_synthesize<C>(
    synthesize_source: C,
    src: &Source,
    bindings: &IndexMap<String, String>,
    gate: Option<&str>,
) -> (r: Result<serde_json::Value, String>) where
    C: FnOnce(&LavaSource, &IndexMap<String, LavaBinding>, Option<&str>) -> Result<
        serde_json::Value,
        String,
    >,

    requires
        forall|b: IndexMap<String, LavaBinding>| #[trigger]
            artifact_entries(b) == scalar_entries(bindings::binding_entries(*bindings))
                ==> call_requires(synthesize_source, (&rendered_source(*src), &b, gate)),
    ensures
        exists|b: IndexMap<String, LavaBinding>| #[trigger]
            artifact_entries(b) == scalar_entries(bindings::binding_entries(*bindings))
                && call_ensures(synthesize_source, (&rendered_source(*src), &b, gate), r),
{
    let lava_source = source_to_lava_source(src);
    let lava_bindings = bindings_to_artifact_bindings(bindings);
    synthesize_source(&lava_source, &lava_bindings, gate)
}

} // verus!
