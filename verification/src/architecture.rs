//! The `LavaArchitecture` resource: spec, status, phases and conditions.

use crate::{bindings, text};
use indexmap::IndexMap;
use vstd::prelude::*;

verus! {

/// A resource: spec and status.
#[derive(Debug, PartialEq)]
pub struct LavaArchitecture {
    pub api_version: String,
    pub kind: String,
    pub metadata: ObjectMeta,
    pub spec: LavaArchitectureSpec,
    pub status: LavaArchitectureStatus,
}

impl Clone for LavaArchitecture {
    fn clone(&self) -> (r: LavaArchitecture)
        ensures
            r.api_version == self.api_version,
            r.kind == self.kind,
            same_meta(r.metadata, self.metadata),
            same_spec(r.spec, self.spec),
            same_status(r.status, self.status),
    {
        LavaArchitecture {
            api_version: self.api_version.clone(),
            kind: self.kind.clone(),
            metadata: self.metadata.clone(),
            spec: self.spec.clone(),
            status: self.status.clone(),
        }
    }
}

/// The part of the Kubernetes object metadata that the controller reads.
#[derive(Debug, PartialEq)]
pub struct ObjectMeta {
    pub name: String,
    pub namespace: Option<String>,
    pub labels: IndexMap<String, String>,
}

/// Do `a` and `b` hold the same?
pub open spec fn same_meta(a: ObjectMeta, b: ObjectMeta) -> bool {
    &&& a.name == b.name
    &&& a.namespace == b.namespace
    &&& bindings::binding_entries(a.labels) == bindings::binding_entries(b.labels)
}

impl Clone for ObjectMeta {
    fn clone(&self) -> (r: ObjectMeta)
        ensures
            same_meta(r, *self),
    {
        ObjectMeta {
            name: self.name.clone(),
            namespace: text::copy_opt(&self.namespace),
            labels: bindings::copy_bindings(&self.labels),
        }
    }
}

/// What the operator asks for.
#[derive(Debug, PartialEq)]
pub struct LavaArchitectureSpec {
    pub source: Source,
    pub bindings: IndexMap<String, String>,
    pub gate: Option<String>,
    pub engine: String,
}

/// Do `a` and `b` ask for the same?
pub open spec fn same_spec(a: LavaArchitectureSpec, b: LavaArchitectureSpec) -> bool {
    &&& a.source == b.source
    &&& bindings::binding_entries(a.bindings) == bindings::binding_entries(b.bindings)
    &&& a.gate == b.gate
    &&& a.engine == b.engine
}

impl Clone for LavaArchitectureSpec {
    fn clone(&self) -> (r: LavaArchitectureSpec)
        ensures
            same_spec(r, *self),
    {
        LavaArchitectureSpec {
            source: self.source.clone(),
            bindings: bindings::copy_bindings(&self.bindings),
            gate: text::copy_opt(&self.gate),
            engine: self.engine.clone(),
        }
    }
}

/// The engine of a spec that names none.
pub fn default_engine() -> (r: String)
    ensures
        r@ == "embedded"@,
{
    "embedded".to_owned()
}

/// Where the `.tlisp` text of an architecture comes from.
#[derive(Debug, PartialEq)]
pub enum Source {
    /// The text itself.
    Inline { inline: String },
    /// The name of a bundled architecture.
    Name { name: String },
    /// A path in a git repository at a revision.
    Git { url: String, rev: String, path: String },
}

/// The text that stands for a source: the inline text, the bundled name or the
/// path in the repository.
pub open spec fn source_chars(source: Source) -> Seq<char> {
    match source {
        Source::Inline { inline } => inline@,
        Source::Name { name } => name@,
        Source::Git { path, .. } => path@,
    }
}

impl Clone for Source {
    fn clone(&self) -> (r: Source)
        ensures
            r == *self,
    {
        match self {
            Source::Inline { inline } => Source::Inline { inline: inline.clone() },
            Source::Name { name } => Source::Name { name: name.clone() },
            Source::Git { url, rev, path } => Source::Git {
                url: url.clone(),
                rev: rev.clone(),
                path: path.clone(),
            },
        }
    }
}

/// What the controller reports back.
#[derive(Debug, PartialEq)]
pub struct LavaArchitectureStatus {
    pub phase: Option<Phase>,
    pub conditions: Vec<Condition>,
    pub last_synthesized_hash: Option<String>,
    pub last_applied_at: Option<String>,
}

/// Do `a` and `b` report the same?
pub open spec fn same_status(a: LavaArchitectureStatus, b: LavaArchitectureStatus) -> bool {
    &&& a.phase == b.phase
    &&& a.conditions@ == b.conditions@
    &&& a.last_synthesized_hash == b.last_synthesized_hash
    &&& a.last_applied_at == b.last_applied_at
}

impl Clone for LavaArchitectureStatus {
    fn clone(&self) -> (r: LavaArchitectureStatus)
        ensures
            same_status(r, *self),
    {
        LavaArchitectureStatus {
            phase: self.phase,
            conditions: copy_conditions(&self.conditions),
            last_synthesized_hash: text::copy_opt(&self.last_synthesized_hash),
            last_applied_at: text::copy_opt(&self.last_applied_at),
        }
    }
}

impl Default for LavaArchitectureStatus {
    fn default() -> (r: LavaArchitectureStatus)
        ensures
            r.phase is None,
            r.conditions@.len() == 0,
            r.last_synthesized_hash is None,
            r.last_applied_at is None,
    {
        LavaArchitectureStatus {
            phase: None,
            conditions: Vec::new(),
            last_synthesized_hash: None,
            last_applied_at: None,
        }
    }
}

/// The phase that the controller drives a resource through.
#[derive(Clone, Copy, Debug, PartialEq, Eq, Structural)]
pub enum Phase {
    /// Nothing rendered yet.
    Pending,
    /// The source was rendered to `terraform.json`.
    Synthesized,
    /// The engine planned; nothing applied yet.
    Planned,
    /// The live resources match the desired state.
    Applied,
    /// The live resources differ from the desired state.
    Drifted,
    /// Drift is being corrected.
    Reconverging,
    /// The resource is being destroyed.
    Finalizing,
    /// The last pass failed; the conditions say why.
    Failed,
}

/// The name of a phase.
pub open spec fn phase_chars(p: Phase) -> Seq<char> {
    match p {
        Phase::Pending => "Pending"@,
        Phase::Synthesized => "Synthesized"@,
        Phase::Planned => "Planned"@,
        Phase::Applied => "Applied"@,
        Phase::Drifted => "Drifted"@,
        Phase::Reconverging => "Reconverging"@,
        Phase::Finalizing => "Finalizing"@,
        Phase::Failed => "Failed"@,
    }
}

impl Phase {
    /// The name of the phase.
    pub fn as_str(self) -> (r: &'static str)
        ensures
            r@ == phase_chars(self),
    {
        match self {
            Phase::Pending => "Pending",
            Phase::Synthesized => "Synthesized",
            Phase::Planned => "Planned",
            Phase::Applied => "Applied",
            Phase::Drifted => "Drifted",
            Phase::Reconverging => "Reconverging",
            Phase::Finalizing => "Finalizing",
            Phase::Failed => "Failed",
        }
    }
}

/// The name of a phase is the word that it is written with.
pub proof fn law_phase_names(p: Phase)
    ensures
        phase_chars(p) == "Pending"@ <==> p == Phase::Pending,
        phase_chars(p) == "Synthesized"@ <==> p == Phase::Synthesized,
        phase_chars(p) == "Planned"@ <==> p == Phase::Planned,
        phase_chars(p) == "Applied"@ <==> p == Phase::Applied,
        phase_chars(p) == "Drifted"@ <==> p == Phase::Drifted,
        phase_chars(p) == "Reconverging"@ <==> p == Phase::Reconverging,
        phase_chars(p) == "Finalizing"@ <==> p == Phase::Finalizing,
        phase_chars(p) == "Failed"@ <==> p == Phase::Failed,
{
    reveal_strlit("Pending");
    reveal_strlit("Synthesized");
    reveal_strlit("Planned");
    reveal_strlit("Applied");
    reveal_strlit("Drifted");
    reveal_strlit("Reconverging");
    reveal_strlit("Finalizing");
    reveal_strlit("Failed");
    let t = phase_chars(p);
    if t == "Pending"@ {
        assert(t.len() == 7 && t[0] == 'P' && t[1] == 'e');
    }
    if t == "Synthesized"@ {
        assert(t.len() == 11 && t[0] == 'S' && t[1] == 'y');
    }
    if t == "Planned"@ {
        assert(t.len() == 7 && t[0] == 'P' && t[1] == 'l');
    }
    if t == "Applied"@ {
        assert(t.len() == 7 && t[0] == 'A' && t[1] == 'p');
    }
    if t == "Drifted"@ {
        assert(t.len() == 7 && t[0] == 'D' && t[1] == 'r');
    }
    if t == "Reconverging"@ {
        assert(t.len() == 12 && t[0] == 'R' && t[1] == 'e');
    }
    if t == "Finalizing"@ {
        assert(t.len() == 10 && t[0] == 'F' && t[1] == 'i');
    }
    if t == "Failed"@ {
        assert(t.len() == 6 && t[0] == 'F' && t[1] == 'a');
    }
}

/// No two phases share a name, and none has an empty name.
pub proof fn law_phase_names_are_distinct(p: Phase, q: Phase)
    ensures
        phase_chars(p) == phase_chars(q) ==> p == q,
        phase_chars(p).len() > 0,
{
    reveal_strlit("Pending");
    reveal_strlit("Synthesized");
    reveal_strlit("Planned");
    reveal_strlit("Applied");
    reveal_strlit("Drifted");
    reveal_strlit("Reconverging");
    reveal_strlit("Finalizing");
    reveal_strlit("Failed");
    if phase_chars(p) == phase_chars(q) {
        assert(phase_chars(p)[0] == phase_chars(q)[0]);
        assert(phase_chars(p)[1] == phase_chars(q)[1]);
        assert(phase_chars(p).len() == phase_chars(q).len());
    }
}

/// One observation about a resource.
#[derive(Debug, PartialEq)]
pub struct Condition {
    pub kind: String,
    /// `True`, `False` or `Unknown`.
    pub status: String,
    pub reason: Option<String>,
    pub message: Option<String>,
    pub last_transition_time: Option<String>,
}

impl Clone for Condition {
    fn clone(&self) -> (r: Condition)
        ensures
            r == *self,
    {
        Condition {
            kind: self.kind.clone(),
            status: self.status.clone(),
            reason: text::copy_opt(&self.reason),
            message: text::copy_opt(&self.message),
            last_transition_time: text::copy_opt(&self.last_transition_time),
        }
    }
}

/// A copy of a list of conditions.
pub(crate) fn copy_conditions(s: &Vec<Condition>) -> (r: Vec<Condition>)
    ensures
        r@ == s@,
{
    let mut out: Vec<Condition> = Vec::new();
    for i in 0..s.len()
        invariant
            out@ == s@.take(i as int),
    {
        out.push(s[i].clone());
        assert(s@.take(i as int + 1) =~= s@.take(i as int).push(s@[i as int]));
    }
    assert(s@.take(s@.len() as int) =~= s@);
    out
}

/// The texts of a condition.
#[verifier::ext_equal]
pub struct ConditionView {
    pub kind: Seq<char>,
    pub status: Seq<char>,
    pub reason: Option<Seq<char>>,
    pub message: Option<Seq<char>>,
    pub last_transition_time: Option<Seq<char>>,
}

impl View for Condition {
    type V = ConditionView;

    open spec fn view(&self) -> ConditionView {
        ConditionView {
            kind: self.kind@,
            status: self.status@,
            reason: text::opt_text(self.reason),
            message: text::opt_text(self.message),
            last_transition_time: text::opt_text(self.last_transition_time),
        }
    }
}

/// The views of a list of conditions.
pub open spec fn condition_views(s: Seq<Condition>) -> Seq<ConditionView> {
    s.map_values(|c: Condition| c@)
}

/// A condition that holds, with the reason why.
pub open spec fn ok_condition(kind: Seq<char>, reason: Seq<char>) -> ConditionView {
    ConditionView {
        kind,
        status: "True"@,
        reason: Some(reason),
        message: None,
        last_transition_time: None,
    }
}

/// A condition that does not hold, with the error's message.
pub open spec fn fail_condition(kind: Seq<char>, message: Seq<char>) -> ConditionView {
    ConditionView {
        kind,
        status: "False"@,
        reason: Some("Error"@),
        message: Some(message),
        last_transition_time: None,
    }
}

impl Condition {
    /// A condition with status `True` and a reason.
    pub fn ok(kind: &str, reason: &str) -> (r: Condition)
        ensures
            r@ == ok_condition(kind@, reason@),
    {
        Condition {
            kind: kind.to_owned(),
            status: "True".to_owned(),
            reason: Some(reason.to_owned()),
            message: None,
            last_transition_time: None,
        }
    }

    /// A condition with status `False`, reason `Error` and a message.
    pub fn fail(kind: &str, message: &str) -> (r: Condition)
        ensures
            r@ == fail_condition(kind@, message@),
    {
        Condition {
            kind: kind.to_owned(),
            status: "False".to_owned(),
            reason: Some("Error".to_owned()),
            message: Some(message.to_owned()),
            last_transition_time: None,
        }
    }
}

/// The text that stands for a source is its inline text, its name or its path,
/// to the letter.
pub proof fn law_source_is_told_by_its_text(source: Source)
    ensures
        source is Inline ==> source_chars(source) == source->inline@,
        source is Name ==> source_chars(source) == source->name@,
        source is Git ==> source_chars(source) == source->path@,
{
}

/// A condition is told by its five texts, each in its place.
pub proof fn law_condition_tells_its_texts(s: Seq<Condition>, i: int)
    requires
        0 <= i < s.len(),
    ensures
        condition_views(s).len() == s.len(),
        condition_views(s)[i].kind == s[i].kind@,
        condition_views(s)[i].status == s[i].status@,
        condition_views(s)[i].reason is Some <==> s[i].reason is Some,
        s[i].reason is Some ==> condition_views(s)[i].reason->0 == s[i].reason->0@,
        condition_views(s)[i].message is Some <==> s[i].message is Some,
        s[i].message is Some ==> condition_views(s)[i].message->0 == s[i].message->0@,
        condition_views(s)[i].last_transition_time is Some <==> s[i].last_transition_time is Some,
        s[i].last_transition_time is Some ==> condition_views(s)[i].last_transition_time->0
            == s[i].last_transition_time->0@,
{
}

/// A condition that holds says so and gives the reason; one that does not says
/// so and gives the error's message. Neither tells since when.
pub proof fn law_conditions_say_whether_they_hold(
    kind: Seq<char>,
    detail: Seq<char>,
    held: Condition,
    failed: Condition,
)
    requires
        held@ == ok_condition(kind, detail),
        failed@ == fail_condition(kind, detail),
    ensures
        held.kind@ == kind && failed.kind@ == kind,
        held.status@ == "True"@ && failed.status@ == "False"@,
        held.reason is Some && held.reason->0@ == detail,
        held.message is None,
        failed.reason is Some && failed.reason->0@ == "Error"@,
        failed.message is Some && failed.message->0@ == detail,
        held.last_transition_time is None && failed.last_transition_time is None,
{
}

/// A copy of a resource has the same metadata, spec and status, part by part.
pub proof fn law_copies_are_alike(
    m: ObjectMeta,
    n: ObjectMeta,
    a: LavaArchitectureSpec,
    b: LavaArchitectureSpec,
    s: LavaArchitectureStatus,
    t: LavaArchitectureStatus,
)
    requires
        same_meta(m, n),
        same_spec(a, b),
        same_status(s, t),
    ensures
        m.name == n.name && m.namespace == n.namespace,
        bindings::binding_entries(m.labels) == bindings::binding_entries(n.labels),
        a.source == b.source && a.gate == b.gate && a.engine == b.engine,
        bindings::binding_entries(a.bindings) == bindings::binding_entries(b.bindings),
        s.phase == t.phase && s.conditions@ == t.conditions@,
        s.last_synthesized_hash == t.last_synthesized_hash,
        s.last_applied_at == t.last_applied_at,
{
}

} // verus!
