//! The resources as a cluster holds them, and what a reconcile pass reads from
//! them and writes back.

use crate::anomaly::{RemediationAction, RemediationPolicy};
use crate::architecture::{Condition, LavaArchitectureSpec, Phase, Source};
use crate::chain::{AddressView, ResourceAddress};
use crate::drift::{DriftFinding, PlannerError};
use crate::viggy_loop::{Beat, BeatOutcome, BeatStatus, BeatView, TickPhase, TickReport};
use crate::{architecture, bindings, drift, reconcile, text, viggy_loop};
use indexmap::IndexMap;
use vstd::prelude::*;
use vstd::std_specs::convert::FromSpecImpl;
use vstd::string::*;

verus! {

/// The spec of a `LavaArchitecture`.
#[derive(Clone, Debug, PartialEq)]
pub struct LavaArchitectureSpecCR {
    pub source: SourceCR,
    /// Names and values, the names in ascending order.
    pub bindings: Vec<(String, String)>,
    pub gate: Option<String>,
    pub engine: String,
}

/// Does `a` come before `b`, character by character?
pub open spec fn text_before(a: Seq<char>, b: Seq<char>) -> bool
    decreases a.len(),
{
    if a.len() == 0 || b.len() == 0 {
        a.len() < b.len()
    } else if a[0] == b[0] {
        text_before(a.skip(1), b.skip(1))
    } else {
        (a[0] as int) < b[0] as int
    }
}

impl LavaArchitectureSpecCR {
    /// No name is bound twice, and the names ascend.
    pub open spec fn well_formed(self) -> bool {
        let pairs = bindings::pair_texts(self.bindings@);
        forall|i: int, j: int|
            0 <= i < j < pairs.len() ==> text_before(
                (#[trigger] pairs[i]).0,
                (#[trigger] pairs[j]).0,
            )
    }
}

/// The engine of a spec that names none.
pub fn default_engine() -> (r: String)
    ensures
        r@ == "embedded"@,
{
    "embedded".to_owned()
}

/// A source as an author writes it: `inline`, or `name`, or all of `url`,
/// `rev` and `path`.
#[derive(Clone, Debug, PartialEq)]
pub struct SourceCR {
    pub inline: Option<String>,
    pub name: Option<String>,
    pub url: Option<String>,
    pub rev: Option<String>,
    pub path: Option<String>,
}

impl Default for SourceCR {
    fn default() -> (r: SourceCR)
        ensures
            r == (SourceCR { inline: None, name: None, url: None, rev: None, path: None }),
    {
        SourceCR { inline: None, name: None, url: None, rev: None, path: None }
    }
}

/// The source that is written down: inline text before a name before a
/// complete git reference.
pub open spec fn written_source(s: SourceCR) -> Option<Source> {
    if s.inline is Some {
        Some(Source::Inline { inline: s.inline->0 })
    } else if s.name is Some {
        Some(Source::Name { name: s.name->0 })
    } else if s.url is Some && s.rev is Some && s.path is Some {
        Some(Source::Git { url: s.url->0, rev: s.rev->0, path: s.path->0 })
    } else {
        None
    }
}

impl SourceCR {
    /// The source that is written down. Precedence: inline, name, git. None
    /// where no form is complete.
    pub fn variant(&self) -> (r: Option<Source>)
        ensures
            r == written_source(*self),
    {
        if let Some(inline) = &self.inline {
            Some(Source::Inline { inline: inline.clone() })
        } else if let Some(name) = &self.name {
            Some(Source::Name { name: name.clone() })
        } else if let (Some(url), Some(rev), Some(path)) = (&self.url, &self.rev, &self.path) {
            Some(Source::Git { url: url.clone(), rev: rev.clone(), path: path.clone() })
        } else {
            None
        }
    }
}

/// Inline text is taken before everything else, a name before a git reference,
/// and nothing only where no form is complete.
pub proof fn law_source_precedence(s: SourceCR)
    ensures
        s.inline is Some <==> (written_source(s) is Some && written_source(s)->0 is Inline),
        (s.inline is None && s.name is Some) <==> (written_source(s) is Some && written_source(
            s,
        )->0 is Name),
        written_source(s) is None <==> s.inline is None && s.name is None && (s.url is None
            || s.rev is None || s.path is None),
{
}

/// The status of a `LavaArchitecture`.
#[derive(Clone, Debug, PartialEq)]
pub struct LavaArchitectureStatusCR {
    pub phase: Option<String>,
    pub conditions: Vec<ConditionCR>,
    pub last_synthesized_hash: Option<String>,
    pub last_applied_at: Option<String>,
}

impl Default for LavaArchitectureStatusCR {
    fn default() -> (r: LavaArchitectureStatusCR)
        ensures
            r.phase is None,
            r.conditions@.len() == 0,
            r.last_synthesized_hash is None,
            r.last_applied_at is None,
    {
        LavaArchitectureStatusCR {
            phase: None,
            conditions: Vec::new(),
            last_synthesized_hash: None,
            last_applied_at: None,
        }
    }
}

/// One condition of a status.
#[derive(Clone, Debug, PartialEq)]
pub struct ConditionCR {
    pub kind: String,
    pub status: String,
    pub reason: Option<String>,
    pub message: Option<String>,
}

/// The texts of a status condition.
#[verifier::ext_equal]
pub struct ConditionCRView {
    pub kind: Seq<char>,
    pub status: Seq<char>,
    pub reason: Option<Seq<char>>,
    pub message: Option<Seq<char>>,
}

impl View for ConditionCR {
    type V = ConditionCRView;

    open spec fn view(&self) -> ConditionCRView {
        ConditionCRView {
            kind: self.kind@,
            status: self.status@,
            reason: text::opt_text(self.reason),
            message: text::opt_text(self.message),
        }
    }
}

/// The views of a list of status conditions.
pub open spec fn condition_cr_views(s: Seq<ConditionCR>) -> Seq<ConditionCRView> {
    s.map_values(|c: ConditionCR| c@)
}

impl From<&Condition> for ConditionCR {
    fn from(c: &Condition) -> (r: ConditionCR) {
        ConditionCR {
            kind: c.kind.clone(),
            status: c.status.clone(),
            reason: text::copy_opt(&c.reason),
            message: text::copy_opt(&c.message),
        }
    }
}

impl FromSpecImpl<&Condition> for ConditionCR {
    open spec fn obeys_from_spec() -> bool {
        true
    }

    open spec fn from_spec(c: &Condition) -> ConditionCR {
        ConditionCR { kind: c.kind, status: c.status, reason: c.reason, message: c.message }
    }
}

/// The spec of a `RemediationPolicy`: an action for each severity, by name.
#[derive(Clone, Debug, PartialEq)]
pub struct RemediationPolicySpec {
    pub cosmetic: String,
    pub functional: String,
    pub critical: String,
    pub escalation: Option<EscalationLadderCR>,
}

/// Whom to notify, tier by tier.
#[derive(Clone, Debug, PartialEq)]
pub struct EscalationLadderCR {
    pub tiers: Vec<EscalationTierCR>,
}

/// One tier of a ladder.
#[derive(Clone, Debug, PartialEq)]
pub struct EscalationTierCR {
    pub target: NotifyTargetCR,
    /// How long to wait before the next tier, as an ISO 8601 duration.
    pub wait_before_next: String,
}

/// The wait of a tier that names none.
pub fn default_tier_wait() -> (r: String)
    ensures
        r@ == "PT15M"@,
{
    "PT15M".to_owned()
}

/// Where a notification goes.
#[derive(Clone, Debug, PartialEq)]
pub struct NotifyTargetCR {
    /// `slack`, `ntfy`, `pagerduty`, `email` or `webhook`.
    pub kind: String,
    pub webhook_secret_ref: Option<String>,
    pub topic: Option<String>,
    pub service_key_secret_ref: Option<String>,
    pub address: Option<String>,
    pub url: Option<String>,
    pub secret_ref: Option<String>,
}

/// The action with this name; an unknown name is an alert.
pub open spec fn action_named(name: Seq<char>) -> RemediationAction {
    if name == "NoOp"@ {
        RemediationAction::NoOp
    } else if name == "AutoCorrect"@ {
        RemediationAction::AutoCorrect
    } else if name == "RequireApproval"@ {
        RemediationAction::RequireApproval
    } else if name == "Escalate"@ {
        RemediationAction::Escalate
    } else {
        RemediationAction::Alert
    }
}

/// The name of an action.
pub open spec fn action_chars(a: RemediationAction) -> Seq<char> {
    match a {
        RemediationAction::NoOp => "NoOp"@,
        RemediationAction::Alert => "Alert"@,
        RemediationAction::AutoCorrect => "AutoCorrect"@,
        RemediationAction::RequireApproval => "RequireApproval"@,
        RemediationAction::Escalate => "Escalate"@,
    }
}

/// Every action is read back from its name, and every text that names none is
/// an alert.
pub proof fn law_action_names(name: Seq<char>, a: RemediationAction)
    ensures
        action_named(action_chars(a)) == a,
        (forall|b: RemediationAction| name != #[trigger] action_chars(b)) ==> action_named(name)
            == RemediationAction::Alert,
{
    reveal_strlit("NoOp");
    reveal_strlit("Alert");
    reveal_strlit("AutoCorrect");
    reveal_strlit("RequireApproval");
    reveal_strlit("Escalate");
    assert("NoOp"@[0] == 'N' && "Alert"@[1] == 'l' && "AutoCorrect"@[1] == 'u'
        && "RequireApproval"@[0] == 'R' && "Escalate"@[0] == 'E');
    assert("Alert"@[0] == 'A' && "AutoCorrect"@[0] == 'A');
    if forall|b: RemediationAction| name != #[trigger] action_chars(b) {
        assert(name != action_chars(RemediationAction::NoOp));
        assert(name != action_chars(RemediationAction::AutoCorrect));
        assert(name != action_chars(RemediationAction::RequireApproval));
        assert(name != action_chars(RemediationAction::Escalate));
    }
}

fn parse_action(name: &str) -> (r: RemediationAction)
    ensures
        r == action_named(name@),
{
    if text::same_text(name, "NoOp") {
        RemediationAction::NoOp
    } else if text::same_text(name, "AutoCorrect") {
        RemediationAction::AutoCorrect
    } else if text::same_text(name, "RequireApproval") {
        RemediationAction::RequireApproval
    } else if text::same_text(name, "Escalate") {
        RemediationAction::Escalate
    } else {
        RemediationAction::Alert
    }
}

impl RemediationPolicySpec {
    /// The policy that the spec writes down. An unknown action is an alert.
    /// The ladder is not taken over: its waits are not parsed.
    pub fn to_policy(&self) -> (r: RemediationPolicy)
        ensures
            r == (RemediationPolicy {
                cosmetic: action_named(self.cosmetic@),
                functional: action_named(self.functional@),
                critical: action_named(self.critical@),
                escalation: None,
            }),
    {
        RemediationPolicy {
            cosmetic: parse_action(self.cosmetic.as_str()),
            functional: parse_action(self.functional.as_str()),
            critical: parse_action(self.critical.as_str()),
            escalation: None,
        }
    }
}

/// The spec of a `LavaArchitectureDependency`.
#[derive(Clone, Debug, PartialEq)]
pub struct LavaArchitectureDependencySpec {
    pub from: ResourceRefCR,
    pub to: ResourceRefCR,
    /// `BlocksOn` or `Influences`.
    pub kind: String,
    pub require_phase: String,
}

/// The phase that a dependency asks for where it names none.
pub fn default_require_phase() -> (r: String)
    ensures
        r@ == "Applied"@,
{
    "Applied".to_owned()
}

/// A resource by cluster, namespace and name.
#[derive(Clone, Debug, PartialEq)]
pub struct ResourceRefCR {
    pub cluster: String,
    pub namespace: String,
    pub name: String,
}

impl ResourceRefCR {
    /// The address of the resource.
    pub fn address(&self) -> (r: ResourceAddress)
        ensures
            r@ == (AddressView {
                cluster: self.cluster@,
                namespace: self.namespace@,
                name: self.name@,
            }),
    {
        ResourceAddress::new(self.cluster.as_str(), self.namespace.as_str(), self.name.as_str())
    }
}

/// How one resource depends on another.
#[derive(Clone, Copy, Debug, PartialEq, Eq, Structural)]
pub enum DependencyKind {
    /// It waits for the other.
    BlocksOn,
    /// It is looked at again when the other changes.
    Influences,
}

/// A dependency between two resources.
#[derive(Clone, Debug, PartialEq)]
pub struct LavaArchitectureDependency {
    pub from: ResourceAddress,
    pub to: ResourceAddress,
    pub kind: DependencyKind,
    pub require_phase: String,
}

/// The kind with this name; an unknown name blocks.
pub open spec fn dependency_kind_named(name: Seq<char>) -> DependencyKind {
    if name == "Influences"@ {
        DependencyKind::Influences
    } else {
        DependencyKind::BlocksOn
    }
}

impl LavaArchitectureDependencySpec {
    /// The dependency that the spec writes down.
    pub fn to_lib(&self) -> (r: LavaArchitectureDependency)
        ensures
            r.from@ == (AddressView {
                cluster: self.from.cluster@,
                namespace: self.from.namespace@,
                name: self.from.name@,
            }),
            r.to@ == (AddressView {
                cluster: self.to.cluster@,
                namespace: self.to.namespace@,
                name: self.to.name@,
            }),
            r.kind == dependency_kind_named(self.kind@),
            r.require_phase == self.require_phase,
    {
        let kind = if text::same_text(self.kind.as_str(), "Influences") {
            DependencyKind::Influences
        } else {
            DependencyKind::BlocksOn
        };
        LavaArchitectureDependency {
            from: self.from.address(),
            to: self.to.address(),
            kind,
            require_phase: self.require_phase.clone(),
        }
    }
}

/// The source of a spec: what is written down, or an empty architecture.
pub open spec fn spec_source_is(s: SourceCR, source: Source) -> bool {
    match written_source(s) {
        Some(written) => source == written,
        None => source matches Source::Inline { inline } && inline@
            == "(deflava-architecture empty :inputs () :resources ())"@,
    }
}

/// What an author writes is what a pass renders and a planner reads: inline
/// text to the letter wherever there is one, else the name, else the url, the
/// revision and the path, of which a planner reads the path. Only where none of
/// the three forms is complete does an empty architecture stand in.
pub proof fn law_written_source_is_kept(s: SourceCR, source: Source)
    requires
        spec_source_is(s, source),
    ensures
        s.inline matches Some(t) ==> {
            &&& source is Inline
            &&& source->inline == t
            &&& architecture::source_chars(source) == t@
        },
        s.inline is None ==> (s.name matches Some(n) ==> {
            &&& source is Name
            &&& source->name == n
            &&& architecture::source_chars(source) == n@
        }),
        s.inline is None && s.name is None && s.url is Some && s.rev is Some && s.path is Some ==> {
            &&& source is Git
            &&& source->url == s.url->0
            &&& source->rev == s.rev->0
            &&& source->path == s.path->0
            &&& architecture::source_chars(source) == s.path->0@
        },
        s.inline is None && s.name is None && (s.url is None || s.rev is None || s.path is None)
            ==> {
            &&& source is Inline
            &&& source->inline@ == "(deflava-architecture empty :inputs () :resources ())"@
            &&& architecture::source_chars(source)
                == "(deflava-architecture empty :inputs () :resources ())"@
        },
{
}

/// The spec that a pass works on. A source that is not written down is an
/// empty architecture; of a name that is bound twice the last value counts.
pub fn to_lib_spec(spec: &LavaArchitectureSpecCR) -> (r: LavaArchitectureSpec)
    ensures
        spec_source_is(spec.source, r.source),
        spec.source.inline matches Some(t) ==> r.source == (Source::Inline { inline: t }),
        spec.source.inline is None ==> (spec.source.name matches Some(n) ==> r.source == (
        Source::Name { name: n })),
        spec.source.inline is None && spec.source.name is None && spec.source.url is Some
            && spec.source.rev is Some && spec.source.path is Some ==> r.source == (Source::Git {
            url: spec.source.url->0,
            rev: spec.source.rev->0,
            path: spec.source.path->0,
        }),
        bindings::binding_entries(r.bindings) == bindings::put_all(
            bindings::pair_texts(spec.bindings@),
        ),
        r.gate == spec.gate,
        r.engine == spec.engine,
{
    let ghost pairs = bindings::pair_texts(spec.bindings@);
    let mut out = bindings::new_bindings();
    assert(pairs.take(0) =~= Seq::empty());
    for i in 0..spec.bindings.len()
        invariant
            pairs == bindings::pair_texts(spec.bindings@),
            bindings::binding_entries(out) == bindings::put_all(pairs.take(i as int)),
    {
        bindings::insert_binding(
            &mut out,
            spec.bindings[i].0.clone(),
            spec.bindings[i].1.clone(),
        );
        assert(pairs.take(i as int + 1).drop_last() =~= pairs.take(i as int));
        assert(pairs.take(i as int + 1).last() == pairs[i as int]);
    }
    assert(pairs.take(spec.bindings@.len() as int) =~= pairs);
    let source = match spec.source.variant() {
        Some(s) => s,
        None => Source::Inline {
            inline: "(deflava-architecture empty :inputs () :resources ())".to_owned(),
        },
    };
    LavaArchitectureSpec {
        source,
        bindings: out,
        gate: text::copy_opt(&spec.gate),
        engine: spec.engine.clone(),
    }
}

proof fn lemma_text_not_before_itself(a: Seq<char>)
    ensures
        !text_before(a, a),
    decreases a.len(),
{
    if a.len() > 0 {
        lemma_text_not_before_itself(a.skip(1));
    }
}

/// A pass gets the bindings of a well-formed spec as they are: each name with
/// its value, in ascending order.
pub proof fn law_well_formed_bindings_are_kept(spec: LavaArchitectureSpecCR)
    requires
        spec.well_formed(),
    ensures
        bindings::put_all(bindings::pair_texts(spec.bindings@)) == bindings::pair_texts(
            spec.bindings@,
        ),
{
    let pairs = bindings::pair_texts(spec.bindings@);
    assert forall|i: int, j: int| 0 <= i < j < pairs.len() implies (#[trigger] pairs[i]).0 != (
    #[trigger] pairs[j]).0 by {
        lemma_text_not_before_itself(pairs[i].0);
        assert(text_before(pairs[i].0, pairs[j].0));
    }
    bindings::lemma_put_all_distinct(pairs);
}

/// A pass never gets a name that is bound twice, whatever the spec lists.
pub proof fn law_bound_names_are_distinct(spec: LavaArchitectureSpecCR)
    ensures
        bindings::distinct_keys(bindings::put_all(bindings::pair_texts(spec.bindings@))),
{
    bindings::lemma_put_all_keys(bindings::pair_texts(spec.bindings@));
}

/// The name of a phase.
pub fn phase_str(p: Phase) -> (r: &'static str)
    ensures
        r@ == architecture::phase_chars(p),
{
    p.as_str()
}

/// What a tick works on.
pub struct TickInputs {
    pub address: ResourceAddress,
    pub source: Source,
    pub source_text: String,
    pub bindings: IndexMap<String, String>,
    /// The interface that the bindings are held to before the source is rendered.
    pub gate: Option<String>,
}

/// `s`, or `default` where there is none.
pub open spec fn text_or(s: Option<String>, default: Seq<char>) -> Seq<char> {
    match s {
        Some(t) => t@,
        None => default,
    }
}

fn or_text(s: Option<String>, default: &str) -> (r: String)
    ensures
        r@ == text_or(s, default@),
{
    match s {
        Some(t) => t,
        None => default.to_owned(),
    }
}

/// What a tick of the resource works on. A resource without a namespace is in
/// `default`, a cluster without a name is `local`.
pub fn tick_inputs(
    spec: &LavaArchitectureSpecCR,
    cluster: Option<String>,
    namespace: Option<String>,
    name: String,
) -> (r: TickInputs)
    ensures
        r.address@ == (AddressView {
            cluster: text_or(cluster, "local"@),
            namespace: text_or(namespace, "default"@),
            name: name@,
        }),
        spec_source_is(spec.source, r.source),
        r.source_text@ == architecture::source_chars(r.source),
        spec.source.inline matches Some(t) ==> r.source == (Source::Inline { inline: t })
            && r.source_text@ == t@,
        spec.source.inline is None ==> (spec.source.name matches Some(n) ==> r.source == (
        Source::Name { name: n }) && r.source_text@ == n@),
        spec.source.inline is None && spec.source.name is None && spec.source.url is Some
            && spec.source.rev is Some && spec.source.path is Some ==> r.source == (Source::Git {
            url: spec.source.url->0,
            rev: spec.source.rev->0,
            path: spec.source.path->0,
        }) && r.source_text@ == spec.source.path->0@,
        bindings::binding_entries(r.bindings) == bindings::put_all(
            bindings::pair_texts(spec.bindings@),
        ),
        r.gate == spec.gate,
{
    let lib = to_lib_spec(spec);
    let source_text = drift::source_text(&lib.source);
    TickInputs {
        address: ResourceAddress {
            cluster: or_text(cluster, "local"),
            namespace: or_text(namespace, "default"),
            name,
        },
        source: lib.source,
        source_text,
        bindings: lib.bindings,
        gate: lib.gate,
    }
}

/// What a planner answers that only synthesizes: no finding where the
/// synthesis succeeds, its error where it fails.
pub fn plan_of_synthesis(synthesized: Result<serde_json::Value, String>) -> (r: Result<
    Vec<DriftFinding>,
    PlannerError,
>)
    ensures
        is_plan_of_synthesis(synthesized, r),
{
    match synthesized {
        Ok(_) => Ok(Vec::new()),
        Err(e) => Err(PlannerError::Plan(e)),
    }
}

/// Is `r` the answer of a planner that only synthesizes, where the synthesis
/// gave `synthesized`?
pub open spec fn is_plan_of_synthesis(
    synthesized: Result<serde_json::Value, String>,
    r: Result<Vec<DriftFinding>, PlannerError>,
) -> bool {
    match synthesized {
        Ok(_) => r is Ok && r->Ok_0@.len() == 0,
        Err(e) => r == Err::<Vec<DriftFinding>, PlannerError>(PlannerError::Plan(e)),
    }
}

/// Plans by synthesizing: hands a source, its bindings and its gate to
/// `synthesize` and turns what comes back into a planner's answer.
pub fn plan_by_synthesis<F>(
    synthesize: F,
    source: &Source,
    bindings: &IndexMap<String, String>,
    gate: &Option<String>,
) -> (r: Result<Vec<DriftFinding>, PlannerError>) where
    F: FnOnce(&Source, &IndexMap<String, String>, Option<&str>) -> Result<
        serde_json::Value,
        String,
    >,

    requires
        forall|g: Option<&str>|
            reconcile::is_gate_of(g, *gate) ==> #[trigger] call_requires(
                synthesize,
                (source, bindings, g),
            ),
    ensures
        exists|g: Option<&str>, synthesized: Result<serde_json::Value, String>|
            reconcile::is_gate_of(g, *gate) && #[trigger] call_ensures(
                synthesize,
                (source, bindings, g),
                synthesized,
            ) && is_plan_of_synthesis(synthesized, r),
{
    let synthesized = synthesize(source, bindings, reconcile::gate_of(gate));
    plan_of_synthesis(synthesized)
}

/// The status of the condition of a beat.
pub open spec fn beat_condition_status(s: BeatStatus) -> Seq<char> {
    match s {
        BeatStatus::Succeeded => "True"@,
        BeatStatus::Skipped => "Unknown"@,
        BeatStatus::Failed => "False"@,
    }
}

/// The condition of a beat.
pub open spec fn beat_condition_view(b: BeatView) -> ConditionCRView {
    ConditionCRView {
        kind: "Beat."@ + viggy_loop::beat_chars(b.beat),
        status: beat_condition_status(b.status),
        reason: Some(viggy_loop::beat_status_chars(b.status)),
        message: b.message,
    }
}

fn beat_condition(b: &BeatOutcome) -> (r: ConditionCR)
    ensures
        r@ == beat_condition_view(b@),
{
    let status = match b.status {
        BeatStatus::Succeeded => "True",
        BeatStatus::Skipped => "Unknown",
        BeatStatus::Failed => "False",
    };
    ConditionCR {
        kind: "Beat.".to_owned().concat(b.beat.as_str()),
        status: status.to_owned(),
        reason: Some(b.status.as_str().to_owned()),
        message: text::copy_opt(&b.message),
    }
}

/// The conditions of a tick, one for each beat.
pub open spec fn beat_condition_views(beats: Seq<BeatView>) -> Seq<ConditionCRView> {
    beats.map_values(|b: BeatView| beat_condition_view(b))
}

/// Do `a` and `b` hold the same text, or neither one?
pub open spec fn same_opt_text(a: Option<String>, b: Option<String>) -> bool {
    &&& a is Some <==> b is Some
    &&& a is Some ==> a->0@ == b->0@
}

/// The status of a tick holds one condition for each beat, in their order. It
/// is "True" exactly where the beat succeeded, "Unknown" exactly where it was
/// skipped and "False" exactly where it failed, whatever the message; it is
/// named after the beat, gives the beat's status as its reason, and carries
/// the beat's message.
pub proof fn law_status_tells_how_each_beat_went(
    beats: Seq<BeatOutcome>,
    conditions: Seq<ConditionCR>,
    i: int,
)
    requires
        condition_cr_views(conditions) == beat_condition_views(viggy_loop::beat_views(beats)),
        0 <= i < beats.len(),
    ensures
        conditions.len() == beats.len(),
        conditions[i].status@ == "True"@ <==> beats[i].status == BeatStatus::Succeeded,
        conditions[i].status@ == "Unknown"@ <==> beats[i].status == BeatStatus::Skipped,
        conditions[i].status@ == "False"@ <==> beats[i].status == BeatStatus::Failed,
        conditions[i].reason is Some,
        conditions[i].reason->0@ == "Ok"@ <==> beats[i].status == BeatStatus::Succeeded,
        conditions[i].reason->0@ == "Skipped"@ <==> beats[i].status == BeatStatus::Skipped,
        conditions[i].reason->0@ == "Failed"@ <==> beats[i].status == BeatStatus::Failed,
        conditions[i].message is Some <==> beats[i].message is Some,
        conditions[i].message is Some ==> conditions[i].message->0@ == beats[i].message->0@,
        conditions[i].kind@.len() >= 5,
        conditions[i].kind@.take(5) == "Beat."@,
        conditions[i].kind@.skip(5) == "Observe"@ <==> beats[i].beat == Beat::Observe,
        conditions[i].kind@.skip(5) == "Diff"@ <==> beats[i].beat == Beat::Diff,
        conditions[i].kind@.skip(5) == "Classify"@ <==> beats[i].beat == Beat::Classify,
        conditions[i].kind@.skip(5) == "Decide"@ <==> beats[i].beat == Beat::Decide,
        conditions[i].kind@.skip(5) == "Act"@ <==> beats[i].beat == Beat::Act,
        conditions[i].kind@.skip(5) == "Attest"@ <==> beats[i].beat == Beat::Attest,
        conditions[i].kind@.skip(5) == "Tick"@ <==> beats[i].beat == Beat::Tick,
{
    let want = beat_condition_views(viggy_loop::beat_views(beats));
    assert(condition_cr_views(conditions).len() == conditions.len());
    assert(want.len() == viggy_loop::beat_views(beats).len() == beats.len());
    assert(condition_cr_views(conditions)[i] == conditions[i]@);
    assert(viggy_loop::beat_views(beats)[i] == beats[i]@);
    assert(want[i] == beat_condition_view(beats[i]@));
    reveal_strlit("True");
    reveal_strlit("Unknown");
    reveal_strlit("False");
    assert("True"@[0] == 'T' && "Unknown"@[0] == 'U' && "False"@[0] == 'F');
    reveal_strlit("Beat.");
    let name = conditions[i].kind@.skip(5);
    assert(name =~= viggy_loop::beat_chars(beats[i].beat));
    assert(conditions[i].kind@.take(5) =~= "Beat."@);
    viggy_loop::law_beat_names(beats[i].beat);
    viggy_loop::law_beat_status_names(beats[i].status);
}

/// The status that a tick leaves: where it ended, how each beat went, and when.
pub fn tick_status(report: &TickReport) -> (r: LavaArchitectureStatusCR)
    ensures
        r.phase is Some,
        r.phase->0@ == "Stable"@ <==> report.final_phase == TickPhase::Stable,
        r.phase->0@ == "Reconverging"@ <==> report.final_phase == TickPhase::Reconverging,
        r.phase->0@ == "HoldingForApproval"@ <==> report.final_phase
            == TickPhase::HoldingForApproval,
        r.phase->0@ == "Escalated"@ <==> report.final_phase == TickPhase::Escalated,
        r.phase->0@ == "Failed"@ <==> report.final_phase == TickPhase::Failed,
        r.conditions@.len() == report.beats@.len(),
        forall|i: int|
            0 <= i < report.beats@.len() ==> {
                let c = #[trigger] r.conditions@[i];
                let b = report.beats@[i];
                &&& c.status@ == "True"@ <==> b.status == BeatStatus::Succeeded
                &&& c.status@ == "Unknown"@ <==> b.status == BeatStatus::Skipped
                &&& c.status@ == "False"@ <==> b.status == BeatStatus::Failed
                &&& same_opt_text(c.message, b.message)
            },
        text::opt_text(r.phase) == Some(viggy_loop::tick_phase_chars(report.final_phase)),
        condition_cr_views(r.conditions@) == beat_condition_views(
            viggy_loop::beat_views(report.beats@),
        ),
        r.last_synthesized_hash is None,
        r.last_applied_at == Some(report.ended_at),
{
    let ghost want = beat_condition_views(viggy_loop::beat_views(report.beats@));
    let mut conditions: Vec<ConditionCR> = Vec::new();
    for i in 0..report.beats.len()
        invariant
            want == beat_condition_views(viggy_loop::beat_views(report.beats@)),
            condition_cr_views(conditions@) == want.take(i as int),
    {
        let c = beat_condition(&report.beats[i]);
        assert(c@ == want[i as int]);
        let ghost before = conditions@;
        conditions.push(c);
        assert(condition_cr_views(conditions@) =~= condition_cr_views(before).push(c@));
        assert(want.take(i as int + 1) =~= want.take(i as int).push(want[i as int]));
    }
    assert(want.take(report.beats@.len() as int) =~= want);
    proof {
        assert(condition_cr_views(conditions@).len() == conditions@.len());
        assert forall|i: int| 0 <= i < report.beats@.len() implies {
            let c = #[trigger] conditions@[i];
            let b = report.beats@[i];
            &&& c.status@ == "True"@ <==> b.status == BeatStatus::Succeeded
            &&& c.status@ == "Unknown"@ <==> b.status == BeatStatus::Skipped
            &&& c.status@ == "False"@ <==> b.status == BeatStatus::Failed
            &&& same_opt_text(c.message, b.message)
        } by {
            law_status_tells_how_each_beat_went(report.beats@, conditions@, i);
        }
        viggy_loop::law_tick_phase_names(report.final_phase);
    }
    LavaArchitectureStatusCR {
        phase: Some(report.final_phase.as_str().to_owned()),
        conditions,
        last_synthesized_hash: None,
        last_applied_at: Some(report.ended_at.clone()),
    }
}

/// The wait before the next tick, in seconds: what the decision says, but at
/// least one; thirty where there was no decision.
pub open spec fn next_tick_seconds(decided: Option<i64>) -> int {
    match decided {
        Some(s) => if s < 1 {
            1
        } else {
            s as int
        },
        None => 30,
    }
}

/// The next tick never comes at once.
pub proof fn law_next_tick_waits(decided: Option<i64>)
    ensures
        next_tick_seconds(decided) >= 1,
        decided matches Some(s) ==> next_tick_seconds(decided) >= s,
{
}

/// The wait before the next tick, in seconds.
pub fn requeue_secs(report: &TickReport) -> (r: u64)
    ensures
        r == next_tick_seconds(report.requeue_after_secs),
{
    match report.requeue_after_secs {
        Some(s) => if s < 1 {
            1
        } else {
            s as u64
        },
        None => 30,
    }
}

/// The wait after a pass that failed, in seconds.
pub fn error_requeue_secs() -> (r: u64)
    ensures
        r == 60,
{
    60
}

/// A name comes before another where, at the first place at which they differ,
/// it has the smaller character or has ended.
pub proof fn law_names_are_ordered_at_their_first_difference(
    common: Seq<char>,
    a: Seq<char>,
    b: Seq<char>,
)
    requires
        a.len() == 0 || b.len() == 0 || a[0] != b[0],
    ensures
        text_before(common + a, common + b) <==> b.len() > 0 && (a.len() == 0 || (a[0] as int)
            < b[0] as int),
    decreases common.len(),
{
    if common.len() == 0 {
        assert(common + a =~= a);
        assert(common + b =~= b);
    } else {
        assert((common + a)[0] == common[0] && (common + b)[0] == common[0]);
        assert((common + a).skip(1) =~= common.skip(1) + a);
        assert((common + b).skip(1) =~= common.skip(1) + b);
        law_names_are_ordered_at_their_first_difference(common.skip(1), a, b);
    }
}

/// In a well-formed spec each name comes before every later one.
pub proof fn law_names_of_a_well_formed_spec_ascend(
    spec: LavaArchitectureSpecCR,
    i: int,
    j: int,
)
    requires
        spec.well_formed(),
        0 <= i < j < spec.bindings@.len(),
    ensures
        text_before(spec.bindings@[i].0@, spec.bindings@[j].0@),
        spec.bindings@[i].0@ != spec.bindings@[j].0@,
{
    let pairs = bindings::pair_texts(spec.bindings@);
    assert(pairs[i].0 == spec.bindings@[i].0@);
    assert(pairs[j].0 == spec.bindings@[j].0@);
    lemma_text_not_before_itself(pairs[i].0);
}

/// Of a name that a spec binds more than once the pass gets the last value, to
/// the letter.
pub proof fn law_last_binding_counts(spec: LavaArchitectureSpecCR, i: int)
    requires
        0 <= i < spec.bindings@.len(),
        forall|j: int|
            i < j < spec.bindings@.len() ==> (#[trigger] spec.bindings@[j]).0@
                != spec.bindings@[i].0@,
    ensures
        exists|k: int|
            0 <= k < bindings::put_all(bindings::pair_texts(spec.bindings@)).len() && (
            #[trigger] bindings::put_all(bindings::pair_texts(spec.bindings@))[k]) == (
                spec.bindings@[i].0@,
                spec.bindings@[i].1@,
            ),
{
    let pairs = bindings::pair_texts(spec.bindings@);
    assert forall|j: int| i < j < pairs.len() implies (#[trigger] pairs[j]).0 != pairs[i].0 by {
        assert(pairs[j].0 == spec.bindings@[j].0@);
    }
    bindings::law_last_value_counts(pairs, i);
    assert(pairs[i] == (spec.bindings@[i].0@, spec.bindings@[i].1@));
}

/// Each action is asked for by its own word and no other; every other word asks
/// for an alert.
pub proof fn law_actions_are_asked_for_by_name(name: Seq<char>)
    ensures
        action_named(name) == RemediationAction::NoOp <==> name == "NoOp"@,
        action_named(name) == RemediationAction::AutoCorrect <==> name == "AutoCorrect"@,
        action_named(name) == RemediationAction::RequireApproval <==> name == "RequireApproval"@,
        action_named(name) == RemediationAction::Escalate <==> name == "Escalate"@,
        action_named(name) == RemediationAction::Alert <==> name != "NoOp"@ && name
            != "AutoCorrect"@ && name != "RequireApproval"@ && name != "Escalate"@,
{
    law_action_names(name, RemediationAction::NoOp);
    law_action_names(name, RemediationAction::AutoCorrect);
    law_action_names(name, RemediationAction::RequireApproval);
    law_action_names(name, RemediationAction::Escalate);
}

/// A dependency influences exactly where it says so, and blocks otherwise.
pub proof fn law_dependencies_block_unless_they_influence(name: Seq<char>)
    ensures
        dependency_kind_named(name) == DependencyKind::Influences <==> name == "Influences"@,
        dependency_kind_named(name) == DependencyKind::BlocksOn <==> name != "Influences"@,
{
}

/// A text that is there is taken, and the default only where there is none.
pub proof fn law_default_stands_in(s: Option<String>, default: Seq<char>)
    ensures
        s is Some ==> text_or(s, default) == s->0@,
        s is None ==> text_or(s, default) == default,
{
}

/// The next tick comes when the decision says, but not within a second, and
/// after half a minute where there was no decision.
pub proof fn law_next_tick_comes_when_decided(decided: Option<i64>)
    ensures
        decided is None ==> next_tick_seconds(decided) == 30,
        decided matches Some(s) ==> (s >= 1 ==> next_tick_seconds(decided) == s),
        decided matches Some(s) ==> (s <= 1 ==> next_tick_seconds(decided) == 1),
{
}

/// A planner that only synthesizes finds nothing where the synthesis succeeds,
/// and fails to plan, with the synthesis's message, where it fails.
pub proof fn law_synthesis_plans_no_change(
    synthesized: Result<serde_json::Value, String>,
    r: Result<Vec<DriftFinding>, PlannerError>,
)
    requires
        is_plan_of_synthesis(synthesized, r),
    ensures
        r is Ok <==> synthesized is Ok,
        r is Ok ==> r->Ok_0@.len() == 0,
        synthesized is Err ==> r->Err_0 is Plan && r->Err_0->Plan_0 == synthesized->Err_0,
{
}

/// A status condition is told by its four texts, each in its place.
pub proof fn law_status_condition_tells_its_texts(s: Seq<ConditionCR>, i: int)
    requires
        0 <= i < s.len(),
    ensures
        condition_cr_views(s).len() == s.len(),
        condition_cr_views(s)[i].kind == s[i].kind@,
        condition_cr_views(s)[i].status == s[i].status@,
        condition_cr_views(s)[i].reason is Some <==> s[i].reason is Some,
        s[i].reason is Some ==> condition_cr_views(s)[i].reason->0 == s[i].reason->0@,
        condition_cr_views(s)[i].message is Some <==> s[i].message is Some,
        s[i].message is Some ==> condition_cr_views(s)[i].message->0 == s[i].message->0@,
{
}

/// A condition of a resource is written to its status with the same kind,
/// status, reason and message.
pub proof fn law_condition_is_written_as_it_is(c: Condition)
    ensures
        <ConditionCR as vstd::std_specs::convert::FromSpec<&Condition>>::from_spec(&c).kind == c.kind,
        <ConditionCR as vstd::std_specs::convert::FromSpec<&Condition>>::from_spec(&c).status == c.status,
        <ConditionCR as vstd::std_specs::convert::FromSpec<&Condition>>::from_spec(&c).reason == c.reason,
        <ConditionCR as vstd::std_specs::convert::FromSpec<&Condition>>::from_spec(&c).message == c.message,
{
}

} // verus!
