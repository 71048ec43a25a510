//! What the operations do, from what goes in to what comes out: each law speaks
//! of every call that an operation can answer, by the values that it takes and
//! gives.

use crate::anomaly::{
    AnomalyKind, AnomalyPayload, AnomalyRouter, PolicyRouter, RemediationAction, RemediationPolicy,
    RouterError, RoutingDecision,
};
use crate::anomaly_bridge::AnomalyBridgeError;
use crate::architecture::{Condition, LavaArchitectureSpec, Phase, Source};
use crate::chain::{AppendError, ChangeSummary, OutcomePayload, Receipt, ResourceAddress};
use crate::controller::{
    DependencyKind, LavaArchitectureDependency, LavaArchitectureDependencySpec,
    LavaArchitectureSpecCR, LavaArchitectureStatusCR, RemediationPolicySpec, ResourceRefCR,
    SourceCR, TickInputs,
};
use crate::drift::{
    ChangeKind, DriftFinding, DriftReport, DriftScanOutcome, PlannerBackend, PlannerError,
    RemediationHint, Severity,
};
use crate::finalizer::{DestroyBackend, MockDestroy};
use crate::hash::ContentHash;
use crate::magma_bridge::{BindingView, LavaSource};
use crate::reconcile::{ReconcileError, ReconcileOutcome};
use crate::viggy_loop::{
    Beat, BeatStatus, LavaPromessaController, ObservedContext, TickPhase, TickReport, ViggyError,
};
use crate::{
    anomaly, anomaly_bridge, architecture, attest, bindings, controller, drift, finalizer, hash,
    magma_bridge, reconcile, text, viggy_loop,
};
use indexmap::IndexMap;
use vstd::prelude::*;

verus! {

/// The status of a tick says where it ended and when, and holds one condition
/// for each beat, in their order: "True" exactly where the beat succeeded,
/// "Unknown" exactly where it was skipped, "False" exactly where it failed,
/// whatever the message, which is the beat's.
pub proof fn law_tick_status(report: TickReport, r: LavaArchitectureStatusCR, i: int)
    requires
        call_ensures(controller::tick_status, (&report,), r),
        0 <= i < report.beats@.len(),
    ensures
        r.conditions@.len() == report.beats@.len(),
        r.conditions@[i].status@ == "True"@ <==> report.beats@[i].status == BeatStatus::Succeeded,
        r.conditions@[i].status@ == "Unknown"@ <==> report.beats@[i].status == BeatStatus::Skipped,
        r.conditions@[i].status@ == "False"@ <==> report.beats@[i].status == BeatStatus::Failed,
        r.conditions@[i].message is Some <==> report.beats@[i].message is Some,
        r.conditions@[i].message is Some ==> r.conditions@[i].message->0@
            == report.beats@[i].message->0@,
        r.conditions@[i].reason is Some,
        r.conditions@[i].reason->0@ == "Ok"@ <==> report.beats@[i].status == BeatStatus::Succeeded,
        r.conditions@[i].kind@.len() >= 5,
        r.conditions@[i].kind@.take(5) == "Beat."@,
        r.conditions@[i].kind@.skip(5) == "Observe"@ <==> report.beats@[i].beat == Beat::Observe,
        r.conditions@[i].kind@.skip(5) == "Diff"@ <==> report.beats@[i].beat == Beat::Diff,
        r.conditions@[i].kind@.skip(5) == "Classify"@ <==> report.beats@[i].beat == Beat::Classify,
        r.conditions@[i].kind@.skip(5) == "Decide"@ <==> report.beats@[i].beat == Beat::Decide,
        r.conditions@[i].kind@.skip(5) == "Act"@ <==> report.beats@[i].beat == Beat::Act,
        r.conditions@[i].kind@.skip(5) == "Attest"@ <==> report.beats@[i].beat == Beat::Attest,
        r.conditions@[i].kind@.skip(5) == "Tick"@ <==> report.beats@[i].beat == Beat::Tick,
        r.phase is Some,
        r.phase->0@ == "Stable"@ <==> report.final_phase == TickPhase::Stable,
        r.phase->0@ == "Reconverging"@ <==> report.final_phase == TickPhase::Reconverging,
        r.phase->0@ == "HoldingForApproval"@ <==> report.final_phase == TickPhase::HoldingForApproval,
        r.phase->0@ == "Escalated"@ <==> report.final_phase == TickPhase::Escalated,
        r.phase->0@ == "Failed"@ <==> report.final_phase == TickPhase::Failed,
        r.last_synthesized_hash is None,
        r.last_applied_at is Some,
        r.last_applied_at->0@ == report.ended_at@,
{
    controller::law_status_tells_how_each_beat_went(report.beats@, r.conditions@, i);
}

/// The next tick comes when the decision says, but not within a second, and
/// after half a minute where there was no decision.
pub proof fn law_requeue_secs(report: TickReport, r: u64)
    requires
        call_ensures(controller::requeue_secs, (&report,), r),
    ensures
        report.requeue_after_secs is None ==> r == 30,
        report.requeue_after_secs matches Some(s) ==> (s >= 1 ==> r == s),
        report.requeue_after_secs matches Some(s) ==> (s < 1 ==> r == 1),
{
}

/// What an author writes as the source is what a pass renders: inline text to
/// the letter, else the name, else the url, the revision and the path. Gate and
/// engine are taken over.
pub proof fn law_to_lib_spec(spec: LavaArchitectureSpecCR, r: LavaArchitectureSpec)
    requires
        call_ensures(controller::to_lib_spec, (&spec,), r),
    ensures
        spec.source.inline matches Some(t) ==> r.source is Inline && r.source->inline@ == t@,
        spec.source.inline is None ==> (spec.source.name matches Some(n) ==> r.source is Name
            && r.source->name@ == n@),
        spec.source.inline is None && spec.source.name is None && spec.source.url is Some
            && spec.source.rev is Some && spec.source.path is Some ==> {
            &&& r.source is Git
            &&& r.source->url@ == spec.source.url->0@
            &&& r.source->rev@ == spec.source.rev->0@
            &&& r.source->path@ == spec.source.path->0@
        },
        spec.source.inline is None && spec.source.name is None && (spec.source.url is None
            || spec.source.rev is None || spec.source.path is None) ==> r.source is Inline
            && r.source->inline@ == "(deflava-architecture empty :inputs () :resources ())"@,
        r.gate is Some <==> spec.gate is Some,
        r.gate is Some ==> r.gate->0@ == spec.gate->0@,
        r.engine@ == spec.engine@,
{
}

/// Each binding of a spec reaches the pass, under its name and with its value,
/// unless a later one has the same name.
pub proof fn law_to_lib_spec_keeps_bindings(
    spec: LavaArchitectureSpecCR,
    r: LavaArchitectureSpec,
    i: int,
)
    requires
        call_ensures(controller::to_lib_spec, (&spec,), r),
        0 <= i < spec.bindings@.len(),
        forall|j: int|
            i < j < spec.bindings@.len() ==> (#[trigger] spec.bindings@[j]).0@
                != spec.bindings@[i].0@,
    ensures
        exists|k: int|
            0 <= k < bindings::binding_entries(r.bindings).len() && (
            #[trigger] bindings::binding_entries(r.bindings)[k]) == (
                spec.bindings@[i].0@,
                spec.bindings@[i].1@,
            ),
{
    controller::law_last_binding_counts(spec, i);
}

/// A tick reads the text that its author wrote, is about the resource that it
/// is told, in the named cluster and namespace or in `local` and `default`, and
/// has the spec's gate.
pub proof fn law_tick_inputs(
    spec: LavaArchitectureSpecCR,
    cluster: Option<String>,
    namespace: Option<String>,
    name: String,
    r: TickInputs,
)
    requires
        call_ensures(controller::tick_inputs, (&spec, cluster, namespace, name), r),
    ensures
        spec.source.inline matches Some(t) ==> r.source is Inline && r.source->inline@ == t@
            && r.source_text@ == t@,
        spec.source.inline is None ==> (spec.source.name matches Some(n) ==> r.source is Name
            && r.source->name@ == n@ && r.source_text@ == n@),
        spec.source.inline is None && spec.source.name is None && spec.source.url is Some
            && spec.source.rev is Some && spec.source.path is Some ==> {
            &&& r.source is Git
            &&& r.source->url@ == spec.source.url->0@
            &&& r.source->rev@ == spec.source.rev->0@
            &&& r.source->path@ == spec.source.path->0@
            &&& r.source_text@ == spec.source.path->0@
        },
        spec.source.inline is None && spec.source.name is None && (spec.source.url is None
            || spec.source.rev is None || spec.source.path is None) ==> r.source is Inline
            && r.source_text@ == "(deflava-architecture empty :inputs () :resources ())"@,
        cluster is Some ==> r.address.cluster@ == cluster->0@,
        cluster is None ==> r.address.cluster@ == "local"@,
        namespace is Some ==> r.address.namespace@ == namespace->0@,
        namespace is None ==> r.address.namespace@ == "default"@,
        r.address.name@ == name@,
        r.gate is Some <==> spec.gate is Some,
        r.gate is Some ==> r.gate->0@ == spec.gate->0@,
{
}

/// A tick works on the bindings that a pass works on.
pub proof fn law_tick_and_pass_agree(
    spec: LavaArchitectureSpecCR,
    cluster: Option<String>,
    namespace: Option<String>,
    name: String,
    tick: TickInputs,
    pass: LavaArchitectureSpec,
)
    requires
        call_ensures(controller::tick_inputs, (&spec, cluster, namespace, name), tick),
        call_ensures(controller::to_lib_spec, (&spec,), pass),
    ensures
        bindings::binding_entries(tick.bindings) == bindings::binding_entries(pass.bindings),
        architecture::source_chars(tick.source) == architecture::source_chars(pass.source),
        tick.source_text@ == architecture::source_chars(pass.source),
{
}

/// A source has a form exactly where one is complete: inline text before a name
/// before a git reference.
pub proof fn law_variant(s: SourceCR, r: Option<Source>)
    requires
        call_ensures(SourceCR::variant, (&s,), r),
    ensures
        r is None <==> s.inline is None && s.name is None && (s.url is None || s.rev is None
            || s.path is None),
        s.inline matches Some(t) ==> r->0 is Inline && r->0->inline@ == t@,
        s.inline is None ==> (s.name matches Some(n) ==> r->0 is Name && r->0->name@ == n@),
        r is Some && s.inline is None && s.name is None ==> r->0 is Git && r->0->url@
            == s.url->0@ && r->0->rev@ == s.rev->0@ && r->0->path@ == s.path->0@,
{
}

/// Each severity gets the action that the spec names for it; a name that is none
/// of the others asks for an alert. No ladder is taken over.
pub proof fn law_to_policy(s: RemediationPolicySpec, r: RemediationPolicy)
    requires
        call_ensures(RemediationPolicySpec::to_policy, (&s,), r),
    ensures
        r.cosmetic == RemediationAction::NoOp <==> s.cosmetic@ == "NoOp"@,
        r.cosmetic == RemediationAction::AutoCorrect <==> s.cosmetic@ == "AutoCorrect"@,
        r.cosmetic == RemediationAction::RequireApproval <==> s.cosmetic@ == "RequireApproval"@,
        r.cosmetic == RemediationAction::Escalate <==> s.cosmetic@ == "Escalate"@,
        r.functional == RemediationAction::NoOp <==> s.functional@ == "NoOp"@,
        r.functional == RemediationAction::AutoCorrect <==> s.functional@ == "AutoCorrect"@,
        r.functional == RemediationAction::RequireApproval <==> s.functional@ == "RequireApproval"@,
        r.functional == RemediationAction::Escalate <==> s.functional@ == "Escalate"@,
        r.critical == RemediationAction::NoOp <==> s.critical@ == "NoOp"@,
        r.critical == RemediationAction::AutoCorrect <==> s.critical@ == "AutoCorrect"@,
        r.critical == RemediationAction::RequireApproval <==> s.critical@ == "RequireApproval"@,
        r.critical == RemediationAction::Escalate <==> s.critical@ == "Escalate"@,
        r.escalation is None,
{
    controller::law_actions_are_asked_for_by_name(s.cosmetic@);
    controller::law_actions_are_asked_for_by_name(s.functional@);
    controller::law_actions_are_asked_for_by_name(s.critical@);
}

/// A dependency leads from and to the resources that the spec names, blocks
/// unless it says that it influences, and asks for the phase that the spec asks
/// for.
pub proof fn law_dependency(s: LavaArchitectureDependencySpec, r: LavaArchitectureDependency)
    requires
        call_ensures(LavaArchitectureDependencySpec::to_lib, (&s,), r),
    ensures
        r.from.cluster@ == s.from.cluster@,
        r.from.namespace@ == s.from.namespace@,
        r.from.name@ == s.from.name@,
        r.to.cluster@ == s.to.cluster@,
        r.to.namespace@ == s.to.namespace@,
        r.to.name@ == s.to.name@,
        r.kind == DependencyKind::Influences <==> s.kind@ == "Influences"@,
        r.require_phase@ == s.require_phase@,
{
}

/// The address of a resource has its three parts, each in its place.
pub proof fn law_address(s: ResourceRefCR, r: ResourceAddress)
    requires
        call_ensures(ResourceRefCR::address, (&s,), r),
    ensures
        r.cluster@ == s.cluster@,
        r.namespace@ == s.namespace@,
        r.name@ == s.name@,
{
}

/// A planner that only synthesizes finds nothing where the synthesis succeeds,
/// and fails to plan, with its message, where it fails.
pub proof fn law_plan_of_synthesis(
    synthesized: Result<serde_json::Value, String>,
    r: Result<Vec<DriftFinding>, PlannerError>,
)
    requires
        call_ensures(controller::plan_of_synthesis, (synthesized,), r),
    ensures
        r is Ok <==> synthesized is Ok,
        r is Ok ==> r->Ok_0@.len() == 0,
        r is Err ==> r->Err_0 is Plan && r->Err_0->Plan_0@ == synthesized->Err_0@,
{
}

/// The payload of a transition names the phase that was entered, by its own
/// word, is about the given resource, and attests the digests of the source
/// text and of the rendered text; it holds a line for each condition.
pub proof fn law_build_payload(
    address: ResourceAddress,
    spec_source: &str,
    outcome: ReconcileOutcome,
    phase: Phase,
    r: OutcomePayload,
)
    requires
        call_ensures(attest::build_payload, (address, spec_source, &outcome, phase), r),
    ensures
        r.phase@ == "Pending"@ <==> phase == Phase::Pending,
        r.phase@ == "Synthesized"@ <==> phase == Phase::Synthesized,
        r.phase@ == "Planned"@ <==> phase == Phase::Planned,
        r.phase@ == "Applied"@ <==> phase == Phase::Applied,
        r.phase@ == "Drifted"@ <==> phase == Phase::Drifted,
        r.phase@ == "Reconverging"@ <==> phase == Phase::Reconverging,
        r.phase@ == "Finalizing"@ <==> phase == Phase::Finalizing,
        r.phase@ == "Failed"@ <==> phase == Phase::Failed,
        r.resource.cluster@ == address.cluster@,
        r.resource.namespace@ == address.namespace@,
        r.resource.name@ == address.name@,
        r.spec_hash.0@ == hash::blake3_digest(vstd::utf8::encode_utf8(spec_source@)),
        outcome.terraform_json matches Some(v) ==> (attest::json_text(v) matches Some(t)
            ==> r.terraform_json_hash.0@ == hash::blake3_digest(vstd::utf8::encode_utf8(t))),
        outcome.terraform_json is None ==> forall|i: int|
            0 <= i < 32 ==> #[trigger] r.terraform_json_hash.0@[i] == 0,
        r.plan_id is None,
        r.change_summary == (ChangeSummary { create: 0, update: 0, delete: 0, no_op: 0 }),
        r.diagnostics@.len() == outcome.conditions@.len(),
        forall|i: int|
            0 <= i < outcome.conditions@.len() ==> (#[trigger] r.diagnostics@[i])@ == (
            match outcome.conditions@[i].message {
                Some(m) => outcome.conditions@[i].kind@ + "="@ + outcome.conditions@[i].status@
                    + " ("@ + m@ + ")"@,
                None => outcome.conditions@[i].kind@ + "="@ + outcome.conditions@[i].status@,
            }),
{
    attest::law_payload_names_its_transition(address, spec_source@, outcome, phase, r);
}

/// Payloads of transitions to different phases carry different phase texts,
/// whatever else differs.
pub proof fn law_payloads_of_transitions_differ(
    address: ResourceAddress,
    spec_source: &str,
    outcome: ReconcileOutcome,
    p: Phase,
    a: OutcomePayload,
    other_address: ResourceAddress,
    other_source: &str,
    other_outcome: ReconcileOutcome,
    q: Phase,
    b: OutcomePayload,
)
    requires
        call_ensures(attest::build_payload, (address, spec_source, &outcome, p), a),
        call_ensures(attest::build_payload, (other_address, other_source, &other_outcome, q), b),
    ensures
        a.phase@ == b.phase@ <==> p == q,
{
    architecture::law_phase_names_are_distinct(p, q);
}

/// A line of diagnostics is the name, `=`, the status, and the message in
/// brackets where there is one.
pub proof fn law_diagnostic_line(name: &str, status: &str, message: Option<String>, r: String)
    requires
        call_ensures(attest::diagnostic_line, (name, status, &message), r),
    ensures
        r@.take(name@.len() as int) == name@,
        r@[name@.len() as int] == '=',
        r@.subrange(name@.len() as int + 1, name@.len() as int + 1 + status@.len()) == status@,
        message is None ==> r@.len() == name@.len() + 1 + status@.len(),
        message matches Some(m) ==> {
            let n = name@.len() as int + 1 + status@.len();
            &&& r@.len() == n + m@.len() + 3
            &&& r@[n] == ' ' && r@[n + 1] == '('
            &&& r@.subrange(n + 2, n + 2 + m@.len()) == m@
            &&& r@.last() == ')'
        },
{
    let (n, s) = (name@, status@);
    match message {
        Some(m) => {
            attest::law_diagnostic_holds_its_parts(n, s, m@);
            let bare = attest::diagnostic(n, s, None);
            assert(r@.take(bare.len() as int) == bare);
            assert(r@.take(n.len() as int) =~= bare.take(n.len() as int));
            assert(r@.subrange(n.len() as int + 1, n.len() as int + 1 + s.len()) =~= bare.skip(
                n.len() as int + 1,
            ));
            assert(r@[n.len() as int] == bare[n.len() as int]);
        },
        None => {
            attest::law_diagnostic_holds_its_parts(n, s, Seq::empty());
            assert(r@.subrange(n.len() as int + 1, n.len() as int + 1 + s.len()) =~= r@.skip(
                n.len() as int + 1,
            ));
        },
    }
}

/// The renderer gets as many bindings as there are, each under its key, in its
/// place, bound to one text: the value to the letter.
pub proof fn law_bindings_to_artifact_bindings(
    b: IndexMap<String, String>,
    r: IndexMap<String, magma_lava::Binding>,
)
    requires
        call_ensures(magma_bridge::bindings_to_artifact_bindings, (&b,), r),
    ensures
        magma_bridge::artifact_entries(r).len() == bindings::binding_entries(b).len(),
        forall|i: int|
            0 <= i < bindings::binding_entries(b).len() ==> (
            #[trigger] magma_bridge::artifact_entries(r)[i]) == (
                bindings::binding_entries(b)[i].0,
                BindingView::Scalar(bindings::binding_entries(b)[i].1),
            ),
{
}

/// The renderer reads an inline source from its text, a named one from the
/// bundled architecture of that name, and a git one from its path.
pub proof fn law_source_to_lava_source(src: Source, r: LavaSource)
    requires
        call_ensures(magma_bridge::source_to_lava_source, (&src,), r),
    ensures
        src is Inline ==> r is Inline && r->inline@ == src->inline@,
        src is Name ==> r is Bundled && r->Bundled_name@ == src->name@,
        src is Git ==> r is Path && r->Path_path@ == src->path@,
{
}

/// A report tells of each finding that changes something: it is critical exactly
/// where one deletes or recreates, at whatever position, and clean exactly where
/// none changes anything. It carries the digest of the source text.
pub proof fn law_report_on_findings(
    findings: Vec<DriftFinding>,
    prefixes: Vec<String>,
    spec_source: &str,
    r: Result<DriftReport, PlannerError>,
)
    requires
        call_ensures(drift::report_on_findings, (&findings, &prefixes, spec_source), r),
    ensures
        r is Ok,
        r->Ok_0.max_severity == Some(Severity::Critical) <==> exists|i: int|
            0 <= i < findings@.len() && ((#[trigger] findings@[i]).change == ChangeKind::Delete
                || findings@[i].change == ChangeKind::Replace),
        r->Ok_0.max_severity is None <==> forall|i: int|
            0 <= i < findings@.len() ==> (#[trigger] findings@[i]).change == ChangeKind::NoOp,
        r->Ok_0.max_severity is None <==> r->Ok_0.drifted_fields@.len() == 0,
        forall|i: int|
            0 <= i < r->Ok_0.drifted_fields@.len() ==> drift::severity_rank(
                (#[trigger] r->Ok_0.drifted_fields@[i]).severity,
            ) <= drift::severity_rank(r->Ok_0.max_severity->0),
        r->Ok_0.spec_hash.0@ == hash::blake3_digest(vstd::utf8::encode_utf8(spec_source@)),
{
    let views = drift::finding_views(findings@);
    let report = r->Ok_0;
    let fields = drift::drifted_fields(views, text::texts(prefixes@));
    assert forall|i: int| 0 <= i < findings@.len() implies (#[trigger] views[i]).change
        == findings@[i].change by {
    }
    drift::law_report_is_as_bad_as_its_worst_finding(
        views,
        text::texts(prefixes@),
        spec_source@,
        report.scanned_at,
    );
    drift::law_worst_severity_is_the_maximum(fields);
    assert(report@.drifted_fields == fields);
    assert(fields.len() == report.drifted_fields@.len());
    assert forall|i: int| 0 <= i < report.drifted_fields@.len() implies drift::severity_rank(
        (#[trigger] report.drifted_fields@[i]).severity,
    ) <= drift::severity_rank(report.max_severity->0) by {
        assert(fields[i] == report.drifted_fields@[i]@);
    }
    if report.max_severity == Some(Severity::Critical) {
        let i = choose|i: int|
            0 <= i < views.len() && ((#[trigger] views[i]).change == ChangeKind::Delete
                || views[i].change == ChangeKind::Replace);
        assert(findings@[i].change == views[i].change);
    }
    if exists|i: int|
        0 <= i < findings@.len() && ((#[trigger] findings@[i]).change == ChangeKind::Delete
            || findings@[i].change == ChangeKind::Replace) {
        let i = choose|i: int|
            0 <= i < findings@.len() && ((#[trigger] findings@[i]).change == ChangeKind::Delete
                || findings@[i].change == ChangeKind::Replace);
        assert(views[i].change == findings@[i].change);
    }
    if report.max_severity is None {
        assert forall|i: int| 0 <= i < findings@.len() implies (#[trigger] findings@[i]).change
            == ChangeKind::NoOp by {
            assert(views[i].change == ChangeKind::NoOp);
        }
    }
}

/// A list with one finding is reported as one field, unless the finding changes
/// nothing: with its resource, attribute and values, and graded by its change.
pub proof fn law_report_on_one_finding(
    findings: Vec<DriftFinding>,
    prefixes: Vec<String>,
    spec_source: &str,
    r: Result<DriftReport, PlannerError>,
)
    requires
        call_ensures(drift::report_on_findings, (&findings, &prefixes, spec_source), r),
        findings@.len() == 1,
    ensures
        findings@[0].change == ChangeKind::NoOp ==> r->Ok_0.drifted_fields@.len() == 0,
        findings@[0].change != ChangeKind::NoOp ==> {
            let f = r->Ok_0.drifted_fields@[0];
            &&& r->Ok_0.drifted_fields@.len() == 1
            &&& f.address@ == findings@[0].address@
            &&& f.attribute@ == findings@[0].attribute@
            &&& f.observed is Some <==> findings@[0].observed is Some
            &&& f.observed is Some ==> f.observed->0@ == findings@[0].observed->0@
            &&& f.declared is Some <==> findings@[0].declared is Some
            &&& f.declared is Some ==> f.declared->0@ == findings@[0].declared->0@
            &&& r->Ok_0.max_severity == Some(f.severity)
            &&& findings@[0].change == ChangeKind::Create ==> f.severity == Severity::Functional
        },
{
    let views = drift::finding_views(findings@);
    let report = r->Ok_0;
    let p = text::texts(prefixes@);
    let none = Seq::<drift::FindingView>::empty();
    drift::law_each_change_is_one_field(none, findings@[0]@, p);
    assert(views =~= none.push(findings@[0]@));
    let fields = drift::drifted_fields(views, p);
    assert(report@.drifted_fields == fields);
    assert(fields.len() == report.drifted_fields@.len());
    drift::law_worst_severity_is_the_maximum(fields);
    if findings@[0].change != ChangeKind::NoOp {
        assert(fields.last() == fields[0]);
        assert(fields[0] == report.drifted_fields@[0]@);
    }
}

/// What follows from a report goes by its highest severity: stay applied, record
/// the drift, correct it, or hold for a policy.
pub proof fn law_from_report(report: DriftReport, r: DriftScanOutcome)
    requires
        call_ensures(DriftScanOutcome::from_report, (report,), r),
    ensures
        r.report == report,
        report.max_severity is None ==> r.recommended_phase == Phase::Applied && r.remediation_hint
            == RemediationHint::NoDrift,
        report.max_severity == Some(Severity::Cosmetic) ==> r.recommended_phase == Phase::Drifted
            && r.remediation_hint == RemediationHint::Record,
        report.max_severity == Some(Severity::Functional) ==> r.recommended_phase
            == Phase::Reconverging && r.remediation_hint == RemediationHint::AutoCorrect,
        report.max_severity == Some(Severity::Critical) ==> r.recommended_phase == Phase::Drifted
            && r.remediation_hint == RemediationHint::HoldForPolicy,
{
}

/// A scan as the outcome of a pass keeps the phase and reports one condition, on
/// drift, which fails exactly where the scan is held for a policy and tells how
/// many fields drifted.
pub proof fn law_to_reconcile_outcome(scan: DriftScanOutcome, r: ReconcileOutcome)
    requires
        call_ensures(DriftScanOutcome::to_reconcile_outcome, (&scan,), r),
    ensures
        r.phase == scan.recommended_phase,
        r.terraform_json is None,
        r.conditions@.len() == 1,
        r.conditions@[0].kind@ == "Drift"@,
        scan.remediation_hint == RemediationHint::HoldForPolicy ==> {
            &&& r.conditions@[0].status@ == "False"@
            &&& r.conditions@[0].message is Some
            &&& r.conditions@[0].message->0@ == "Critical ("@ + text::decimal(
                scan.report.drifted_fields@.len(),
            ) + " fields) — awaiting RemediationPolicy"@
        },
        scan.remediation_hint != RemediationHint::HoldForPolicy ==> {
            &&& r.conditions@[0].status@ == "True"@
            &&& r.conditions@[0].message is None
            &&& r.conditions@[0].reason is Some
        },
        scan.remediation_hint == RemediationHint::NoDrift ==> r.conditions@[0].reason->0@
            == "Clean"@,
        scan.remediation_hint == RemediationHint::Record ==> r.conditions@[0].reason->0@
            == "Cosmetic ("@ + text::decimal(scan.report.drifted_fields@.len()) + " fields)"@,
        scan.remediation_hint == RemediationHint::AutoCorrect ==> r.conditions@[0].reason->0@
            == "Functional ("@ + text::decimal(scan.report.drifted_fields@.len())
            + " fields) — reconverging"@,
{
    assert(r@.conditions.len() == r.conditions@.len());
    assert(r@.conditions[0] == r.conditions@[0]@);
    assert(scan.report@.drifted_fields.len() == scan.report.drifted_fields@.len());
}

/// From a planner's findings to the decision, under the default policy: a
/// finding that deletes or recreates, at whatever position, has the scan wait
/// for an approval; without one, a clean or a cosmetic scan is told about and
/// every other is corrected.
pub proof fn law_destructive_findings_wait_for_approval(
    findings: Vec<DriftFinding>,
    prefixes: Vec<String>,
    spec_source: &str,
    report: DriftReport,
    scan: DriftScanOutcome,
    router: PolicyRouter,
    policy: RemediationPolicy,
    source: ResourceAddress,
    r: Result<(RoutingDecision, AnomalyPayload), AnomalyBridgeError>,
)
    requires
        call_ensures(
            drift::report_on_findings,
            (&findings, &prefixes, spec_source),
            Ok::<DriftReport, PlannerError>(report),
        ),
        call_ensures(DriftScanOutcome::from_report, (report,), scan),
        call_ensures(RemediationPolicy::default, (), policy),
        call_ensures(
            anomaly_bridge::from_drift::<PolicyRouter>,
            (&router, &policy, source, &scan),
            r,
        ),
    ensures
        r is Ok,
        r->Ok_0.0@.action == RemediationAction::RequireApproval <==> exists|i: int|
            0 <= i < findings@.len() && ((#[trigger] findings@[i]).change == ChangeKind::Delete
                || findings@[i].change == ChangeKind::Replace),
        r->Ok_0.0@.action == RemediationAction::AutoCorrect <==> report.max_severity == Some(
            Severity::Functional,
        ),
        r->Ok_0.0@.action == RemediationAction::Alert <==> report.max_severity is None
            || report.max_severity == Some(Severity::Cosmetic),
        r->Ok_0.0@.escalation is None,
        r->Ok_0.1@.anomaly.kind == AnomalyKind::DriftDetected,
        r->Ok_0.1@.anomaly.source == source@,
        forall|i: int|
            0 <= i < report.drifted_fields@.len() ==> drift::severity_rank(
                (#[trigger] report.drifted_fields@[i]).severity,
            ) <= drift::severity_rank(r->Ok_0.1@.anomaly.severity),
{
    law_report_on_findings(
        findings,
        prefixes,
        spec_source,
        Ok::<DriftReport, PlannerError>(report),
    );
    let a = choose|a: anomaly::LavaAnomaly|
        anomaly_bridge::is_drift_anomaly(a@, source@, scan.report@) && anomaly::anomaly_fields(
            a.raw_anomaly(),
        ) == a@ && #[trigger] anomaly_bridge::is_routed(&router, &policy, a, r);
    anomaly_bridge::law_default_routing(router, policy, a, r);
    anomaly::law_default_policy_decides(policy, a@.severity);
    if report.drifted_fields@.len() > 0 {
        assert(report.max_severity is Some);
    }
}

/// The anomaly of a scan that is routed is as bad as the report's highest
/// severity, cosmetic where it has none, and about the scanned resource; the
/// message and the metadata tell how many fields drifted, the metadata also of
/// which source text.
pub proof fn law_from_drift<R: AnomalyRouter>(
    router: R,
    policy: RemediationPolicy,
    source: ResourceAddress,
    scan: DriftScanOutcome,
    r: Result<(RoutingDecision, AnomalyPayload), AnomalyBridgeError>,
)
    requires
        call_ensures(anomaly_bridge::from_drift::<R>, (&router, &policy, source, &scan), r),
    ensures
        r is Err ==> r->Err_0 is Router,
        r is Ok ==> {
            let a = r->Ok_0.1@.anomaly;
            let count = text::decimal(scan.report.drifted_fields@.len());
            &&& a.kind == AnomalyKind::DriftDetected
            &&& scan.report.max_severity matches Some(s) ==> a.severity == s
            &&& scan.report.max_severity is None ==> a.severity == Severity::Cosmetic
            &&& a.source.cluster == source.cluster@
            &&& a.source.namespace == source.namespace@
            &&& a.source.name == source.name@
            &&& a.message == "drift detected: "@ + count + " field(s)"@
            &&& a.metadata.len() == 2
            &&& a.metadata[0] == ("drifted_fields"@, count)
            &&& a.metadata[1] == ("spec_hash"@, hash::hex_text(scan.report.spec_hash.0@))
            &&& r->Ok_0.1@.decision == r->Ok_0.0@
        },
{
    let a = choose|a: anomaly::LavaAnomaly|
        anomaly_bridge::is_drift_anomaly(a@, source@, scan.report@) && anomaly::anomaly_fields(
            a.raw_anomaly(),
        ) == a@ && #[trigger] anomaly_bridge::is_routed(&router, &policy, a, r);
    anomaly_bridge::law_drift_anomaly_tells_the_report(a@, source, scan.report);
}

/// A failed synthesis is routed as a functional anomaly of the resource, with
/// the message to the letter.
pub proof fn law_from_synth_error<R: AnomalyRouter>(
    router: R,
    policy: RemediationPolicy,
    source: ResourceAddress,
    message: &str,
    r: Result<(RoutingDecision, AnomalyPayload), AnomalyBridgeError>,
)
    requires
        call_ensures(anomaly_bridge::from_synth_error::<R>, (&router, &policy, source, message), r),
    ensures
        r is Ok ==> {
            let a = r->Ok_0.1@.anomaly;
            &&& a.kind == AnomalyKind::SynthesisFailure
            &&& a.severity == Severity::Functional
            &&& a.source.cluster == source.cluster@
            &&& a.source.namespace == source.namespace@
            &&& a.source.name == source.name@
            &&& a.message == message@
            &&& a.metadata.len() == 0
        },
{
}

/// A failed apply is routed as a critical anomaly of the resource, with the
/// message to the letter.
pub proof fn law_from_apply_error<R: AnomalyRouter>(
    router: R,
    policy: RemediationPolicy,
    source: ResourceAddress,
    message: &str,
    r: Result<(RoutingDecision, AnomalyPayload), AnomalyBridgeError>,
)
    requires
        call_ensures(anomaly_bridge::from_apply_error::<R>, (&router, &policy, source, message), r),
    ensures
        r is Ok ==> {
            let a = r->Ok_0.1@.anomaly;
            &&& a.kind == AnomalyKind::ApplyFailure
            &&& a.severity == Severity::Critical
            &&& a.source.cluster == source.cluster@
            &&& a.source.namespace == source.namespace@
            &&& a.source.name == source.name@
            &&& a.message == message@
            &&& a.metadata.len() == 0
        },
{
}

/// A router's error is passed on; a decision comes back as it is, with a payload
/// that holds the anomaly, the decision and the digest of the anomaly.
pub proof fn law_with_payload(
    a: anomaly::LavaAnomaly,
    routed: Result<RoutingDecision, RouterError>,
    r: Result<(RoutingDecision, AnomalyPayload), AnomalyBridgeError>,
)
    requires
        call_ensures(anomaly_bridge::with_payload, (a, routed), r),
    ensures
        r is Ok <==> routed is Ok,
        r is Ok ==> {
            &&& r->Ok_0.0 == routed->Ok_0
            &&& r->Ok_0.1@.anomaly == a@
            &&& r->Ok_0.1@.decision == routed->Ok_0@
            &&& r->Ok_0.1@.anomaly_hash == anomaly::anomaly_digest(a@)
        },
        r is Err ==> r->Err_0 is Router && r->Err_0->Router_0 == routed->Err_0,
{
}

/// A pass whose synthesis gave a JSON value is synthesized and carries it; one
/// whose synthesis failed has failed, carries none and reports the message.
pub proof fn law_outcome_of_synthesis(
    synthesized: Result<serde_json::Value, String>,
    r: ReconcileOutcome,
)
    requires
        call_ensures(reconcile::outcome_of_synthesis, (synthesized,), r),
    ensures
        r.phase == Phase::Synthesized <==> synthesized is Ok,
        r.phase == Phase::Failed <==> synthesized is Err,
        synthesized is Ok ==> r.terraform_json == Some(synthesized->Ok_0),
        synthesized is Err ==> r.terraform_json is None,
        r.conditions@.len() == 1,
        r.conditions@[0].kind@ == "Synthesized"@,
        synthesized is Ok ==> {
            &&& r.conditions@[0].status@ == "True"@
            &&& r.conditions@[0].reason is Some
            &&& r.conditions@[0].reason->0@ == "RenderOk"@
            &&& r.conditions@[0].message is None
        },
        synthesized is Err ==> {
            &&& r.conditions@[0].status@ == "False"@
            &&& r.conditions@[0].reason is Some
            &&& r.conditions@[0].reason->0@ == "Error"@
            &&& r.conditions@[0].message is Some
            &&& r.conditions@[0].message->0@ == synthesized->Err_0@
        },
{
    reconcile::law_outcome_tells_the_synthesis(synthesized, r);
}

/// A finalizer run whose destroy succeeded is finalizing, with a condition for
/// each diagnostic behind that for the destroy; one whose destroy failed has
/// failed and reports the message.
pub proof fn law_outcome_of_destroy(destroyed: Result<Vec<String>, String>, r: ReconcileOutcome)
    requires
        call_ensures(finalizer::outcome_of_destroy, (destroyed,), r),
    ensures
        r.phase == Phase::Finalizing <==> destroyed is Ok,
        r.phase == Phase::Failed <==> destroyed is Err,
        r.terraform_json is None,
        r.conditions@.len() > 0,
        r.conditions@[0].kind@ == "Destroyed"@,
        r.conditions@[0].status@ == (if destroyed is Ok {
            "True"@
        } else {
            "False"@
        }),
        destroyed is Ok ==> {
            &&& r.conditions@.len() == destroyed->Ok_0@.len() + 1
            &&& forall|i: int|
                1 <= i < r.conditions@.len() ==> {
                    &&& (#[trigger] r.conditions@[i]).kind@ == "Diagnostic"@
                    &&& r.conditions@[i].status@ == "True"@
                    &&& r.conditions@[i].reason is Some
                    &&& r.conditions@[i].reason->0@ == destroyed->Ok_0@[i - 1]@
                }
        },
        destroyed is Err ==> {
            &&& r.conditions@.len() == 1
            &&& r.conditions@[0].message is Some
            &&& r.conditions@[0].message->0@ == destroyed->Err_0@
        },
{
    finalizer::law_outcome_tells_the_destroy(destroyed, r);
}

/// A condition that holds says so, of the given kind, with the given reason.
pub proof fn law_ok_condition(kind: &str, reason: &str, r: Condition)
    requires
        call_ensures(Condition::ok, (kind, reason), r),
    ensures
        r.kind@ == kind@,
        r.status@ == "True"@,
        r.reason is Some && r.reason->0@ == reason@,
        r.message is None,
        r.last_transition_time is None,
{
}

/// A condition that does not hold says so, of the given kind, with the given
/// message.
pub proof fn law_fail_condition(kind: &str, message: &str, r: Condition)
    requires
        call_ensures(Condition::fail, (kind, message), r),
    ensures
        r.kind@ == kind@,
        r.status@ == "False"@,
        r.reason is Some && r.reason->0@ == "Error"@,
        r.message is Some && r.message->0@ == message@,
        r.last_transition_time is None,
{
}

/// The text that a planner gets for a source is its inline text, its name or its
/// path.
pub proof fn law_source_text(source: Source, r: String)
    requires
        call_ensures(drift::source_text, (&source,), r),
    ensures
        source is Inline ==> r@ == source->inline@,
        source is Name ==> r@ == source->name@,
        source is Git ==> r@ == source->path@,
{
}

/// Each phase is written with its own word, in a status as elsewhere.
pub proof fn law_phase_words(p: Phase, r: &'static str, s: &'static str)
    requires
        call_ensures(Phase::as_str, (p,), r),
        call_ensures(controller::phase_str, (p,), s),
    ensures
        r@ == "Pending"@ <==> p == Phase::Pending,
        r@ == "Synthesized"@ <==> p == Phase::Synthesized,
        r@ == "Planned"@ <==> p == Phase::Planned,
        r@ == "Applied"@ <==> p == Phase::Applied,
        r@ == "Drifted"@ <==> p == Phase::Drifted,
        r@ == "Reconverging"@ <==> p == Phase::Reconverging,
        r@ == "Finalizing"@ <==> p == Phase::Finalizing,
        r@ == "Failed"@ <==> p == Phase::Failed,
        s@ == r@,
{
    architecture::law_phase_names(p);
}

/// Each beat and each of its statuses is written with its own word.
pub proof fn law_beat_words(b: Beat, r: &'static str, s: BeatStatus, t: &'static str)
    requires
        call_ensures(Beat::as_str, (b,), r),
        call_ensures(BeatStatus::as_str, (s,), t),
    ensures
        r@ == "Observe"@ <==> b == Beat::Observe,
        r@ == "Diff"@ <==> b == Beat::Diff,
        r@ == "Classify"@ <==> b == Beat::Classify,
        r@ == "Decide"@ <==> b == Beat::Decide,
        r@ == "Act"@ <==> b == Beat::Act,
        r@ == "Attest"@ <==> b == Beat::Attest,
        r@ == "Tick"@ <==> b == Beat::Tick,
        t@ == "Ok"@ <==> s == BeatStatus::Succeeded,
        t@ == "Skipped"@ <==> s == BeatStatus::Skipped,
        t@ == "Failed"@ <==> s == BeatStatus::Failed,
{
    viggy_loop::law_beat_names(b);
    viggy_loop::law_beat_status_names(s);
}

/// Each phase of a tick is written with its own word, and a receipt names the
/// phase of the resource that it stands for.
pub proof fn law_tick_phase_words(p: TickPhase, r: &'static str, s: &'static str)
    requires
        call_ensures(TickPhase::as_str, (p,), r),
        call_ensures(viggy_loop::tick_phase_to_payload_phase, (p,), s),
    ensures
        r@ == "Stable"@ <==> p == TickPhase::Stable,
        r@ == "Reconverging"@ <==> p == TickPhase::Reconverging,
        r@ == "HoldingForApproval"@ <==> p == TickPhase::HoldingForApproval,
        r@ == "Escalated"@ <==> p == TickPhase::Escalated,
        r@ == "Failed"@ <==> p == TickPhase::Failed,
        p == TickPhase::Stable ==> s@ == "Applied"@,
        p == TickPhase::Reconverging ==> s@ == "Reconverging"@,
        p == TickPhase::HoldingForApproval ==> s@ == "Drifted"@,
        p == TickPhase::Escalated ==> s@ == "Drifted"@,
        p == TickPhase::Failed ==> s@ == "Failed"@,
{
    viggy_loop::law_tick_phase_names(p);
}

/// The changes of a tick are updates: as many as the first diff beat says at the
/// start of its message, and none where it says no number.
pub proof fn law_change_summary(report: TickReport, r: ChangeSummary, i: int)
    requires
        call_ensures(viggy_loop::change_summary_from_report, (&report,), r),
        0 <= i < report.beats@.len(),
        report.beats@[i].beat == Beat::Diff,
        forall|j: int| 0 <= j < i ==> (#[trigger] report.beats@[j]).beat != Beat::Diff,
    ensures
        r.create == 0 && r.delete == 0 && r.no_op == 0,
        report.beats@[i].message is None ==> r.update == 0,
        report.beats@[i].message is Some ==> r.update == (match text::leading_number(
            report.beats@[i].message->0@,
        ) {
            Some(n) => n,
            None => 0,
        }),
{
    viggy_loop::law_only_updates_are_counted(report.beats@, i);
}

/// A tick whose first diff beat counted `n` drifted fields is summed up as `n`
/// updates.
pub proof fn law_counted_fields_are_updates(report: TickReport, r: ChangeSummary, i: int, n: u32)
    requires
        call_ensures(viggy_loop::change_summary_from_report, (&report,), r),
        0 <= i < report.beats@.len(),
        report.beats@[i].beat == Beat::Diff,
        forall|j: int| 0 <= j < i ==> (#[trigger] report.beats@[j]).beat != Beat::Diff,
        report.beats@[i].message is Some,
        report.beats@[i].message->0@ == text::decimal(n as nat) + " drifted field(s)"@,
    ensures
        r == (ChangeSummary { create: 0, update: n, delete: 0, no_op: 0 }),
{
    law_change_summary(report, r, i);
    reveal_strlit(" drifted field(s)");
    text::lemma_leading_decimal(n, " drifted field(s)"@);
}

/// The diagnostics of a tick are one line for each beat, in their order: the
/// beat's name, its status, and its message in brackets where it has one.
pub proof fn law_diagnostics_from_report(report: TickReport, r: Vec<String>, i: int)
    requires
        call_ensures(viggy_loop::diagnostics_from_report, (&report,), r),
        0 <= i < report.beats@.len(),
    ensures
        r@.len() == report.beats@.len(),
        r@[i]@ == (match report.beats@[i].message {
            Some(m) => viggy_loop::beat_chars(report.beats@[i].beat) + "="@
                + viggy_loop::beat_status_chars(report.beats@[i].status) + " ("@ + m@ + ")"@,
            None => viggy_loop::beat_chars(report.beats@[i].beat) + "="@
                + viggy_loop::beat_status_chars(report.beats@[i].status),
        }),
{
    let views = viggy_loop::beat_views(report.beats@);
    let want = viggy_loop::beat_lines(views);
    let b = report.beats@[i];
    let (name, status) = (
        viggy_loop::beat_chars(b.beat),
        viggy_loop::beat_status_chars(b.status),
    );
    assert(text::texts(r@).len() == r@.len());
    assert(want.len() == report.beats@.len());
    assert(text::texts(r@)[i] == r@[i]@);
    assert(views[i] == b@);
    assert(want[i] == attest::diagnostic(name, status, text::opt_text(b.message)));
    match b.message {
        Some(m) => {
            assert(attest::diagnostic(name, status, Some(m@)) =~= name + "="@ + status + " ("@ + m@
                + ")"@);
        },
        None => {
            assert(attest::diagnostic(name, status, None) =~= name + "="@ + status);
        },
    }
}

/// A digest is written as two lowercase hexadecimal digits for each byte, from
/// which the byte is read back; digests with the same text are the same.
pub proof fn law_hex(a: ContentHash, r: String, b: ContentHash, s: String, i: int)
    requires
        call_ensures(ContentHash::hex, (&a,), r),
        call_ensures(ContentHash::hex, (&b,), s),
        0 <= i < 32,
    ensures
        r@.len() == 64,
        '0' <= r@[2 * i] <= '9' || 'a' <= r@[2 * i] <= 'f',
        '0' <= r@[2 * i + 1] <= '9' || 'a' <= r@[2 * i + 1] <= 'f',
        16 * hash::hex_value(r@[2 * i]) + hash::hex_value(r@[2 * i + 1]) == a.0@[i],
        r@ == s@ <==> a.0@ == b.0@,
{
    hash::law_hex_is_read_back(a.0@, i);
    hash::law_hex_texts_are_distinct(a.0@, b.0@);
}

/// The sentinel, and no other digest, is all zero.
pub proof fn law_is_genesis(h: ContentHash, r: bool, g: ContentHash)
    requires
        call_ensures(ContentHash::is_genesis, (&h,), r),
        call_ensures(ContentHash::genesis, (), g),
    ensures
        r <==> forall|i: int| 0 <= i < 32 ==> #[trigger] h.0@[i] == 0,
        forall|i: int| 0 <= i < 32 ==> #[trigger] g.0@[i] == 0,
{
    hash::law_sentinel_is_all_zero(h.0@, Seq::empty());
    hash::law_sentinel_is_all_zero(g.0@, Seq::empty());
}

/// A number is read back from what is written for it, where it fits in 32 bits.
/// It is written with digits alone, and no zero leads it.
pub proof fn law_written_numbers_are_read(n: u64, written: String, message: &str, r: Option<u32>)
    requires
        call_ensures(text::decimal_text, (n,), written),
        call_ensures(text::leading_u32, (message,), r),
        message@ == written@,
    ensures
        n <= u32::MAX ==> r == Some(n as u32),
        n > u32::MAX ==> r is None,
        forall|i: int| 0 <= i < written@.len() ==> '0' <= #[trigger] written@[i] <= '9',
        written@.len() > 1 ==> written@[0] != '0',
{
    let numeral = text::decimal(n as nat);
    text::lemma_decimal_value(n as nat);
    text::law_numeral_is_read_back(n as nat);
    text::law_numeral_length(n as nat);
    assert forall|i: int| 0 <= i < numeral.len() implies !text::is_space(#[trigger] numeral[i]) by {
        assert(text::is_digit(numeral[i]));
    }
    text::law_first_word_is_read(Seq::empty(), numeral, Seq::empty());
    assert(Seq::<char>::empty() + numeral + Seq::<char>::empty() =~= numeral);
    assert forall|i: int| 0 <= i < written@.len() implies '0' <= #[trigger] written@[i] <= '9' by {
        assert(text::is_digit(numeral[i]));
    }
}

/// An error's line names the step that failed, then gives the message to the
/// letter.
pub proof fn law_error_lines(
    p: PlannerError,
    planner: String,
    q: ReconcileError,
    pass: String,
    b: AnomalyBridgeError,
    bridge: String,
)
    requires
        call_ensures(PlannerError::message, (&p,), planner),
        call_ensures(ReconcileError::message, (&q,), pass),
        call_ensures(AnomalyBridgeError::message, (&b,), bridge),
    ensures
        p matches PlannerError::Synthesize(m) ==> planner@ == "synthesize: "@ + m@,
        p matches PlannerError::Plan(m) ==> planner@ == "plan: "@ + m@,
        p matches PlannerError::Backend(m) ==> planner@ == "backend: "@ + m@,
        q matches ReconcileError::Synthesize(m) ==> pass@ == "synthesize: "@ + m@,
        q matches ReconcileError::Apply(m) ==> pass@ == "apply: "@ + m@,
        b matches AnomalyBridgeError::Router(RouterError::Escalation(m)) ==> bridge@
            == "router: escalation: "@ + m@,
        b matches AnomalyBridgeError::Encode(m) ==> bridge@ == "encode: "@ + m@,
{
}

/// The policy router answers with the policy's action for the anomaly's
/// severity and the wait that goes with it; it fails exactly where that is to
/// escalate and there is no tier to notify.
pub proof fn law_policy_router(
    router: PolicyRouter,
    a: anomaly::LavaAnomaly,
    policy: RemediationPolicy,
    r: Result<RoutingDecision, RouterError>,
)
    requires
        call_ensures(PolicyRouter::route, (&router, &a, &policy), r),
    ensures
        r is Ok && a@.severity == Severity::Cosmetic ==> r->Ok_0@.action == policy.cosmetic,
        r is Ok && a@.severity == Severity::Functional ==> r->Ok_0@.action == policy.functional,
        r is Ok && a@.severity == Severity::Critical ==> r->Ok_0@.action == policy.critical,
        r is Ok && r->Ok_0@.action == RemediationAction::NoOp ==> r->Ok_0@.requeue_after_secs
            == 600,
        r is Ok && r->Ok_0@.action == RemediationAction::Alert ==> r->Ok_0@.requeue_after_secs
            == 300,
        r is Ok && r->Ok_0@.action == RemediationAction::AutoCorrect
            ==> r->Ok_0@.requeue_after_secs == 30,
        r is Ok && r->Ok_0@.action == RemediationAction::RequireApproval
            ==> r->Ok_0@.requeue_after_secs == 120,
        r is Ok && r->Ok_0@.action == RemediationAction::Escalate ==> {
            &&& r->Ok_0@.requeue_after_secs == 60
            &&& policy.escalation is Some
            &&& r->Ok_0@.escalation == Some(anomaly::ladder_tiers(policy.escalation->0)[0])
        },
        r is Ok && r->Ok_0@.action != RemediationAction::Escalate ==> r->Ok_0@.escalation is None,
        r is Err <==> anomaly::policy_action(policy, a@.severity) == RemediationAction::Escalate
            && (policy.escalation is None || anomaly::ladder_tiers(policy.escalation->0).len()
            == 0),
{
    anomaly::law_policy_decides_by_severity(policy, a@.severity);
}

/// The payload of a tick is about the controller's resource, attests its source
/// text and nothing rendered, names the phase that the tick stands for, and
/// holds the tick's changes and diagnostics.
pub proof fn law_payload_of<B: PlannerBackend>(
    c: LavaPromessaController<B>,
    report: TickReport,
    r: OutcomePayload,
    changes: ChangeSummary,
    lines: Vec<String>,
)
    requires
        call_ensures(LavaPromessaController::<B>::payload_of, (&c, &report), r),
        call_ensures(viggy_loop::change_summary_from_report, (&report,), changes),
        call_ensures(viggy_loop::diagnostics_from_report, (&report,), lines),
    ensures
        r.resource.cluster@ == c.source_address.cluster@,
        r.resource.namespace@ == c.source_address.namespace@,
        r.resource.name@ == c.source_address.name@,
        r.spec_hash.0@ == hash::blake3_digest(vstd::utf8::encode_utf8(c.source_text@)),
        forall|i: int| 0 <= i < 32 ==> #[trigger] r.terraform_json_hash.0@[i] == 0,
        r.plan_id is None,
        r.phase@ == "Applied"@ <==> report.final_phase == TickPhase::Stable,
        r.phase@ == "Reconverging"@ <==> report.final_phase == TickPhase::Reconverging,
        r.phase@ == "Drifted"@ <==> report.final_phase == TickPhase::HoldingForApproval
            || report.final_phase == TickPhase::Escalated,
        r.phase@ == "Failed"@ <==> report.final_phase == TickPhase::Failed,
        r.change_summary == changes,
        text::texts(r.diagnostics@) == text::texts(lines@),
{
    viggy_loop::law_tick_payload_tells_the_tick(c.source_address, c.source_text@, report, r);
}

/// The observe beat and the receipt of the tick tell the same digest, that of
/// the controller's source text.
pub proof fn law_observe<B: PlannerBackend>(
    c: LavaPromessaController<B>,
    source: ResourceAddress,
    given: IndexMap<String, String>,
    r: Result<ObservedContext, ViggyError>,
    report: TickReport,
    payload: OutcomePayload,
)
    requires
        call_ensures(LavaPromessaController::<B>::observe, (&c, &source, &given), r),
        call_ensures(LavaPromessaController::<B>::payload_of, (&c, &report), payload),
    ensures
        r is Ok,
        r->Ok_0.spec_hash.0@ == hash::blake3_digest(vstd::utf8::encode_utf8(c.source_text@)),
        r->Ok_0.spec_hash.0@ == payload.spec_hash.0@,
{
}

/// The attest beat succeeds exactly where the append does, and fails with its
/// message.
pub proof fn law_attested(appended: Result<Receipt, AppendError>, r: Result<(), ViggyError>)
    requires
        call_ensures(viggy_loop::attested, (appended,), r),
    ensures
        r is Ok <==> appended is Ok,
        r is Err ==> r->Err_0 is Attest && r->Err_0->Attest_0@ == appended->Err_0.message@,
{
}

/// What was written is attested by its digest, and what was not by that of the
/// empty text.
pub proof fn law_hash_of_written(written: Result<String, serde_json::Error>, r: ContentHash)
    requires
        call_ensures(attest::hash_of_written, (written,), r),
    ensures
        written is Ok ==> r.0@ == hash::blake3_digest(vstd::utf8::encode_utf8(written->Ok_0@)),
        written is Err ==> r.0@ == hash::blake3_digest(vstd::utf8::encode_utf8(Seq::empty())),
{
}

/// An anomaly says what it was made with, and a piece of metadata adds to it
/// without changing anything else.
pub proof fn law_anomaly_is_made_as_told(
    kind: AnomalyKind,
    severity: Severity,
    source: ResourceAddress,
    message: String,
    a: anomaly::LavaAnomaly,
    key: String,
    value: String,
    b: anomaly::LavaAnomaly,
)
    requires
        call_ensures(anomaly::LavaAnomaly::new, (kind, severity, source, message), a),
        call_ensures(anomaly::LavaAnomaly::with_metadata, (a, key, value), b),
    ensures
        a@.kind == kind && b@.kind == kind,
        a@.severity == severity && b@.severity == severity,
        a@.source.cluster == source.cluster@ && b@.source == a@.source,
        a@.source.namespace == source.namespace@,
        a@.source.name == source.name@,
        a@.message == message@ && b@.message == message@,
        a@.emitted_at == b@.emitted_at,
        a@.metadata.len() == 0,
        b@.metadata.len() == 1,
        b@.metadata[0] == (key@, value@),
{
    bindings::law_put_sets_one_entry(a@.metadata, key@, value@);
}

/// The mock backend answers what it was made with.
pub proof fn law_mock_destroy(
    b: MockDestroy,
    source: Source,
    given: IndexMap<String, String>,
    r: Result<Vec<String>, String>,
)
    requires
        call_ensures(MockDestroy::destroy, (&b, &source, &given), r),
    ensures
        r is Ok <==> b.outcome is Ok,
        r is Ok ==> r->Ok_0@ == b.outcome->Ok_0@,
        r is Err ==> r->Err_0@ == b.outcome->Err_0@,
{
}

} // verus!
