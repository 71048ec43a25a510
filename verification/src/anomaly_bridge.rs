//! From what went wrong to an anomaly, the decision about it and its payload.

use crate::anomaly::{
    AnomalyKind, AnomalyPayload, AnomalyPayloadView, AnomalyRouter, AnomalyView, LavaAnomaly,
    RemediationPolicy, RouterError, RoutingDecision,
};
use crate::chain::{AddressView, ResourceAddress};
use crate::drift::{DriftScanOutcome, ReportView, Severity};
use crate::{anomaly, bindings, drift, hash, text};
use vstd::prelude::*;
use vstd::string::*;

verus! {

/// Why there is no decision with a payload.
#[derive(Clone, Debug, PartialEq)]
pub enum AnomalyBridgeError {
    /// The router could not decide.
    Router(RouterError),
    /// The anomaly could not be encoded.
    Encode(String),
}

/// The error as a line of text.
pub open spec fn bridge_error_text(e: AnomalyBridgeError) -> Seq<char> {
    match e {
        AnomalyBridgeError::Router(RouterError::Escalation(m)) => "router: escalation: "@ + m@,
        AnomalyBridgeError::Encode(m) => "encode: "@ + m@,
    }
}

impl AnomalyBridgeError {
    /// The error as a line of text.
    pub fn message(&self) -> (r: String)
        ensures
            r@ == bridge_error_text(*self),
    {
        match self {
            AnomalyBridgeError::Router(RouterError::Escalation(m)) => {
                "router: escalation: ".to_owned().concat(m.as_str())
            },
            AnomalyBridgeError::Encode(m) => "encode: ".to_owned().concat(m.as_str()),
        }
    }
}

/// The payload of an anomaly and the decision about it.
pub open spec fn sealed_payload(a: AnomalyView, d: anomaly::DecisionView) -> AnomalyPayloadView {
    AnomalyPayloadView { anomaly: a, decision: d, anomaly_hash: anomaly::anomaly_digest(a) }
}

/// Puts an anomaly together with what the router said about it. The router's
/// error is passed on.
pub fn with_payload(anomaly: LavaAnomaly, routed: Result<RoutingDecision, RouterError>) -> (r:
    Result<(RoutingDecision, AnomalyPayload), AnomalyBridgeError>)
    ensures
        match routed {
            Ok(decision) => {
                &&& r is Ok
                &&& r->Ok_0.0 == decision
                &&& r->Ok_0.1@ == sealed_payload(anomaly@, decision@)
                &&& anomaly::payload_fields(r->Ok_0.1.raw_payload()) == r->Ok_0.1@
                &&& anomaly::payload_parts(r->Ok_0.1.raw_payload()) == (
                    anomaly.raw_anomaly(),
                    decision.raw_decision(),
                )
            },
            Err(e) => r == Err::<(RoutingDecision, AnomalyPayload), AnomalyBridgeError>(
                AnomalyBridgeError::Router(e),
            ),
        },
{
    match routed {
        Ok(decision) => match AnomalyPayload::from(anomaly, decision.clone()) {
            Ok(payload) => Ok((decision, payload)),
            Err(e) => Err(AnomalyBridgeError::Encode(e)),
        },
        Err(e) => Err(AnomalyBridgeError::Router(e)),
    }
}

/// Is `r` what comes of routing `a` through `router`?
pub open spec fn is_routed<R: AnomalyRouter>(
    router: &R,
    policy: &RemediationPolicy,
    a: LavaAnomaly,
    r: Result<(RoutingDecision, AnomalyPayload), AnomalyBridgeError>,
) -> bool {
    match r {
        Ok((decision, payload)) => {
            &&& router_said(router, policy, a, Ok(decision))
            &&& payload@ == sealed_payload(a@, decision@)
            &&& anomaly::payload_fields(payload.raw_payload()) == payload@
            &&& anomaly::payload_parts(payload.raw_payload()) == (
                a.raw_anomaly(),
                decision.raw_decision(),
            )
        },
        Err(AnomalyBridgeError::Router(e)) => router_said(router, policy, a, Err(e)),
        Err(AnomalyBridgeError::Encode(_)) => false,
    }
}

/// Can the router answer with `routed`?
pub open spec fn router_said<R: AnomalyRouter>(
    router: &R,
    policy: &RemediationPolicy,
    a: LavaAnomaly,
    routed: Result<RoutingDecision, RouterError>,
) -> bool {
    call_ensures(R::route, (router, &a, policy), routed)
}

/// Routes an anomaly and seals it with the decision.
pub fn route_anomaly<R: AnomalyRouter>(
    router: &R,
    policy: &RemediationPolicy,
    anomaly: LavaAnomaly,
) -> (r: Result<(RoutingDecision, AnomalyPayload), AnomalyBridgeError>)
    ensures
        is_routed(router, policy, anomaly, r),
{
    let routed = router.route(&anomaly, policy);
    assert(router_said(router, policy, anomaly, routed));
    with_payload(anomaly, routed)
}

/// Under the default policy the policy router decides about every anomaly, as
/// its severity asks.
pub proof fn law_default_routing(
    router: anomaly::PolicyRouter,
    policy: RemediationPolicy,
    a: LavaAnomaly,
    r: Result<(RoutingDecision, AnomalyPayload), AnomalyBridgeError>,
)
    requires
        anomaly::is_default_policy(policy),
        is_routed(&router, &policy, a, r),
    ensures
        r is Ok,
        r->Ok_0.0@.action == (match a@.severity {
            Severity::Cosmetic => anomaly::RemediationAction::Alert,
            Severity::Functional => anomaly::RemediationAction::AutoCorrect,
            Severity::Critical => anomaly::RemediationAction::RequireApproval,
        }),
        r->Ok_0.1@ == sealed_payload(a@, r->Ok_0.0@),
        anomaly::payload_fields(r->Ok_0.1.raw_payload()) == r->Ok_0.1@,
        anomaly::payload_parts(r->Ok_0.1.raw_payload()) == (
            a.raw_anomaly(),
            r->Ok_0.0.raw_decision(),
        ),
{
    anomaly::law_default_policy_decides(policy, a@.severity);
}

/// The severity of a scan's anomaly: the report's highest, or cosmetic.
pub open spec fn scan_severity(report: ReportView) -> Severity {
    match report.max_severity {
        Some(s) => s,
        None => Severity::Cosmetic,
    }
}

/// Where something drifted, the hint of the scan is what the default policy
/// decides: record where it alerts, correct where it corrects, hold where it
/// asks for approval.
pub proof fn law_hint_agrees_with_default_policy(policy: RemediationPolicy, report: ReportView)
    requires
        anomaly::is_default_policy(policy),
        report.max_severity is Some,
    ensures
        drift::drift_hint(report.max_severity) == (match anomaly::policy_action(
            policy,
            scan_severity(report),
        ) {
            anomaly::RemediationAction::AutoCorrect => drift::RemediationHint::AutoCorrect,
            anomaly::RemediationAction::RequireApproval => drift::RemediationHint::HoldForPolicy,
            _ => drift::RemediationHint::Record,
        }),
{
}

/// Is `a` the anomaly of a scan that gave `report`?
pub open spec fn is_drift_anomaly(a: AnomalyView, source: AddressView, report: ReportView) -> bool {
    let count = text::decimal(report.drifted_fields.len());
    &&& a.kind == AnomalyKind::DriftDetected
    &&& a.severity == scan_severity(report)
    &&& a.source == source
    &&& a.message == "drift detected: "@ + count + " field(s)"@
    &&& a.metadata == seq![
        ("drifted_fields"@, count),
        ("spec_hash"@, hash::hex_text(report.spec_hash)),
    ]
}

/// Is `a` the anomaly of a failure with this message?
pub open spec fn is_failure_anomaly(
    a: AnomalyView,
    kind: AnomalyKind,
    severity: Severity,
    source: AddressView,
    message: Seq<char>,
) -> bool {
    &&& a.kind == kind
    &&& a.severity == severity
    &&& a.source == source
    &&& a.message == message
    &&& a.metadata == Seq::<(Seq<char>, Seq<char>)>::empty()
}

/// The anomaly of a scan is as bad as the report's highest severity, and
/// cosmetic where the report has none. It is about the scanned resource, and
/// its message and metadata tell how many fields drifted and which source was
/// scanned.
pub proof fn law_drift_anomaly_tells_the_report(
    a: AnomalyView,
    source: ResourceAddress,
    report: drift::DriftReport,
)
    requires
        is_drift_anomaly(a, source@, report@),
    ensures
        report.max_severity matches Some(s) ==> a.severity == s,
        report.max_severity is None ==> a.severity == Severity::Cosmetic,
        a.kind == AnomalyKind::DriftDetected,
        a.source.cluster == source.cluster@,
        a.source.namespace == source.namespace@,
        a.source.name == source.name@,
        a.message == "drift detected: "@ + text::decimal(report.drifted_fields@.len())
            + " field(s)"@,
        a.metadata.len() == 2,
        a.metadata[0].0 == "drifted_fields"@,
        a.metadata[0].1 == text::decimal(report.drifted_fields@.len()),
        a.metadata[1].0 == "spec_hash"@,
        a.metadata[1].1 == hash::hex_text(report.spec_hash.0@),
{
    assert(report@.drifted_fields.len() == report.drifted_fields@.len());
}

/// The anomaly of a scan is at least as bad as every field that drifted, at
/// whatever position, and exactly as bad as one of them where there is any. A
/// finding that deletes or recreates makes it critical.
pub proof fn law_drift_anomaly_is_as_bad_as_the_worst_field(
    a: AnomalyView,
    source: AddressView,
    findings: Seq<drift::FindingView>,
    prefixes: Seq<Seq<char>>,
    spec_source: Seq<char>,
    scanned_at: (i64, u32),
)
    requires
        is_drift_anomaly(
            a,
            source,
            drift::scan_report(findings, prefixes, spec_source, scanned_at),
        ),
    ensures
        forall|i: int|
            0 <= i < drift::drifted_fields(findings, prefixes).len() ==> drift::severity_rank(
                (#[trigger] drift::drifted_fields(findings, prefixes)[i]).severity,
            ) <= drift::severity_rank(a.severity),
        drift::drifted_fields(findings, prefixes).len() > 0 ==> exists|i: int|
            0 <= i < drift::drifted_fields(findings, prefixes).len()
                && (#[trigger] drift::drifted_fields(findings, prefixes)[i]).severity
                == a.severity,
        a.severity == Severity::Critical <==> exists|i: int|
            0 <= i < findings.len() && ((#[trigger] findings[i]).change
                == drift::ChangeKind::Delete || findings[i].change == drift::ChangeKind::Replace),
{
    let fields = drift::drifted_fields(findings, prefixes);
    drift::law_worst_severity_is_the_maximum(fields);
    drift::law_report_is_as_bad_as_its_worst_finding(findings, prefixes, spec_source, scanned_at);
}

/// Under the default policy a scan that found something to delete or recreate,
/// at whatever position, waits for an approval, and the payload says so.
pub proof fn law_destructive_drift_asks_for_approval(
    router: anomaly::PolicyRouter,
    policy: RemediationPolicy,
    a: LavaAnomaly,
    source: AddressView,
    findings: Seq<drift::FindingView>,
    prefixes: Seq<Seq<char>>,
    spec_source: Seq<char>,
    scanned_at: (i64, u32),
    i: int,
    r: Result<(RoutingDecision, AnomalyPayload), AnomalyBridgeError>,
)
    requires
        anomaly::is_default_policy(policy),
        is_drift_anomaly(
            a@,
            source,
            drift::scan_report(findings, prefixes, spec_source, scanned_at),
        ),
        is_routed(&router, &policy, a, r),
        0 <= i < findings.len(),
        findings[i].change == drift::ChangeKind::Delete || findings[i].change
            == drift::ChangeKind::Replace,
    ensures
        r is Ok,
        r->Ok_0.0@.action == anomaly::RemediationAction::RequireApproval,
        r->Ok_0.0@.requeue_after_secs == 120,
        r->Ok_0.0@.escalation is None,
        r->Ok_0.1@.anomaly.severity == Severity::Critical,
        r->Ok_0.1@.anomaly.source == source,
        r->Ok_0.1@.decision.action == anomaly::RemediationAction::RequireApproval,
{
    law_drift_anomaly_is_as_bad_as_the_worst_field(
        a@,
        source,
        findings,
        prefixes,
        spec_source,
        scanned_at,
    );
    law_default_routing(router, policy, a, r);
    anomaly::law_default_policy_decides(policy, a@.severity);
}

/// The anomaly of a failure carries what it is told, and nothing else.
pub proof fn law_failure_anomaly_tells_the_failure(
    a: AnomalyView,
    kind: AnomalyKind,
    severity: Severity,
    source: AddressView,
    message: Seq<char>,
)
    requires
        is_failure_anomaly(a, kind, severity, source, message),
    ensures
        a.kind == kind,
        a.severity == severity,
        a.source.cluster == source.cluster,
        a.source.namespace == source.namespace,
        a.source.name == source.name,
        a.message == message,
        a.metadata.len() == 0,
{
}

/// A payload holds the anomaly that was routed, the decision about it, and the
/// digest of that anomaly.
pub proof fn law_payload_holds_what_was_routed<R: AnomalyRouter>(
    router: R,
    policy: RemediationPolicy,
    a: LavaAnomaly,
    r: Result<(RoutingDecision, AnomalyPayload), AnomalyBridgeError>,
)
    requires
        is_routed(&router, &policy, a, r),
    ensures
        r matches Ok((d, p)) ==> {
            &&& call_ensures(R::route, (&router, &a, &policy), Ok(d))
            &&& p@.anomaly == a@
            &&& p@.decision == d@
            &&& p@.anomaly_hash == anomaly::anomaly_digest(a@)
        },
        r matches Err(e) ==> e is Router && call_ensures(
            R::route,
            (&router, &a, &policy),
            Err(e->Router_0),
        ),
{
}

/// The line of a bridge error names what failed, then gives its message to the
/// letter.
pub proof fn law_bridge_error_keeps_its_message(m: String)
    ensures
        bridge_error_text(AnomalyBridgeError::Router(RouterError::Escalation(m)))
            == "router: escalation: "@ + m@,
        bridge_error_text(AnomalyBridgeError::Encode(m)) == "encode: "@ + m@,
{
}

fn drift_anomaly(source: ResourceAddress, scan: &DriftScanOutcome) -> (r: LavaAnomaly)
    ensures
        is_drift_anomaly(r@, source@, scan.report@),
        anomaly::anomaly_fields(r.raw_anomaly()) == r@,
{
    let severity = match scan.report.max_severity {
        Some(s) => s,
        None => Severity::Cosmetic,
    };
    let count = text::decimal_text(scan.report.count() as u64);
    let mut metadata = bindings::new_bindings();
    bindings::insert_binding(&mut metadata, "drifted_fields".to_owned(), count.clone());
    bindings::insert_binding(&mut metadata, "spec_hash".to_owned(), scan.report.spec_hash.hex());
    let items = bindings::binding_list(&metadata);
    let ghost pairs = bindings::pair_texts(items@);
    proof {
        reveal_strlit("drifted_fields");
        reveal_strlit("spec_hash");
        assert("drifted_fields"@[0] == 'd' && "spec_hash"@[0] == 's');
        assert(pairs =~= seq![
            ("drifted_fields"@, count@),
            ("spec_hash"@, hash::hex_text(scan.report@.spec_hash)),
        ]);
    }
    let message = "drift detected: ".to_owned().concat(count.as_str()).concat(" field(s)");
    let mut out = LavaAnomaly::new(AnomalyKind::DriftDetected, severity, source, message);
    for i in 0..items.len()
        invariant
            pairs == bindings::pair_texts(items@),
            out@.kind == AnomalyKind::DriftDetected,
            out@.severity == severity,
            out@.source == source@,
            out@.message == message@,
            anomaly::anomaly_fields(out.raw_anomaly()) == out@,
            out@.metadata == bindings::put_all(pairs.take(i as int)),
    {
        out = out.with_metadata(items[i].0.clone(), items[i].1.clone());
        assert(pairs.take(i as int + 1).drop_last() =~= pairs.take(i as int));
        assert(pairs.take(i as int + 1).last() == pairs[i as int]);
    }
    proof {
        assert(pairs.take(items@.len() as int) =~= pairs);
        bindings::lemma_put_all_distinct(pairs);
    }
    out
}

/// Routes the anomaly of a drift scan.
pub fn from_drift<R: AnomalyRouter>(
    router: &R,
    policy: &RemediationPolicy,
    source: ResourceAddress,
    scan: &DriftScanOutcome,
) -> (r: Result<(RoutingDecision, AnomalyPayload), AnomalyBridgeError>)
    ensures
        exists|a: LavaAnomaly|
            is_drift_anomaly(a@, source@, scan.report@) && anomaly::anomaly_fields(
                a.raw_anomaly(),
            ) == a@ && #[trigger] is_routed(
                router,
                policy,
                a,
                r,
            ),
        r matches Ok((d, p)) ==> {
            &&& p@.anomaly.kind == AnomalyKind::DriftDetected
            &&& scan.report.max_severity matches Some(s) ==> p@.anomaly.severity == s
            &&& scan.report.max_severity is None ==> p@.anomaly.severity == Severity::Cosmetic
            &&& p@.anomaly.source == source@
            &&& p@.decision == d@
        },
{
    let anomaly = drift_anomaly(source, scan);
    route_anomaly(router, policy, anomaly)
}

/// Routes the anomaly of a failed synthesis: a functional one.
pub fn from_synth_error<R: AnomalyRouter>(
    router: &R,
    policy: &RemediationPolicy,
    source: ResourceAddress,
    message: &str,
) -> (r: Result<(RoutingDecision, AnomalyPayload), AnomalyBridgeError>)
    ensures
        exists|a: LavaAnomaly|
            is_failure_anomaly(
                a@,
                AnomalyKind::SynthesisFailure,
                Severity::Functional,
                source@,
                message@,
            ) && anomaly::anomaly_fields(a.raw_anomaly()) == a@ && #[trigger] is_routed(
                router,
                policy,
                a,
                r,
            ),
        r matches Ok((d, p)) ==> {
            &&& p@.anomaly.kind == AnomalyKind::SynthesisFailure
            &&& p@.anomaly.severity == Severity::Functional
            &&& p@.anomaly.source == source@
            &&& p@.anomaly.message == message@
            &&& p@.decision == d@
        },
{
    let anomaly = LavaAnomaly::new(
        AnomalyKind::SynthesisFailure,
        Severity::Functional,
        source,
        message.to_owned(),
    );
    route_anomaly(router, policy, anomaly)
}

/// Routes the anomaly of a failed apply: a critical one.
pub fn from_apply_error<R: AnomalyRouter>(
    router: &R,
    policy: &RemediationPolicy,
    source: ResourceAddress,
    message: &str,
) -> (r: Result<(RoutingDecision, AnomalyPayload), AnomalyBridgeError>)
    ensures
        exists|a: LavaAnomaly|
            is_failure_anomaly(
                a@,
                AnomalyKind::ApplyFailure,
                Severity::Critical,
                source@,
                message@,
            ) && anomaly::anomaly_fields(a.raw_anomaly()) == a@ && #[trigger] is_routed(
                router,
                policy,
                a,
                r,
            ),
        r matches Ok((d, p)) ==> {
            &&& p@.anomaly.kind == AnomalyKind::ApplyFailure
            &&& p@.anomaly.severity == Severity::Critical
            &&& p@.anomaly.source == source@
            &&& p@.anomaly.message == message@
            &&& p@.decision == d@
        },
{
    let anomaly = LavaAnomaly::new(
        AnomalyKind::ApplyFailure,
        Severity::Critical,
        source,
        message.to_owned(),
    );
    route_anomaly(router, policy, anomaly)
}

} // verus!
