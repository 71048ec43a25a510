use indexmap::IndexMap;
use lava_anomaly::AnomalyRouter as LavaRouter;
use lava_operator::anomaly::{
    AnomalyKind, AnomalyRouter, LavaAnomaly, PolicyRouter, RemediationAction, RemediationPolicy,
    RouterError, RoutingDecision,
};
use lava_operator::anomaly_bridge::{
    from_apply_error, from_drift, from_synth_error, AnomalyBridgeError,
};
use lava_operator::chain::ResourceAddress;
use lava_operator::drift::{
    scan_for_drift, ChangeKind, DriftDetector, DriftFinding, DriftScanOutcome, PlannerBackend,
    PlannerError, RemediationHint, Severity,
};
use lava_operator::hash::ContentHash;
use lava_operator::Source;

struct MockPlanner {
    findings: Vec<DriftFinding>,
}

impl PlannerBackend for MockPlanner {
    fn plan(
        &self,
        _spec_source: &str,
        _bindings: &IndexMap<String, String>,
    ) -> Result<Vec<DriftFinding>, PlannerError> {
        Ok(self.findings.clone())
    }
}

fn finding(kind: ChangeKind, attr: &str) -> DriftFinding {
    DriftFinding {
        address: "aws_vpc.main".into(),
        attribute: attr.into(),
        change: kind,
        observed: None,
        declared: None,
    }
}

fn scan(findings: Vec<DriftFinding>) -> DriftScanOutcome {
    let detector = DriftDetector::new(MockPlanner { findings });
    scan_for_drift(&detector, &Source::Inline { inline: "src".into() }, &IndexMap::new()).unwrap()
}

fn metadata(a: &LavaAnomaly, key: &str) -> Option<String> {
    a.metadata().iter().find(|(k, _)| k == key).map(|(_, v)| v.clone())
}

#[test]
fn from_drift_routes_functional_to_autocorrect_by_default() {
    let (decision, payload) = from_drift(
        &PolicyRouter,
        &RemediationPolicy::default(),
        ResourceAddress::new("rio", "infra", "x"),
        &scan(vec![finding(ChangeKind::Update, "cidr_block")]),
    )
    .unwrap();
    assert_eq!(decision.action(), RemediationAction::AutoCorrect);
    assert_eq!(payload.anomaly().kind(), AnomalyKind::DriftDetected);
    assert_eq!(payload.anomaly().severity(), Severity::Functional);
    assert!(metadata(payload.anomaly(), "drifted_fields").is_some());
}

#[test]
fn from_drift_routes_critical_to_require_approval_by_default() {
    let (decision, _) = from_drift(
        &PolicyRouter,
        &RemediationPolicy::default(),
        ResourceAddress::new("rio", "infra", "x"),
        &scan(vec![finding(ChangeKind::Delete, "*")]),
    )
    .unwrap();
    assert_eq!(decision.action(), RemediationAction::RequireApproval);
}

#[test]
fn from_synth_error_routes_functional_to_autocorrect() {
    let (decision, payload) = from_synth_error(
        &PolicyRouter,
        &RemediationPolicy::default(),
        ResourceAddress::new("c", "n", "x"),
        "boom",
    )
    .unwrap();
    assert_eq!(decision.action(), RemediationAction::AutoCorrect);
    assert_eq!(payload.anomaly().kind(), AnomalyKind::SynthesisFailure);
}

#[test]
fn from_apply_error_routes_critical_to_require_approval() {
    let (decision, payload) = from_apply_error(
        &PolicyRouter,
        &RemediationPolicy::default(),
        ResourceAddress::new("c", "n", "x"),
        "provider denied",
    )
    .unwrap();
    assert_eq!(decision.action(), RemediationAction::RequireApproval);
    assert_eq!(payload.anomaly().kind(), AnomalyKind::ApplyFailure);
}

#[test]
fn drift_anomaly_says_how_much_drifted() {
    let (decision, payload) = from_drift(
        &PolicyRouter,
        &RemediationPolicy::default(),
        ResourceAddress::new("rio", "infra", "x"),
        &scan(vec![finding(ChangeKind::Update, "tags.A"), finding(ChangeKind::Update, "tags.B")]),
    )
    .unwrap();
    let a = payload.anomaly();
    assert_eq!(a.message(), "drift detected: 2 field(s)");
    assert_eq!(a.severity(), Severity::Cosmetic);
    assert_eq!(a.source(), &ResourceAddress::new("rio", "infra", "x"));
    assert_eq!(
        a.metadata(),
        &vec![
            ("drifted_fields".to_string(), "2".to_string()),
            ("spec_hash".to_string(), ContentHash::of(b"src").hex()),
        ]
    );
    assert_eq!(decision.action(), RemediationAction::Alert);
    assert_eq!(decision.requeue_after_secs(), 300);
    assert!(decision.escalation().is_none());
    assert_eq!(payload.decision().action(), RemediationAction::Alert);
    let raw = payload.into_raw();
    assert_eq!(raw.anomaly.message, "drift detected: 2 field(s)");
    assert_eq!(raw.anomaly.severity, lava_drift::Severity::Cosmetic);
    assert_eq!(raw.anomaly.metadata["drifted_fields"], "2");
    assert_eq!(raw.decision.action, lava_anomaly::RemediationAction::Alert);
    assert_eq!(raw.decision.requeue_after.num_seconds(), 300);
}

#[test]
fn default_policy_decides_what_the_hint_says() {
    for (findings, hint, action) in [
        (
            vec![finding(ChangeKind::Update, "tags.A")],
            RemediationHint::Record,
            RemediationAction::Alert,
        ),
        (
            vec![finding(ChangeKind::Create, "*")],
            RemediationHint::AutoCorrect,
            RemediationAction::AutoCorrect,
        ),
        (
            vec![finding(ChangeKind::Replace, "*")],
            RemediationHint::HoldForPolicy,
            RemediationAction::RequireApproval,
        ),
    ] {
        let outcome = scan(findings);
        let (decision, _) = from_drift(
            &PolicyRouter,
            &RemediationPolicy::default(),
            ResourceAddress::new("rio", "infra", "x"),
            &outcome,
        )
        .unwrap();
        assert_eq!(outcome.remediation_hint, hint);
        assert_eq!(decision.action(), action);
    }
}

#[test]
fn clean_scan_is_a_cosmetic_anomaly() {
    let (_, payload) = from_drift(
        &PolicyRouter,
        &RemediationPolicy::default(),
        ResourceAddress::new("rio", "infra", "x"),
        &scan(vec![]),
    )
    .unwrap();
    assert_eq!(payload.anomaly().severity(), Severity::Cosmetic);
    assert_eq!(payload.anomaly().message(), "drift detected: 0 field(s)");
}

#[test]
fn payload_stands_for_the_anomaly_of_the_crate() {
    let (_, payload) = from_apply_error(
        &PolicyRouter,
        &RemediationPolicy::default(),
        ResourceAddress::new("c", "n", "x"),
        "provider denied",
    )
    .unwrap();
    let hash = payload.anomaly_hash();
    let emitted_at = payload.anomaly().emitted_at().clone();
    let raw = payload.into_raw();
    assert_eq!(raw.anomaly_hash.0, hash.0);
    assert_eq!(raw.anomaly.message, "provider denied");
    assert_eq!(raw.anomaly.kind, lava_anomaly::AnomalyKind::ApplyFailure);
    assert_eq!(raw.anomaly.severity, lava_drift::Severity::Critical);
    assert_eq!(raw.anomaly.source.dotted(), "c/n/x");
    assert_eq!(raw.anomaly.emitted_at.to_rfc3339(), emitted_at);
    assert_eq!(raw.decision.action, lava_anomaly::RemediationAction::RequireApproval);
    assert_eq!(
        lava_outcome_chain::ContentHash::of_value(&raw.anomaly).unwrap(),
        raw.anomaly_hash
    );
}

#[test]
fn every_action_has_its_wait() {
    for (action, secs) in [
        (RemediationAction::NoOp, 600),
        (RemediationAction::Alert, 300),
        (RemediationAction::AutoCorrect, 30),
        (RemediationAction::RequireApproval, 120),
    ] {
        let policy = RemediationPolicy {
            cosmetic: RemediationAction::Escalate,
            functional: action,
            critical: RemediationAction::Escalate,
            escalation: None,
        };
        let (decision, _) =
            from_synth_error(&PolicyRouter, &policy, ResourceAddress::new("c", "n", "x"), "m")
                .unwrap();
        assert_eq!(decision.action(), action);
        assert_eq!(decision.requeue_after_secs(), secs);
    }
}

fn ladder(topics: &[&str]) -> lava_anomaly::EscalationLadder {
    let tiers: Vec<String> = topics
        .iter()
        .map(|t| {
            let target = format!("{{\"kind\":\"ntfy\",\"topic\":\"{t}\"}}");
            format!("{{\"target\":{target},\"wait_before_next\":[900,0]}}")
        })
        .collect();
    serde_json::from_str(&format!("{{\"tiers\":[{}]}}", tiers.join(","))).unwrap()
}

#[test]
fn escalation_picks_the_first_tier() {
    let policy = RemediationPolicy {
        critical: RemediationAction::Escalate,
        escalation: Some(ladder(&["tier-0", "tier-1"])),
        ..RemediationPolicy::default()
    };
    let (decision, payload) =
        from_apply_error(&PolicyRouter, &policy, ResourceAddress::new("c", "n", "x"), "m").unwrap();
    assert_eq!(decision.action(), RemediationAction::Escalate);
    assert_eq!(decision.requeue_after_secs(), 60);
    let tier = decision.escalation().clone().unwrap();
    assert_eq!(tier.target, lava_anomaly::NotifyTarget::Ntfy { topic: "tier-0".into() });
    assert_eq!(payload.into_raw().decision.escalation, Some(tier));
}

#[test]
fn escalation_without_a_tier_is_a_router_error() {
    for escalation in [None, Some(ladder(&[]))] {
        let policy = RemediationPolicy {
            critical: RemediationAction::Escalate,
            escalation,
            ..RemediationPolicy::default()
        };
        let r =
            from_apply_error(&PolicyRouter, &policy, ResourceAddress::new("c", "n", "x"), "m");
        let e = match r {
            Ok(_) => panic!("no tier to notify"),
            Err(e) => e,
        };
        assert_eq!(
            e,
            AnomalyBridgeError::Router(RouterError::Escalation("Escalate set but no ladder".into()))
        );
        assert_eq!(e.message(), "router: escalation: Escalate set but no ladder");
    }
    assert_eq!(AnomalyBridgeError::Encode("x".into()).message(), "encode: x");
}

struct Adapter(lava_anomaly::MockRouter);

impl AnomalyRouter for Adapter {
    fn route(
        &self,
        anomaly: &LavaAnomaly,
        policy: &RemediationPolicy,
    ) -> Result<RoutingDecision, RouterError> {
        assert!(policy.escalation.is_none());
        self.0
            .route(anomaly.as_raw(), &lava_anomaly::RemediationPolicy::default())
            .map(RoutingDecision::from_raw)
            .map_err(|lava_anomaly::RouterError::Escalation(m)| RouterError::Escalation(m))
    }
}

#[test]
fn routers_of_the_crate_can_be_adapted() {
    let raw: lava_anomaly::RoutingDecision = serde_json::from_str(
        "{\"action\":\"NoOp\",\"requeueAfter\":[-5,0],\"escalation\":null}",
    )
    .unwrap();
    let router = Adapter(lava_anomaly::MockRouter::returning(raw));
    let (decision, payload) = from_synth_error(
        &router,
        &RemediationPolicy::default(),
        ResourceAddress::new("c", "n", "x"),
        "m",
    )
    .unwrap();
    assert_eq!(decision.action(), RemediationAction::NoOp);
    assert_eq!(decision.requeue_after_secs(), -5);
    assert_eq!(payload.decision().requeue_after_secs(), -5);
}

#[test]
fn decision_is_sealed_to_the_nanosecond() {
    let raw: lava_anomaly::RoutingDecision = serde_json::from_str(
        "{\"action\":\"Alert\",\"requeueAfter\":[1,500000001],\"escalation\":null}",
    )
    .unwrap();
    let router = Adapter(lava_anomaly::MockRouter::returning(raw.clone()));
    let (decision, payload) = from_synth_error(
        &router,
        &RemediationPolicy::default(),
        ResourceAddress::new("c", "n", "x"),
        "m",
    )
    .unwrap();
    assert_eq!(decision.requeue_after_secs(), 1);
    assert_eq!(payload.decision(), &decision);
    assert_eq!(payload.into_raw().decision, raw);
}

#[test]
fn anomaly_types_clone_to_the_last_field() {
    let policy = RemediationPolicy {
        critical: RemediationAction::Escalate,
        escalation: Some(ladder(&["tier-0", "tier-1"])),
        ..RemediationPolicy::default()
    };
    assert_eq!(policy.clone(), policy);
    let (decision, payload) = from_drift(
        &PolicyRouter,
        &policy,
        ResourceAddress::new("c", "n", "x"),
        &scan(vec![finding(ChangeKind::Delete, "*")]),
    )
    .unwrap();
    assert_eq!(decision.clone(), decision);
    assert_eq!(payload.anomaly().clone(), *payload.anomaly());
    assert_eq!(payload.anomaly().metadata().len(), 2);
    let copy = payload.clone();
    assert_eq!(copy, payload);
    assert_eq!(copy.into_raw(), payload.into_raw());
}

#[test]
fn metadata_key_set_twice_takes_the_last_value() {
    let a = LavaAnomaly::new(
        AnomalyKind::Custom,
        Severity::Cosmetic,
        ResourceAddress::new("c", "n", "x"),
        "m".into(),
    )
    .with_metadata("k".into(), "1".into())
    .with_metadata("l".into(), "2".into())
    .with_metadata("k".into(), "3".into());
    assert_eq!(
        a.metadata(),
        &vec![("k".to_string(), "3".to_string()), ("l".to_string(), "2".to_string())]
    );
    assert_eq!(a.kind(), AnomalyKind::Custom);
    let raw = a.as_raw();
    assert_eq!(raw.kind, lava_anomaly::AnomalyKind::Custom);
    assert_eq!(raw.severity, lava_drift::Severity::Cosmetic);
    assert_eq!(raw.message, "m");
    assert_eq!(raw.extension_kind, None);
    let pairs: Vec<(String, String)> =
        raw.metadata.iter().map(|(k, v)| (k.clone(), v.clone())).collect();
    assert_eq!(&pairs, a.metadata());
}
