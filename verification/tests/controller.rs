use lava_operator::anomaly::RemediationAction;
use lava_operator::controller::{
    default_engine, default_require_phase, default_tier_wait, error_requeue_secs, phase_str,
    plan_by_synthesis, plan_of_synthesis, requeue_secs, tick_inputs, tick_status, to_lib_spec, ConditionCR,
    DependencyKind, LavaArchitectureDependencySpec, LavaArchitectureSpecCR,
    LavaArchitectureStatusCR, RemediationPolicySpec, ResourceRefCR, SourceCR,
};
use lava_operator::drift::PlannerError;
use lava_operator::viggy_loop::{Beat, BeatOutcome, BeatStatus, TickPhase, TickReport};
use lava_operator::{Condition, Phase, Source};

fn spec_cr(source: SourceCR, bindings: Vec<(String, String)>) -> LavaArchitectureSpecCR {
    LavaArchitectureSpecCR { source, bindings, gate: None, engine: "embedded".into() }
}

#[test]
fn to_lib_spec_round_trips_inline_source() {
    let cr = LavaArchitectureSpecCR {
        source: SourceCR { inline: Some("(x)".into()), ..Default::default() },
        bindings: vec![("name".to_string(), "prod".to_string())],
        gate: Some("vpc".into()),
        engine: "embedded".into(),
    };
    let lib = to_lib_spec(&cr);
    assert!(matches!(lib.source, Source::Inline { .. }));
    assert_eq!(lib.bindings["name"], "prod");
    assert_eq!(lib.gate.as_deref(), Some("vpc"));
}

#[test]
fn condition_cr_converts_from_lib_condition() {
    let c = Condition::ok("Synthesized", "RenderOk");
    let cr: ConditionCR = (&c).into();
    assert_eq!(cr.kind, "Synthesized");
    assert_eq!(cr.status, "True");
    assert_eq!(cr.reason.as_deref(), Some("RenderOk"));
}

#[test]
fn remediation_policy_spec_to_policy_parses_action_strings() {
    let spec = RemediationPolicySpec {
        cosmetic: "NoOp".into(),
        functional: "AutoCorrect".into(),
        critical: "Escalate".into(),
        escalation: None,
    };
    let p = spec.to_policy();
    assert_eq!(p.cosmetic, RemediationAction::NoOp);
    assert_eq!(p.functional, RemediationAction::AutoCorrect);
    assert_eq!(p.critical, RemediationAction::Escalate);
}

#[test]
fn remediation_policy_spec_degrades_unknown_action_to_alert() {
    let spec = RemediationPolicySpec {
        cosmetic: "Moonwalk".into(),
        functional: "Yodel".into(),
        critical: "Apply".into(),
        escalation: None,
    };
    let p = spec.to_policy();
    assert_eq!(p.cosmetic, RemediationAction::Alert);
    assert_eq!(p.functional, RemediationAction::Alert);
    assert_eq!(p.critical, RemediationAction::Alert);
}

fn reference(name: &str) -> ResourceRefCR {
    ResourceRefCR { cluster: "rio".into(), namespace: "lava-system".into(), name: name.into() }
}

#[test]
fn dependency_spec_to_lib_maps_kind_and_addresses() {
    let spec = LavaArchitectureDependencySpec {
        from: reference("app"),
        to: reference("vpc"),
        kind: "Influences".into(),
        require_phase: "Applied".into(),
    };
    let d = spec.to_lib();
    assert_eq!(d.kind, DependencyKind::Influences);
    assert_eq!(d.from.namespace, "lava-system");
    assert_eq!(d.to.name, "vpc");
}

#[test]
fn dependency_spec_defaults_kind_to_blocks_on_for_unknown_kind() {
    let spec = LavaArchitectureDependencySpec {
        from: reference("app"),
        to: reference("vpc"),
        kind: "unrecognized".into(),
        require_phase: "Applied".into(),
    };
    let d = spec.to_lib();
    assert_eq!(d.kind, DependencyKind::BlocksOn);
}

#[test]
fn phase_str_covers_every_variant() {
    for p in [
        Phase::Pending,
        Phase::Synthesized,
        Phase::Planned,
        Phase::Applied,
        Phase::Drifted,
        Phase::Reconverging,
        Phase::Finalizing,
        Phase::Failed,
    ] {
        assert!(!phase_str(p).is_empty(), "{p:?}");
    }
    assert_eq!(phase_str(Phase::Pending), "Pending");
    assert_eq!(phase_str(Phase::Synthesized), "Synthesized");
    assert_eq!(phase_str(Phase::Planned), "Planned");
    assert_eq!(phase_str(Phase::Applied), "Applied");
    assert_eq!(phase_str(Phase::Failed), "Failed");
}

#[test]
fn source_precedence_is_inline_then_name_then_git() {
    let mut s = SourceCR {
        inline: Some("(x)".into()),
        name: Some("n".into()),
        url: Some("u".into()),
        rev: Some("r".into()),
        path: Some("p".into()),
    };
    assert_eq!(s.variant(), Some(Source::Inline { inline: "(x)".into() }));
    s.inline = None;
    assert_eq!(s.variant(), Some(Source::Name { name: "n".into() }));
    s.name = None;
    assert_eq!(
        s.variant(),
        Some(Source::Git { url: "u".into(), rev: "r".into(), path: "p".into() })
    );
    for missing in 0..3 {
        let mut t = s.clone();
        if missing == 0 {
            t.url = None;
        } else if missing == 1 {
            t.rev = None;
        } else {
            t.path = None;
        }
        assert_eq!(t.variant(), None);
    }
    assert_eq!(SourceCR::default().variant(), None);
}

#[test]
fn missing_source_is_an_empty_architecture() {
    let lib = to_lib_spec(&spec_cr(SourceCR::default(), vec![]));
    assert_eq!(
        lib.source,
        Source::Inline { inline: "(deflava-architecture empty :inputs () :resources ())".into() }
    );
}

#[test]
fn ordered_bindings_are_kept() {
    let pairs = vec![
        ("a".to_string(), "1".to_string()),
        ("b".to_string(), "2".to_string()),
        ("bc".to_string(), "3".to_string()),
    ];
    let lib = to_lib_spec(&spec_cr(SourceCR::default(), pairs.clone()));
    let got: Vec<(String, String)> = lib.bindings.into_iter().collect();
    assert_eq!(got, pairs);
}

#[test]
fn name_bound_twice_keeps_its_place_and_takes_the_last_value() {
    let pairs = vec![
        ("a".to_string(), "1".to_string()),
        ("b".to_string(), "2".to_string()),
        ("a".to_string(), "3".to_string()),
    ];
    let lib = to_lib_spec(&spec_cr(SourceCR::default(), pairs));
    let got: Vec<(String, String)> = lib.bindings.into_iter().collect();
    assert_eq!(
        got,
        vec![("a".to_string(), "3".to_string()), ("b".to_string(), "2".to_string())]
    );
}

#[test]
fn every_action_is_read_from_its_name() {
    for a in [
        RemediationAction::NoOp,
        RemediationAction::Alert,
        RemediationAction::AutoCorrect,
        RemediationAction::RequireApproval,
        RemediationAction::Escalate,
    ] {
        let spec = RemediationPolicySpec {
            cosmetic: format!("{a:?}"),
            functional: "noop".into(),
            critical: String::new(),
            escalation: None,
        };
        let p = spec.to_policy();
        assert_eq!(p.cosmetic, a);
        assert_eq!(p.functional, RemediationAction::Alert);
        assert_eq!(p.critical, RemediationAction::Alert);
        assert!(p.escalation.is_none());
    }
}

#[test]
fn defaults_of_the_resource_fields() {
    assert_eq!(default_engine(), "embedded");
    assert_eq!(default_tier_wait(), "PT15M");
    assert_eq!(default_require_phase(), "Applied");
    let status = LavaArchitectureStatusCR::default();
    assert_eq!(status.phase, None);
    assert!(status.conditions.is_empty());
}

#[test]
fn dependency_keeps_its_required_phase() {
    let spec = LavaArchitectureDependencySpec {
        from: reference("app"),
        to: reference("vpc"),
        kind: "BlocksOn".into(),
        require_phase: "Planned".into(),
    };
    let d = spec.to_lib();
    assert_eq!(d.kind, DependencyKind::BlocksOn);
    assert_eq!(d.require_phase, "Planned");
    assert_eq!(d.from.cluster, "rio");
    assert_eq!(d.from.name, "app");
}

#[test]
fn condition_cr_drops_only_the_transition_time() {
    let c = Condition {
        kind: "K".into(),
        status: "Unknown".into(),
        reason: None,
        message: Some("m".into()),
        last_transition_time: Some("t".into()),
    };
    let cr = ConditionCR::from(&c);
    assert_eq!(
        cr,
        ConditionCR {
            kind: "K".into(),
            status: "Unknown".into(),
            reason: None,
            message: Some("m".into()),
        }
    );
}

#[test]
fn tick_inputs_fall_back_to_default_names() {
    let spec = spec_cr(
        SourceCR {
            url: Some("u".into()),
            rev: Some("r".into()),
            path: Some("infra/vpc.tlisp".into()),
            ..Default::default()
        },
        vec![("a".to_string(), "1".to_string())],
    );
    let t = tick_inputs(&spec, None, None, "prod".into());
    assert_eq!(t.address.cluster, "local");
    assert_eq!(t.address.namespace, "default");
    assert_eq!(t.address.name, "prod");
    assert_eq!(t.source_text, "infra/vpc.tlisp");
    assert!(matches!(t.source, Source::Git { .. }));
    assert_eq!(t.bindings["a"], "1");
    let named = tick_inputs(&spec, Some("rio".into()), Some("infra".into()), "prod".into());
    assert_eq!(named.address.cluster, "rio");
    assert_eq!(named.address.namespace, "infra");
}

#[test]
fn planner_that_only_synthesizes_finds_nothing() {
    assert_eq!(plan_of_synthesis(Ok(serde_json::Value::Null)), Ok(vec![]));
    assert_eq!(
        plan_of_synthesis(Err("bad".into())),
        Err(PlannerError::Plan("bad".into()))
    );
}

#[test]
fn tick_hands_the_gate_of_the_resource_to_the_callback() {
    let mut spec = spec_cr(
        SourceCR { name: Some("vpc".into()), ..Default::default() },
        vec![("a".to_string(), "1".to_string())],
    );
    spec.gate = Some("aws-vpc-network".into());
    let t = tick_inputs(&spec, None, None, "prod".into());
    assert_eq!(t.gate.as_deref(), Some("aws-vpc-network"));
    let r = plan_by_synthesis(
        |source, bindings, gate| {
            assert_eq!(source, &Source::Name { name: "vpc".into() });
            assert_eq!(bindings["a"], "1");
            assert_eq!(gate, Some("aws-vpc-network"));
            Err("refused".into())
        },
        &t.source,
        &t.bindings,
        &t.gate,
    );
    assert_eq!(r, Err(PlannerError::Plan("refused".into())));
    spec.gate = None;
    let t = tick_inputs(&spec, None, None, "prod".into());
    let r = plan_by_synthesis(
        |_source, _bindings, gate| {
            assert_eq!(gate, None);
            Ok(serde_json::Value::Null)
        },
        &t.source,
        &t.bindings,
        &t.gate,
    );
    assert_eq!(r, Ok(vec![]));
}

fn report(requeue_after_secs: Option<i64>) -> TickReport {
    TickReport {
        ended_at: "2026-01-02T03:04:05+00:00".into(),
        beats: vec![
            BeatOutcome { beat: Beat::Observe, status: BeatStatus::Succeeded, message: None },
            BeatOutcome {
                beat: Beat::Diff,
                status: BeatStatus::Failed,
                message: Some("plan: bad".into()),
            },
            BeatOutcome { beat: Beat::Classify, status: BeatStatus::Skipped, message: None },
        ],
        final_phase: TickPhase::Failed,
        requeue_after_secs,
    }
}

#[test]
fn tick_status_has_one_condition_for_each_beat() {
    let status = tick_status(&report(None));
    assert_eq!(status.phase.as_deref(), Some("Failed"));
    assert_eq!(status.last_synthesized_hash, None);
    assert_eq!(status.last_applied_at.as_deref(), Some("2026-01-02T03:04:05+00:00"));
    assert_eq!(
        status.conditions,
        vec![
            ConditionCR {
                kind: "Beat.Observe".into(),
                status: "True".into(),
                reason: Some("Ok".into()),
                message: None,
            },
            ConditionCR {
                kind: "Beat.Diff".into(),
                status: "False".into(),
                reason: Some("Failed".into()),
                message: Some("plan: bad".into()),
            },
            ConditionCR {
                kind: "Beat.Classify".into(),
                status: "Unknown".into(),
                reason: Some("Skipped".into()),
                message: None,
            },
        ]
    );
}

#[test]
fn next_tick_waits_at_least_a_second() {
    assert_eq!(requeue_secs(&report(None)), 30);
    assert_eq!(requeue_secs(&report(Some(0))), 1);
    assert_eq!(requeue_secs(&report(Some(-7))), 1);
    assert_eq!(requeue_secs(&report(Some(i64::MIN))), 1);
    assert_eq!(requeue_secs(&report(Some(120))), 120);
    assert_eq!(requeue_secs(&report(Some(i64::MAX))), i64::MAX as u64);
    assert_eq!(error_requeue_secs(), 60);
}
