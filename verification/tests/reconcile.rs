use indexmap::IndexMap;
use lava_operator::reconcile::outcome_of_synthesis;
use lava_operator::{
    crd_yaml, reconcile, Condition, LavaArchitecture, LavaArchitectureSpec, LavaArchitectureStatus,
    ObjectMeta, Phase, ReconcileError, ReconcileOutcome, Source,
};

fn sample_spec() -> LavaArchitectureSpec {
    LavaArchitectureSpec {
        source: Source::Inline {
            inline: "(deflava-architecture demo :inputs () :resources ())".into(),
        },
        bindings: IndexMap::new(),
        gate: None,
        engine: "embedded".into(),
    }
}

fn json(text: &str) -> serde_json::Value {
    serde_json::from_str(text).unwrap()
}

#[test]
fn reconcile_drives_to_synthesized_when_synthesize_callback_succeeds() {
    let outcome = reconcile(&sample_spec(), |_src, _b, _g| Ok(json("{\"resource\": {}}"))).unwrap();
    assert_eq!(outcome.phase, Phase::Synthesized);
    assert_eq!(outcome.conditions[0].status, "True");
    assert!(outcome.terraform_json.is_some());
}

#[test]
fn reconcile_drives_to_failed_when_synthesize_callback_errors() {
    let outcome = reconcile(&sample_spec(), |_src, _b, _g| {
        Err("render failed: bad input".to_string())
    })
    .unwrap();
    assert_eq!(outcome.phase, Phase::Failed);
    assert_eq!(outcome.conditions[0].status, "False");
    assert!(outcome.terraform_json.is_none());
}

#[test]
fn condition_ok_and_fail_constructors_set_status_correctly() {
    let ok = Condition::ok("Synthesized", "RenderOk");
    assert_eq!(ok.status, "True");
    assert_eq!(ok.reason.as_deref(), Some("RenderOk"));
    let fail = Condition::fail("Applied", "tofu apply exited non-zero");
    assert_eq!(fail.status, "False");
    assert_eq!(fail.message.as_deref(), Some("tofu apply exited non-zero"));
}

#[test]
fn crd_yaml_emits_valid_two_doc_apiextensions_yaml() {
    let yaml = crd_yaml();
    assert!(yaml.contains("apiVersion: apiextensions.k8s.io/v1"));
    assert!(yaml.contains("kind: CustomResourceDefinition"));
    assert!(yaml.contains("name: lavaarchitectures.lava.pleme.io"));
    assert!(yaml.contains("group: lava.pleme.io"));
    assert!(yaml.contains("v1alpha1"));
}

#[test]
fn manifest_is_written_entry_by_entry() {
    assert_eq!(
        crd_yaml(),
        "apiVersion: apiextensions.k8s.io/v1\n\
         kind: CustomResourceDefinition\n\
         metadata:\n  name: lavaarchitectures.lava.pleme.io\n\
         spec:\n  group: lava.pleme.io\n  scope: Namespaced\n  names:\n    \
         kind: LavaArchitecture\n    listKind: LavaArchitectureList\n    \
         plural: lavaarchitectures\n    singular: lavaarchitecture\n  versions:\n  \
         - name: v1alpha1\n    served: true\n    storage: true\n"
    );
}

#[test]
fn manifest_value_holds_the_tree() {
    let v = lava_operator::crd::crd_value();
    assert_eq!(v["spec"]["names"]["kind"].as_str(), Some("LavaArchitecture"));
    assert_eq!(v["spec"]["versions"][0]["served"].as_bool(), Some(true));
    assert_eq!(v["spec"]["versions"].as_sequence().map(|s| s.len()), Some(1));
    assert_eq!(v.as_mapping().map(|m| m.len()), Some(4));
}

#[test]
fn callback_gets_source_bindings_and_gate() {
    let mut spec = sample_spec();
    spec.bindings.insert("cidr".into(), "10.0.0.0/16".into());
    spec.gate = Some("aws-vpc-network".into());
    let outcome = reconcile(&spec, |src, b, gate| {
        assert!(matches!(src, Source::Inline { .. }));
        assert_eq!(b["cidr"], "10.0.0.0/16");
        assert_eq!(gate, Some("aws-vpc-network"));
        Ok(serde_json::Value::Bool(true))
    })
    .unwrap();
    assert_eq!(outcome.terraform_json, Some(serde_json::Value::Bool(true)));
    let without = reconcile(&sample_spec(), |_src, _b, gate| {
        assert_eq!(gate, None);
        Err(String::new())
    });
    assert!(without.is_ok());
}

#[test]
fn outcome_follows_synthesis() {
    let failed = outcome_of_synthesis(Err("boom".into()));
    assert_eq!(failed.conditions, vec![Condition::fail("Synthesized", "boom")]);
    let done = outcome_of_synthesis(Ok(serde_json::Value::Null));
    assert_eq!(done.conditions, vec![Condition::ok("Synthesized", "RenderOk")]);
    assert_eq!(done.terraform_json, Some(serde_json::Value::Null));
}

#[test]
fn reconcile_error_messages() {
    assert_eq!(ReconcileError::Synthesize("a".into()).message(), "synthesize: a");
    assert_eq!(ReconcileError::Apply("b".into()).message(), "apply: b");
}

#[test]
fn clones_hold_the_same() {
    let mut spec = sample_spec();
    spec.bindings.insert("b".into(), "2".into());
    spec.bindings.insert("a".into(), "1".into());
    spec.gate = Some("g".into());
    let mut labels = IndexMap::new();
    labels.insert("app".to_string(), "vpc".to_string());
    let la = LavaArchitecture {
        api_version: "lava.pleme.io/v1alpha1".into(),
        kind: "LavaArchitecture".into(),
        metadata: ObjectMeta { name: "prod".into(), namespace: Some("infra".into()), labels },
        spec,
        status: LavaArchitectureStatus {
            phase: Some(Phase::Applied),
            conditions: vec![Condition::ok("A", "B"), Condition::fail("C", "D")],
            last_synthesized_hash: Some("h".into()),
            last_applied_at: None,
        },
    };
    let copy = la.clone();
    assert_eq!(copy, la);
    let keys: Vec<&String> = copy.spec.bindings.keys().collect();
    assert_eq!(keys, vec!["b", "a"]);
    let outcome = ReconcileOutcome {
        phase: Phase::Planned,
        conditions: vec![Condition::ok("A", "B")],
        terraform_json: Some(json("{\"a\": [1, null, \"x\"]}")),
    };
    assert_eq!(outcome.clone(), outcome);
}

#[test]
fn new_status_is_empty() {
    let status = LavaArchitectureStatus::default();
    assert_eq!(status.phase, None);
    assert!(status.conditions.is_empty());
    assert_eq!(status.last_synthesized_hash, None);
    assert_eq!(status.last_applied_at, None);
    assert_eq!(lava_operator::architecture::default_engine(), "embedded");
}

#[test]
fn phase_names_are_distinct() {
    let all = [
        Phase::Pending,
        Phase::Synthesized,
        Phase::Planned,
        Phase::Applied,
        Phase::Drifted,
        Phase::Reconverging,
        Phase::Finalizing,
        Phase::Failed,
    ];
    for p in all {
        assert_eq!(p.as_str(), format!("{p:?}"));
        for q in all {
            assert_eq!(p.as_str() == q.as_str(), p == q);
        }
    }
}
