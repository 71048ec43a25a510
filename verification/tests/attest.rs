use lava_operator::attest::{build_payload, record_phase};
use lava_operator::chain::{ChangeSummary, OutcomeChain, ResourceAddress, Signature};
use lava_operator::hash::ContentHash;
use lava_operator::{Condition, Phase, ReconcileOutcome};

fn sample_outcome() -> ReconcileOutcome {
    ReconcileOutcome {
        phase: Phase::Synthesized,
        conditions: vec![Condition::ok("Synthesized", "RenderOk")],
        terraform_json: Some(
            serde_json::from_str("{ \"resource\": { \"aws_vpc\": { \"main\": {} } } }").unwrap(),
        ),
    }
}

#[test]
fn build_payload_populates_spec_hash_from_source() {
    let p1 = build_payload(
        ResourceAddress::new("c", "n", "x"),
        "source-v1",
        &sample_outcome(),
        Phase::Synthesized,
    );
    let p2 = build_payload(
        ResourceAddress::new("c", "n", "x"),
        "source-v2",
        &sample_outcome(),
        Phase::Synthesized,
    );
    assert_ne!(p1.spec_hash, p2.spec_hash);
}

#[test]
fn build_payload_hashes_terraform_json_when_present() {
    let p = build_payload(
        ResourceAddress::new("c", "n", "x"),
        "src",
        &sample_outcome(),
        Phase::Synthesized,
    );
    assert!(!p.terraform_json_hash.is_genesis());
}

#[test]
fn build_payload_uses_genesis_when_terraform_json_absent() {
    let mut o = sample_outcome();
    o.terraform_json = None;
    let p = build_payload(ResourceAddress::new("c", "n", "x"), "src", &o, Phase::Failed);
    assert!(p.terraform_json_hash.is_genesis());
}

#[test]
fn record_phase_appends_and_chain_verifies() {
    let mut chain = OutcomeChain::new();
    for phase in [Phase::Pending, Phase::Synthesized, Phase::Planned, Phase::Applied] {
        record_phase(
            &mut chain,
            ResourceAddress::new("rio", "infra", "prod"),
            "src",
            &sample_outcome(),
            phase,
        )
        .unwrap();
    }
    let receipts = chain.read_all().unwrap();
    assert_eq!(receipts.len(), 4);
    chain.verify().unwrap();
}

#[test]
fn payload_says_what_the_pass_did() {
    let outcome = ReconcileOutcome {
        phase: Phase::Failed,
        conditions: vec![Condition::ok("A", "Fine"), Condition::fail("B", "bad (very)")],
        terraform_json: Some(serde_json::Value::Null),
    };
    let p = build_payload(ResourceAddress::new("c", "n", "x"), "src", &outcome, Phase::Drifted);
    assert_eq!(p.resource, ResourceAddress::new("c", "n", "x"));
    assert_eq!(p.spec_hash, ContentHash::of(b"src"));
    assert_eq!(p.terraform_json_hash, ContentHash::of(b"null"));
    assert_eq!(p.plan_id, None);
    assert_eq!(p.phase, "Drifted");
    assert_eq!(p.change_summary, ChangeSummary::default());
    assert_eq!(p.diagnostics, vec!["A=True".to_string(), "B=False (bad (very))".to_string()]);
}

#[test]
fn json_digest_is_that_of_the_compact_text() {
    let p = build_payload(
        ResourceAddress::new("c", "n", "x"),
        "src",
        &sample_outcome(),
        Phase::Synthesized,
    );
    assert_eq!(
        p.terraform_json_hash,
        ContentHash::of(b"{\"resource\":{\"aws_vpc\":{\"main\":{}}}}")
    );
}

#[test]
fn receipts_are_numbered_linked_and_read_back() {
    let mut chain = OutcomeChain::new();
    assert_eq!(chain.read_all().unwrap(), vec![]);
    chain.verify().unwrap();
    let address = ResourceAddress::new("rio", "infra", "prod");
    let mut written = Vec::new();
    for phase in [Phase::Pending, Phase::Drifted, Phase::Failed] {
        written.push(
            record_phase(&mut chain, address.clone(), "src", &sample_outcome(), phase).unwrap(),
        );
    }
    assert_eq!(chain.read_all().unwrap(), written);
    for i in 0..3 {
        assert_eq!(written[i].sequence, i as u64);
        if i == 0 {
            assert!(written[i].prev_hash.is_genesis());
        } else {
            assert_eq!(written[i].prev_hash, written[i - 1].content_hash);
        }
        assert_eq!(written[i].payload.resource, address);
        assert_eq!(written[i].payload.diagnostics, vec!["Synthesized=True".to_string()]);
    }
    assert_eq!(written[1].payload.phase, "Drifted");
    assert_ne!(written[0].content_hash, written[1].content_hash);
}

#[test]
fn appended_payload_is_read_back_whole() {
    let mut chain = OutcomeChain::new();
    let mut payload = build_payload(
        ResourceAddress::new("a", "b", "c"),
        "src",
        &sample_outcome(),
        Phase::Planned,
    );
    payload.plan_id = Some("plan-1".into());
    payload.change_summary = ChangeSummary { create: 1, update: 2, delete: 3, no_op: 4 };
    let receipt = chain.append(payload.clone()).unwrap();
    assert_eq!(receipt.payload, payload);
    let read = chain.read_all().unwrap();
    assert_eq!(read[0].payload, payload);
    assert_eq!(read[0].timestamp, receipt.timestamp);
    assert_eq!(read[0].kind, "lava.outcome");
    assert_eq!(read[0].signature, Signature::Unsigned);
    assert_eq!(read[0].clone(), receipt);
}

#[test]
fn chain_is_sound_exactly_where_its_times_do_not_run_back() {
    let mut chain = OutcomeChain::new();
    assert!(chain.verify().is_ok());
    for _ in 0..5 {
        let payload = build_payload(
            ResourceAddress::new("a", "b", "c"),
            "src",
            &sample_outcome(),
            Phase::Applied,
        );
        chain.append(payload).unwrap();
        let times: Vec<(i64, u32)> =
            chain.read_all().unwrap().iter().map(|r| r.timestamp).collect();
        assert!(times.iter().all(|t| t.0 > 0 && t.1 < 2_000_000_000));
        assert_eq!(chain.verify().is_ok(), times.windows(2).all(|w| w[0] <= w[1]));
    }
}
