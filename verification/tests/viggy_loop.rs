use std::sync::{Arc, Mutex};
use std::time::{Duration, UNIX_EPOCH};

use indexmap::IndexMap;
use lava_operator::chain::{AppendError, ChangeSummary, OutcomeChain, ResourceAddress};
use lava_operator::drift::{
    ChangeKind, DriftDetector, DriftFinding, PlannerBackend, PlannerError, Severity,
};
use lava_operator::hash::ContentHash;
use lava_operator::viggy_loop::{
    attested, change_summary_from_report, diagnostics_from_report, tick_phase_to_payload_phase, Beat,
    BeatOutcome, BeatStatus, LavaPromessaController, ObservedContext, TickPhase, TickReport,
    ViggyError,
};

struct MockPlanner {
    findings: Vec<DriftFinding>,
}

impl PlannerBackend for MockPlanner {
    fn plan(
        &self,
        _spec_source: &str,
        _bindings: &IndexMap<String, String>,
    ) -> Result<Vec<DriftFinding>, PlannerError> {
        Ok(self.findings.clone())
    }
}

struct Broken;

impl PlannerBackend for Broken {
    fn plan(
        &self,
        spec_source: &str,
        _bindings: &IndexMap<String, String>,
    ) -> Result<Vec<DriftFinding>, PlannerError> {
        Err(PlannerError::Backend(spec_source.to_string()))
    }
}

/// Drives the library's beats from the engine of the `lava_viggy` crate.
struct Driven<B: PlannerBackend> {
    controller: LavaPromessaController<B>,
    chain: Arc<Mutex<OutcomeChain>>,
}

fn lava_error(e: ViggyError) -> lava_viggy::ViggyError {
    match e {
        ViggyError::Observe(m) => lava_viggy::ViggyError::Observe(m),
        ViggyError::Diff(m) => lava_viggy::ViggyError::Diff(m),
        ViggyError::Decide(m) => lava_viggy::ViggyError::Decide(m),
        ViggyError::Act(m) => lava_viggy::ViggyError::Act(m),
        ViggyError::Attest(m) => lava_viggy::ViggyError::Attest(m),
    }
}

fn lava_severity(s: Severity) -> lava_drift::Severity {
    match s {
        Severity::Cosmetic => lava_drift::Severity::Cosmetic,
        Severity::Functional => lava_drift::Severity::Functional,
        Severity::Critical => lava_drift::Severity::Critical,
    }
}

fn own_report(r: &lava_viggy::TickReport) -> TickReport {
    TickReport {
        ended_at: r.ended_at.to_rfc3339(),
        beats: r
            .beats
            .iter()
            .map(|b| BeatOutcome {
                beat: match b.beat {
                    lava_viggy::Beat::Observe => Beat::Observe,
                    lava_viggy::Beat::Diff => Beat::Diff,
                    lava_viggy::Beat::Classify => Beat::Classify,
                    lava_viggy::Beat::Decide => Beat::Decide,
                    lava_viggy::Beat::Act => Beat::Act,
                    lava_viggy::Beat::Attest => Beat::Attest,
                    lava_viggy::Beat::Tick => Beat::Tick,
                },
                status: match b.status {
                    lava_viggy::BeatStatus::Ok => BeatStatus::Succeeded,
                    lava_viggy::BeatStatus::Skipped => BeatStatus::Skipped,
                    lava_viggy::BeatStatus::Failed => BeatStatus::Failed,
                },
                message: b.message.clone(),
            })
            .collect(),
        final_phase: match r.final_phase {
            lava_viggy::TickPhase::Stable => TickPhase::Stable,
            lava_viggy::TickPhase::Reconverging => TickPhase::Reconverging,
            lava_viggy::TickPhase::HoldingForApproval => TickPhase::HoldingForApproval,
            lava_viggy::TickPhase::Escalated => TickPhase::Escalated,
            lava_viggy::TickPhase::Failed => TickPhase::Failed,
        },
        requeue_after_secs: r.decision.as_ref().map(|d| d.requeue_after.num_seconds()),
    }
}

impl<B: PlannerBackend> lava_viggy::PromessaController for Driven<B> {
    type Context = ObservedContext;

    fn observe(
        &self,
        source: &lava_outcome_chain::ResourceAddress,
        bindings: &IndexMap<String, String>,
    ) -> Result<ObservedContext, lava_viggy::ViggyError> {
        let source = ResourceAddress::new(&source.cluster, &source.namespace, &source.name);
        self.controller.observe(&source, bindings).map_err(lava_error)
    }

    fn diff(
        &self,
        ctx: &ObservedContext,
        bindings: &IndexMap<String, String>,
    ) -> Result<lava_drift::DriftReport, lava_viggy::ViggyError> {
        let r = self.controller.diff(ctx, bindings).map_err(lava_error)?;
        Ok(lava_drift::DriftReport {
            spec_hash: lava_outcome_chain::ContentHash(r.spec_hash.0),
            scanned_at: (UNIX_EPOCH
                + Duration::new(r.scanned_at.0.try_into().unwrap(), r.scanned_at.1))
            .into(),
            drifted_fields: r
                .drifted_fields
                .into_iter()
                .map(|f| {
                    lava_drift::DriftedField::new(f.address, f.attribute, lava_severity(f.severity))
                        .with_values(f.observed, f.declared)
                })
                .collect(),
            max_severity: r.max_severity.map(lava_severity),
        })
    }

    fn attest(&self, report: &lava_viggy::TickReport) -> Result<(), lava_viggy::ViggyError> {
        let mut chain = self.chain.lock().unwrap();
        self.controller.attest(&mut chain, &own_report(report)).map_err(lava_error)
    }
}

fn finding(kind: ChangeKind, attr: &str) -> DriftFinding {
    DriftFinding {
        address: "aws_vpc.main".into(),
        attribute: attr.into(),
        change: kind,
        observed: None,
        declared: None,
    }
}

fn promessa<B: PlannerBackend>(backend: B) -> LavaPromessaController<B> {
    LavaPromessaController {
        source_text: "(deflava-architecture demo :inputs () :resources ())".into(),
        source_address: ResourceAddress::new("rio", "lava-system", "demo"),
        detector: DriftDetector::new(backend),
    }
}

fn controller_with(findings: Vec<DriftFinding>) -> Driven<MockPlanner> {
    Driven {
        controller: promessa(MockPlanner { findings }),
        chain: Arc::new(Mutex::new(OutcomeChain::new())),
    }
}

fn engine<B: PlannerBackend>(
    controller: Driven<B>,
) -> lava_viggy::ViggyEngine<Driven<B>, lava_anomaly::PolicyRouter> {
    lava_viggy::ViggyEngine::new(
        controller,
        lava_anomaly::PolicyRouter,
        lava_anomaly::RemediationPolicy::default(),
    )
}

fn demo_address() -> lava_outcome_chain::ResourceAddress {
    lava_outcome_chain::ResourceAddress::new("rio", "lava-system", "demo")
}

#[test]
fn clean_tick_lands_stable_and_appends_one_receipt() {
    let controller = controller_with(vec![]);
    let chain_handle = controller.chain.clone();
    let engine = engine(controller);
    let report = engine.tick(demo_address(), IndexMap::new());
    assert_eq!(report.final_phase, lava_viggy::TickPhase::Stable);
    let chain = chain_handle.lock().unwrap();
    let receipts = chain.read_all().unwrap();
    assert_eq!(receipts.len(), 1);
    assert_eq!(receipts[0].payload.phase, "Applied");
}

#[test]
fn functional_drift_tick_lands_reconverging_and_chain_records_it() {
    let controller = controller_with(vec![finding(ChangeKind::Update, "cidr_block")]);
    let chain_handle = controller.chain.clone();
    let engine = engine(controller);
    let report = engine.tick(demo_address(), IndexMap::new());
    assert_eq!(report.final_phase, lava_viggy::TickPhase::Reconverging);
    let chain = chain_handle.lock().unwrap();
    let receipts = chain.read_all().unwrap();
    assert_eq!(receipts.len(), 1);
    assert_eq!(receipts[0].payload.phase, "Reconverging");
    assert_eq!(receipts[0].payload.change_summary.update, 1);
}

#[test]
fn critical_drift_tick_lands_drifted_and_records_holding_diagnostic() {
    let controller = controller_with(vec![finding(ChangeKind::Delete, "*")]);
    let chain_handle = controller.chain.clone();
    let engine = engine(controller);
    let report = engine.tick(demo_address(), IndexMap::new());
    assert_eq!(report.final_phase, lava_viggy::TickPhase::HoldingForApproval);
    let chain = chain_handle.lock().unwrap();
    let receipts = chain.read_all().unwrap();
    assert_eq!(receipts[0].payload.phase, "Drifted");
    assert!(
        receipts[0].payload.diagnostics.iter().any(|d| d.starts_with("Decide=Ok")),
        "expected Decide=Ok in diagnostics; got: {:?}",
        receipts[0].payload.diagnostics
    );
}

#[test]
fn three_ticks_produce_a_blake3_linked_chain_that_verifies() {
    let controller = controller_with(vec![]);
    let chain_handle = controller.chain.clone();
    let engine = engine(controller);
    for _ in 0..3 {
        engine.tick(demo_address(), IndexMap::new());
    }
    let chain = chain_handle.lock().unwrap();
    let receipts = chain.read_all().unwrap();
    assert_eq!(receipts.len(), 3);
    chain.verify().unwrap();
    assert_eq!(receipts[1].prev_hash, receipts[0].content_hash);
    assert_eq!(receipts[2].prev_hash, receipts[1].content_hash);
}

#[test]
fn observe_failure_short_circuits_but_still_attempts_attest() {
    let controller = controller_with(vec![]);
    let chain_handle = controller.chain.clone();
    let engine = engine(controller);
    let _ = engine.tick(demo_address(), IndexMap::new());
    let chain = chain_handle.lock().unwrap();
    assert_eq!(chain.read_all().unwrap().len(), 1);
}

#[test]
fn planner_error_fails_the_tick_without_a_receipt() {
    let controller =
        Driven { controller: promessa(Broken), chain: Arc::new(Mutex::new(OutcomeChain::new())) };
    let chain_handle = controller.chain.clone();
    let report = engine(controller).tick(demo_address(), IndexMap::new());
    assert_eq!(report.final_phase, lava_viggy::TickPhase::Failed);
    assert_eq!(
        report.beats[1].message.as_deref(),
        Some("diff: backend: (deflava-architecture demo :inputs () :resources ())")
    );
    assert!(chain_handle.lock().unwrap().read_all().unwrap().is_empty());
}

#[test]
fn receipt_of_a_tick_says_what_the_beats_did() {
    let controller = controller_with(vec![finding(ChangeKind::Update, "cidr_block")]);
    let chain_handle = controller.chain.clone();
    engine(controller).tick(demo_address(), IndexMap::new());
    let receipts = chain_handle.lock().unwrap().read_all().unwrap();
    let p = &receipts[0].payload;
    assert_eq!(p.resource, ResourceAddress::new("rio", "lava-system", "demo"));
    assert_eq!(
        p.spec_hash,
        ContentHash::of(b"(deflava-architecture demo :inputs () :resources ())")
    );
    assert!(p.terraform_json_hash.is_genesis());
    assert_eq!(p.plan_id, None);
    assert_eq!(
        p.diagnostics,
        vec![
            "Observe=Ok".to_string(),
            "Diff=Ok (1 drifted field(s))".to_string(),
            "Classify=Ok (functional)".to_string(),
            "Decide=Ok (AutoCorrect)".to_string(),
            "Act=Ok (auto-correct enqueued)".to_string(),
        ]
    );
}

#[test]
fn names_are_those_of_the_engine() {
    for (own, lava) in [
        (TickPhase::Stable, lava_viggy::TickPhase::Stable),
        (TickPhase::Reconverging, lava_viggy::TickPhase::Reconverging),
        (TickPhase::HoldingForApproval, lava_viggy::TickPhase::HoldingForApproval),
        (TickPhase::Escalated, lava_viggy::TickPhase::Escalated),
        (TickPhase::Failed, lava_viggy::TickPhase::Failed),
    ] {
        assert_eq!(own.as_str(), lava.as_str());
    }
    let own = [
        Beat::Observe,
        Beat::Diff,
        Beat::Classify,
        Beat::Decide,
        Beat::Act,
        Beat::Attest,
        Beat::Tick,
    ];
    for (own, lava) in own.iter().zip(lava_viggy::Beat::canonical_order().iter()) {
        assert_eq!(own.as_str(), lava.as_str());
    }
    assert_eq!(BeatStatus::Succeeded.as_str(), format!("{:?}", lava_viggy::BeatStatus::Ok));
    assert_eq!(BeatStatus::Skipped.as_str(), format!("{:?}", lava_viggy::BeatStatus::Skipped));
    assert_eq!(BeatStatus::Failed.as_str(), format!("{:?}", lava_viggy::BeatStatus::Failed));
}

#[test]
fn tick_phases_become_resource_phases() {
    assert_eq!(tick_phase_to_payload_phase(TickPhase::Stable), "Applied");
    assert_eq!(tick_phase_to_payload_phase(TickPhase::Reconverging), "Reconverging");
    assert_eq!(tick_phase_to_payload_phase(TickPhase::HoldingForApproval), "Drifted");
    assert_eq!(tick_phase_to_payload_phase(TickPhase::Escalated), "Drifted");
    assert_eq!(tick_phase_to_payload_phase(TickPhase::Failed), "Failed");
}

fn report(beats: Vec<(Beat, BeatStatus, Option<&str>)>) -> TickReport {
    TickReport {
        ended_at: String::new(),
        beats: beats
            .into_iter()
            .map(|(beat, status, message)| BeatOutcome {
                beat,
                status,
                message: message.map(|m| m.to_string()),
            })
            .collect(),
        final_phase: TickPhase::Stable,
        requeue_after_secs: None,
    }
}

#[test]
fn updates_are_what_the_first_diff_beat_counts() {
    let count = |beats| change_summary_from_report(&report(beats));
    assert_eq!(count(vec![]), ChangeSummary::default());
    assert_eq!(
        count(vec![
            (Beat::Observe, BeatStatus::Succeeded, Some("9 x")),
            (Beat::Diff, BeatStatus::Succeeded, Some("17 drifted field(s)")),
            (Beat::Diff, BeatStatus::Succeeded, Some("5 drifted field(s)")),
        ]),
        ChangeSummary { create: 0, update: 17, delete: 0, no_op: 0 }
    );
    assert_eq!(
        count(vec![
            (Beat::Diff, BeatStatus::Failed, Some("plan: bad")),
            (Beat::Diff, BeatStatus::Succeeded, Some("5 drifted field(s)")),
        ]),
        ChangeSummary::default()
    );
    assert_eq!(
        count(vec![(Beat::Diff, BeatStatus::Skipped, None)]),
        ChangeSummary::default()
    );
    assert_eq!(
        count(vec![(Beat::Diff, BeatStatus::Succeeded, Some("4294967296 drifted field(s)"))]),
        ChangeSummary::default()
    );
}

#[test]
fn diagnostics_have_one_line_for_each_beat() {
    assert_eq!(
        diagnostics_from_report(&report(vec![
            (Beat::Observe, BeatStatus::Succeeded, None),
            (Beat::Diff, BeatStatus::Failed, Some("m")),
            (Beat::Tick, BeatStatus::Skipped, Some("")),
        ])),
        vec!["Observe=Ok".to_string(), "Diff=Failed (m)".to_string(), "Tick=Skipped ()".to_string()]
    );
}

#[test]
fn spec_hash_is_the_same_everywhere() {
    let c = promessa(MockPlanner { findings: vec![finding(ChangeKind::Update, "tags.A")] });
    let ctx = c.observe(&c.source_address, &IndexMap::new()).unwrap();
    let drift = c.diff(&ctx, &IndexMap::new()).unwrap();
    let tick = c.payload_of(&report(vec![]));
    let transition = lava_operator::attest::build_payload(
        c.source_address.clone(),
        &c.source_text,
        &lava_operator::reconcile::outcome_of_synthesis(Err("m".into())),
        lava_operator::Phase::Failed,
    );
    assert_eq!(drift.spec_hash, ContentHash::of(c.source_text.as_bytes()));
    assert_eq!(tick.spec_hash, drift.spec_hash);
    assert_eq!(transition.spec_hash, drift.spec_hash);
}

#[test]
fn ticks_and_transitions_share_one_chain() {
    let c = promessa(MockPlanner { findings: vec![] });
    let mut chain = OutcomeChain::new();
    c.attest(&mut chain, &report(vec![])).unwrap();
    lava_operator::attest::record_phase(
        &mut chain,
        c.source_address.clone(),
        &c.source_text,
        &lava_operator::reconcile::outcome_of_synthesis(Err("m".into())),
        lava_operator::Phase::Failed,
    )
    .unwrap();
    c.attest(&mut chain, &report(vec![(Beat::Tick, BeatStatus::Succeeded, None)])).unwrap();
    chain.verify().unwrap();
    let receipts = chain.read_all().unwrap();
    let phases: Vec<&str> = receipts.iter().map(|r| r.payload.phase.as_str()).collect();
    assert_eq!(phases, vec!["Applied", "Failed", "Applied"]);
    let numbers: Vec<u64> = receipts.iter().map(|r| r.sequence).collect();
    assert_eq!(numbers, vec![0, 1, 2]);
    assert_eq!(receipts[2].prev_hash, receipts[1].content_hash);
}

#[test]
fn poisoned_lock_fails_the_beat_and_appends_nothing() {
    let c = promessa(MockPlanner { findings: vec![] });
    let mut chain = OutcomeChain::new();
    assert_eq!(c.attest_locked(Ok(&mut chain), &report(vec![])), Ok(()));
    assert_eq!(
        c.attest_locked(Err("poisoned lock: another task failed inside".into()), &report(vec![])),
        Err(ViggyError::Attest(
            "chain mutex poisoned: poisoned lock: another task failed inside".into()
        ))
    );
    assert_eq!(chain.read_all().unwrap().len(), 1);
}

#[test]
fn failed_append_fails_the_beat_with_its_message() {
    assert_eq!(
        attested(Err(AppendError { message: "sink: full".into() })),
        Err(ViggyError::Attest("sink: full".into()))
    );
}

#[test]
fn observe_hashes_the_source_text() {
    let c = promessa(MockPlanner { findings: vec![] });
    let ctx = c.observe(&ResourceAddress::new("a", "b", "c"), &IndexMap::new()).unwrap();
    assert_eq!(ctx.spec_hash, ContentHash::of(c.source_text.as_bytes()));
    let drift = c.diff(&ctx, &IndexMap::new()).unwrap();
    assert_eq!(drift.spec_hash, ctx.spec_hash);
}
