use indexmap::IndexMap;
use lava_operator::drift::{
    report_on_findings, scan_for_drift, source_text, ChangeKind, DriftDetector, DriftFinding,
    DriftScanOutcome, PlannerBackend, PlannerError, RemediationHint, Severity,
};
use lava_operator::hash::ContentHash;
use lava_operator::{Condition, Phase, Source};

struct MockPlanner {
    findings: Vec<DriftFinding>,
}

impl MockPlanner {
    fn new(findings: Vec<DriftFinding>) -> Self {
        Self { findings }
    }
    fn empty() -> Self {
        Self { findings: vec![] }
    }
}

impl PlannerBackend for MockPlanner {
    fn plan(
        &self,
        _spec_source: &str,
        _bindings: &IndexMap<String, String>,
    ) -> Result<Vec<DriftFinding>, PlannerError> {
        Ok(self.findings.clone())
    }
}

fn finding(kind: ChangeKind, attr: &str) -> DriftFinding {
    DriftFinding {
        address: "aws_vpc.main".into(),
        attribute: attr.into(),
        change: kind,
        observed: Some("a".into()),
        declared: Some("b".into()),
    }
}

#[test]
fn empty_report_recommends_applied_and_none_hint() {
    let detector = DriftDetector::new(MockPlanner::empty());
    let outcome = scan_for_drift(
        &detector,
        &Source::Inline { inline: "src".into() },
        &IndexMap::new(),
    )
    .unwrap();
    assert_eq!(outcome.recommended_phase, Phase::Applied);
    assert_eq!(outcome.remediation_hint, RemediationHint::NoDrift);
}

#[test]
fn cosmetic_drift_recommends_drifted_and_record() {
    let detector =
        DriftDetector::new(MockPlanner::new(vec![finding(ChangeKind::Update, "tags.Owner")]));
    let outcome = scan_for_drift(
        &detector,
        &Source::Inline { inline: "src".into() },
        &IndexMap::new(),
    )
    .unwrap();
    assert_eq!(outcome.recommended_phase, Phase::Drifted);
    assert_eq!(outcome.remediation_hint, RemediationHint::Record);
}

#[test]
fn functional_drift_recommends_reconverging_and_autocorrect() {
    let detector =
        DriftDetector::new(MockPlanner::new(vec![finding(ChangeKind::Update, "cidr_block")]));
    let outcome = scan_for_drift(
        &detector,
        &Source::Inline { inline: "src".into() },
        &IndexMap::new(),
    )
    .unwrap();
    assert_eq!(outcome.recommended_phase, Phase::Reconverging);
    assert_eq!(outcome.remediation_hint, RemediationHint::AutoCorrect);
}

#[test]
fn critical_drift_recommends_drifted_and_hold_for_policy() {
    let detector = DriftDetector::new(MockPlanner::new(vec![finding(ChangeKind::Delete, "*")]));
    let outcome = scan_for_drift(
        &detector,
        &Source::Inline { inline: "src".into() },
        &IndexMap::new(),
    )
    .unwrap();
    assert_eq!(outcome.recommended_phase, Phase::Drifted);
    assert_eq!(outcome.remediation_hint, RemediationHint::HoldForPolicy);
}

#[test]
fn outcome_projects_to_reconcile_outcome() {
    let detector = DriftDetector::new(MockPlanner::new(vec![finding(ChangeKind::Delete, "*")]));
    let outcome = scan_for_drift(
        &detector,
        &Source::Inline { inline: "src".into() },
        &IndexMap::new(),
    )
    .unwrap();
    let recon = outcome.to_reconcile_outcome();
    assert_eq!(recon.phase, Phase::Drifted);
    assert_eq!(recon.conditions.len(), 1);
    assert_eq!(recon.conditions[0].status, "False"); // critical → fail-condition
}

fn scan(findings: Vec<DriftFinding>) -> DriftScanOutcome {
    let detector = DriftDetector::new(MockPlanner::new(findings));
    scan_for_drift(&detector, &Source::Inline { inline: "src".into() }, &IndexMap::new()).unwrap()
}

#[test]
fn conditions_name_severity_and_count() {
    let clean = scan(vec![]).to_reconcile_outcome();
    assert_eq!(clean.conditions, vec![Condition::ok("Drift", "Clean")]);
    assert_eq!(clean.terraform_json, None);
    let cosmetic = scan(vec![
        finding(ChangeKind::Update, "tags.A"),
        finding(ChangeKind::Update, "tags.B"),
    ]);
    assert_eq!(
        cosmetic.to_reconcile_outcome().conditions,
        vec![Condition::ok("Drift", "Cosmetic (2 fields)")]
    );
    let functional = scan(vec![finding(ChangeKind::Create, "*")]);
    assert_eq!(
        functional.to_reconcile_outcome().conditions,
        vec![Condition::ok("Drift", "Functional (1 fields) — reconverging")]
    );
    let many: Vec<DriftFinding> = (0..12).map(|_| finding(ChangeKind::Replace, "x")).collect();
    assert_eq!(
        scan(many).to_reconcile_outcome().conditions,
        vec![Condition::fail("Drift", "Critical (12 fields) — awaiting RemediationPolicy")]
    );
}

#[test]
fn findings_without_change_are_dropped() {
    let outcome = scan(vec![
        finding(ChangeKind::NoOp, "a"),
        finding(ChangeKind::Update, "b"),
        finding(ChangeKind::NoOp, "c"),
    ]);
    assert_eq!(outcome.report.count(), 1);
    assert_eq!(outcome.report.drifted_fields[0].attribute, "b");
    assert_eq!(outcome.report.drifted_fields[0].observed.as_deref(), Some("a"));
    assert_eq!(outcome.report.drifted_fields[0].declared.as_deref(), Some("b"));
    assert_eq!(scan(vec![finding(ChangeKind::NoOp, "a")]).recommended_phase, Phase::Applied);
}

#[test]
fn worst_field_decides() {
    let outcome = scan(vec![
        finding(ChangeKind::Update, "tags.A"),
        finding(ChangeKind::Delete, "*"),
        finding(ChangeKind::Create, "*"),
    ]);
    let severities: Vec<Severity> =
        outcome.report.drifted_fields.iter().map(|f| f.severity).collect();
    assert_eq!(severities, vec![Severity::Cosmetic, Severity::Critical, Severity::Functional]);
    assert_eq!(outcome.report.max_severity, Some(Severity::Critical));
}

#[test]
fn cosmetic_prefixes_can_be_replaced() {
    let findings = vec![
        finding(ChangeKind::Update, "tags.A"),
        finding(ChangeKind::Update, "labels.B"),
        finding(ChangeKind::Delete, "labels.C"),
    ];
    let prefixes = vec!["annotations.".to_string(), "labels.".to_string()];
    let report = report_on_findings(&findings, &prefixes, "src").unwrap();
    let severities: Vec<Severity> = report.drifted_fields.iter().map(|f| f.severity).collect();
    assert_eq!(severities, vec![Severity::Functional, Severity::Cosmetic, Severity::Critical]);
    let detector = DriftDetector::new(MockPlanner::new(findings)).with_cosmetic_prefixes(vec![]);
    let report = detector.scan("src", &IndexMap::new()).unwrap();
    assert_eq!(report.drifted_fields[0].severity, Severity::Functional);
    assert_eq!(
        DriftDetector::new(MockPlanner::empty()).cosmetic_attribute_prefixes,
        vec!["tags.".to_string()]
    );
}

#[test]
fn report_hashes_the_source_text() {
    let report = report_on_findings(&vec![], &vec![], "src").unwrap();
    assert_eq!(report.spec_hash, ContentHash::of(b"src"));
    assert_eq!(report.max_severity, None);
    assert!(report.scanned_at.0 > 0);
    assert!(report.scanned_at.1 < 2_000_000_000);
    assert_eq!(report.clone(), report);
}

#[test]
fn source_text_is_text_name_or_path() {
    assert_eq!(source_text(&Source::Inline { inline: "(x)".into() }), "(x)");
    assert_eq!(source_text(&Source::Name { name: "vpc".into() }), "vpc");
    assert_eq!(
        source_text(&Source::Git { url: "u".into(), rev: "r".into(), path: "p".into() }),
        "p"
    );
}

struct Echo;

impl PlannerBackend for Echo {
    fn plan(
        &self,
        spec_source: &str,
        bindings: &IndexMap<String, String>,
    ) -> Result<Vec<DriftFinding>, PlannerError> {
        if bindings.is_empty() {
            Err(PlannerError::Synthesize(spec_source.to_string()))
        } else {
            Ok(vec![finding(ChangeKind::Update, &bindings[0])])
        }
    }
}

#[test]
fn planner_gets_source_and_bindings_and_its_error_is_passed_on() {
    let detector = DriftDetector::new(Echo);
    let source = Source::Name { name: "vpc".into() };
    let mut bindings = IndexMap::new();
    assert_eq!(
        scan_for_drift(&detector, &source, &bindings),
        Err(PlannerError::Synthesize("vpc".into()))
    );
    bindings.insert("k".to_string(), "cidr_block".to_string());
    let outcome = scan_for_drift(&detector, &source, &bindings).unwrap();
    assert_eq!(outcome.report.drifted_fields[0].attribute, "cidr_block");
    assert_eq!(outcome.report.spec_hash, ContentHash::of(b"vpc"));
}

#[test]
fn planner_error_messages() {
    assert_eq!(PlannerError::Synthesize("a".into()).message(), "synthesize: a");
    assert_eq!(PlannerError::Plan("b".into()).message(), "plan: b");
    assert_eq!(PlannerError::Backend("c".into()).message(), "backend: c");
}
