//! Drift: what a planner finds becomes a report, a phase and a hint.

use crate::architecture::{Condition, ConditionView, Phase, Source};
use crate::hash::ContentHash;
use crate::reconcile::{OutcomeView, ReconcileOutcome};
use crate::{architecture, hash, text};
use indexmap::IndexMap;
use lava_drift::{
    ChangeKind as LavaChange, DriftFinding as LavaFinding, MockPlanner as LavaPlanner,
    PlannerError as LavaPlannerError, Severity as LavaSeverity,
};
use vstd::prelude::*;
use vstd::string::*;

verus! {

/// How much a drift matters.
#[derive(Clone, Copy, Debug, PartialEq, Eq, Structural)]
pub enum Severity {
    /// No promise is broken.
    Cosmetic,
    /// The next apply would change behaviour.
    Functional,
    /// The next apply would delete or recreate a resource.
    Critical,
}

/// The place of a severity in their order.
pub open spec fn severity_rank(s: Severity) -> int {
    match s {
        Severity::Cosmetic => 0,
        Severity::Functional => 1,
        Severity::Critical => 2,
    }
}

/// What a planner would do to a resource.
#[derive(Clone, Copy, Debug, PartialEq, Eq, Structural)]
pub enum ChangeKind {
    Create,
    Update,
    Delete,
    Replace,
    NoOp,
}

/// What a planner found at one attribute.
#[derive(Debug, PartialEq, Eq)]
pub struct DriftFinding {
    pub address: String,
    pub attribute: String,
    pub change: ChangeKind,
    pub observed: Option<String>,
    pub declared: Option<String>,
}

/// What a finding says.
#[verifier::ext_equal]
pub struct FindingView {
    pub address: Seq<char>,
    pub attribute: Seq<char>,
    pub change: ChangeKind,
    pub observed: Option<Seq<char>>,
    pub declared: Option<Seq<char>>,
}

impl View for DriftFinding {
    type V = FindingView;

    open spec fn view(&self) -> FindingView {
        FindingView {
            address: self.address@,
            attribute: self.attribute@,
            change: self.change,
            observed: text::opt_text(self.observed),
            declared: text::opt_text(self.declared),
        }
    }
}

impl Clone for DriftFinding {
    fn clone(&self) -> (r: DriftFinding)
        ensures
            r == *self,
    {
        DriftFinding {
            address: self.address.clone(),
            attribute: self.attribute.clone(),
            change: self.change,
            observed: text::copy_opt(&self.observed),
            declared: text::copy_opt(&self.declared),
        }
    }
}

/// The views of a list of findings.
pub open spec fn finding_views(s: Seq<DriftFinding>) -> Seq<FindingView> {
    s.map_values(|f: DriftFinding| f@)
}

/// A field whose observed value is not the declared one.
#[derive(Debug, PartialEq, Eq)]
pub struct DriftedField {
    pub address: String,
    pub attribute: String,
    pub observed: Option<String>,
    pub declared: Option<String>,
    pub severity: Severity,
}

impl Clone for DriftedField {
    fn clone(&self) -> (r: DriftedField)
        ensures
            r == *self,
    {
        DriftedField {
            address: self.address.clone(),
            attribute: self.attribute.clone(),
            observed: text::copy_opt(&self.observed),
            declared: text::copy_opt(&self.declared),
            severity: self.severity,
        }
    }
}

/// What a drifted field says.
#[verifier::ext_equal]
pub struct FieldView {
    pub address: Seq<char>,
    pub attribute: Seq<char>,
    pub observed: Option<Seq<char>>,
    pub declared: Option<Seq<char>>,
    pub severity: Severity,
}

impl View for DriftedField {
    type V = FieldView;

    open spec fn view(&self) -> FieldView {
        FieldView {
            address: self.address@,
            attribute: self.attribute@,
            observed: text::opt_text(self.observed),
            declared: text::opt_text(self.declared),
            severity: self.severity,
        }
    }
}

/// The views of a list of drifted fields.
pub open spec fn field_views(s: Seq<DriftedField>) -> Seq<FieldView> {
    s.map_values(|f: DriftedField| f@)
}

/// The result of one scan.
#[derive(Debug, PartialEq, Eq)]
pub struct DriftReport {
    pub spec_hash: ContentHash,
    /// When the scan was made: seconds since the Unix epoch, and nanoseconds
    /// within the second.
    pub scanned_at: (i64, u32),
    pub drifted_fields: Vec<DriftedField>,
    /// The highest severity among the fields; none in a clean report.
    pub max_severity: Option<Severity>,
}

/// What a report says.
#[verifier::ext_equal]
pub struct ReportView {
    pub spec_hash: Seq<u8>,
    pub scanned_at: (i64, u32),
    pub drifted_fields: Seq<FieldView>,
    pub max_severity: Option<Severity>,
}

impl View for DriftReport {
    type V = ReportView;

    open spec fn view(&self) -> ReportView {
        ReportView {
            spec_hash: self.spec_hash.0@,
            scanned_at: self.scanned_at,
            drifted_fields: field_views(self.drifted_fields@),
            max_severity: self.max_severity,
        }
    }
}

impl Clone for DriftReport {
    fn clone(&self) -> (r: DriftReport)
        ensures
            r@ == self@,
    {
        let mut fields: Vec<DriftedField> = Vec::new();
        for i in 0..self.drifted_fields.len()
            invariant
                fields@ == self.drifted_fields@.take(i as int),
        {
            fields.push(self.drifted_fields[i].clone());
            assert(self.drifted_fields@.take(i as int + 1) =~= self.drifted_fields@.take(
                i as int,
            ).push(self.drifted_fields@[i as int]));
        }
        assert(self.drifted_fields@.take(self.drifted_fields@.len() as int)
            =~= self.drifted_fields@);
        DriftReport {
            spec_hash: self.spec_hash,
            scanned_at: self.scanned_at,
            drifted_fields: fields,
            max_severity: self.max_severity,
        }
    }
}

impl DriftReport {
    /// How many fields drifted.
    pub fn count(&self) -> (r: usize)
        ensures
            r == self@.drifted_fields.len(),
    {
        self.drifted_fields.len()
    }
}

/// Why a planner could not say what drifted.
#[derive(Clone, Debug, PartialEq)]
pub enum PlannerError {
    Synthesize(String),
    Plan(String),
    Backend(String),
}

/// A planner error as a line of text.
pub open spec fn planner_error_text(e: PlannerError) -> Seq<char> {
    match e {
        PlannerError::Synthesize(m) => "synthesize: "@ + m@,
        PlannerError::Plan(m) => "plan: "@ + m@,
        PlannerError::Backend(m) => "backend: "@ + m@,
    }
}

impl PlannerError {
    /// The error as a line of text.
    pub fn message(&self) -> (r: String)
        ensures
            r@ == planner_error_text(*self),
    {
        match self {
            PlannerError::Synthesize(m) => "synthesize: ".to_owned().concat(m.as_str()),
            PlannerError::Plan(m) => "plan: ".to_owned().concat(m.as_str()),
            PlannerError::Backend(m) => "backend: ".to_owned().concat(m.as_str()),
        }
    }
}

/// The planner that a detector asks.
pub trait PlannerBackend {
    /// Plans the source again and says what differs from the live state.
    fn plan(&self, spec_source: &str, bindings: &IndexMap<String, String>) -> Result<
        Vec<DriftFinding>,
        PlannerError,
    >;
}

/// Does one of `prefixes` open `attribute`?
pub open spec fn is_cosmetic_attribute(attribute: Seq<char>, prefixes: Seq<Seq<char>>) -> bool {
    exists|i: int| 0 <= i < prefixes.len() && (#[trigger] prefixes[i]).is_prefix_of(attribute)
}

/// How much a finding matters: what deletes or recreates is critical, what
/// creates is functional, and an update is functional unless its attribute is
/// a cosmetic one.
pub open spec fn finding_severity(f: FindingView, prefixes: Seq<Seq<char>>) -> Severity {
    match f.change {
        ChangeKind::Delete | ChangeKind::Replace => Severity::Critical,
        ChangeKind::Create => Severity::Functional,
        ChangeKind::Update => if is_cosmetic_attribute(f.attribute, prefixes) {
            Severity::Cosmetic
        } else {
            Severity::Functional
        },
        ChangeKind::NoOp => Severity::Cosmetic,
    }
}

/// The drifted field that a finding stands for.
pub open spec fn drifted_field(f: FindingView, prefixes: Seq<Seq<char>>) -> FieldView {
    FieldView {
        address: f.address,
        attribute: f.attribute,
        observed: f.observed,
        declared: f.declared,
        severity: finding_severity(f, prefixes),
    }
}

/// The drifted fields of a list of findings: those that change something, in
/// their order.
pub open spec fn drifted_fields(findings: Seq<FindingView>, prefixes: Seq<Seq<char>>) -> Seq<
    FieldView,
> {
    findings.filter(|f: FindingView| f.change != ChangeKind::NoOp).map_values(
        |f: FindingView| drifted_field(f, prefixes),
    )
}

/// Has one of the fields this severity?
pub open spec fn has_severity(fields: Seq<FieldView>, s: Severity) -> bool {
    exists|i: int| 0 <= i < fields.len() && (#[trigger] fields[i]).severity == s
}

/// The highest severity among the fields.
pub open spec fn worst_severity(fields: Seq<FieldView>) -> Option<Severity> {
    if has_severity(fields, Severity::Critical) {
        Some(Severity::Critical)
    } else if has_severity(fields, Severity::Functional) {
        Some(Severity::Functional)
    } else if has_severity(fields, Severity::Cosmetic) {
        Some(Severity::Cosmetic)
    } else {
        None
    }
}

/// The report on a list of findings for a source text, by a scan at the given
/// time.
pub open spec fn scan_report(
    findings: Seq<FindingView>,
    prefixes: Seq<Seq<char>>,
    spec_source: Seq<char>,
    scanned_at: (i64, u32),
) -> ReportView {
    let fields = drifted_fields(findings, prefixes);
    ReportView {
        spec_hash: hash::text_digest(spec_source),
        scanned_at,
        drifted_fields: fields,
        max_severity: worst_severity(fields),
    }
}

/// The highest severity is there exactly where a field drifted; then some
/// field has it and none has a higher one.
pub proof fn law_worst_severity_is_the_maximum(fields: Seq<FieldView>)
    ensures
        worst_severity(fields) is None <==> fields.len() == 0,
        worst_severity(fields) matches Some(s) ==> {
            &&& has_severity(fields, s)
            &&& forall|i: int|
                0 <= i < fields.len() ==> severity_rank((#[trigger] fields[i]).severity)
                    <= severity_rank(s)
        },
{
    if fields.len() > 0 {
        assert(has_severity(fields, fields[0].severity));
    }
    assert forall|i: int| 0 <= i < fields.len() implies has_severity(
        fields,
        (#[trigger] fields[i]).severity,
    ) by {
    }
}

/// A scan reports a field for each finding that changes something, and for no
/// other: it is clean exactly where every finding changes nothing.
pub proof fn law_scan_is_clean_without_changes(
    findings: Seq<FindingView>,
    prefixes: Seq<Seq<char>>,
    spec_source: Seq<char>,
    scanned_at: (i64, u32),
)
    ensures
        scan_report(findings, prefixes, spec_source, scanned_at).max_severity is None <==> forall|i: int|
            0 <= i < findings.len() ==> (#[trigger] findings[i]).change == ChangeKind::NoOp,
{
    let changes = |f: FindingView| f.change != ChangeKind::NoOp;
    let kept = findings.filter(changes);
    law_worst_severity_is_the_maximum(drifted_fields(findings, prefixes));
    assert(drifted_fields(findings, prefixes).len() == kept.len());
    if forall|i: int| 0 <= i < findings.len() ==> (#[trigger] findings[i]).change
        == ChangeKind::NoOp {
        lemma_nothing_kept(findings, changes);
    } else {
        let i = choose|i: int| 0 <= i < findings.len() && (#[trigger] findings[i]).change
            != ChangeKind::NoOp;
        findings.lemma_filter_contains(changes, i);
        assert(kept.contains(findings[i]));
    }
}

/// A field whose update is cosmetic opens with one of the prefixes, to the
/// letter; an attribute that none of them opens is not cosmetic.
pub proof fn law_cosmetic_attributes_open_with_a_prefix(
    attribute: Seq<char>,
    prefixes: Seq<Seq<char>>,
)
    ensures
        is_cosmetic_attribute(attribute, prefixes) <==> exists|i: int, rest: Seq<char>|
            0 <= i < prefixes.len() && attribute == #[trigger] (prefixes[i] + rest),
{
    if is_cosmetic_attribute(attribute, prefixes) {
        let i = choose|i: int|
            0 <= i < prefixes.len() && (#[trigger] prefixes[i]).is_prefix_of(attribute);
        let rest = attribute.skip(prefixes[i].len() as int);
        assert(attribute =~= prefixes[i] + rest);
    }
    if exists|i: int, rest: Seq<char>|
        0 <= i < prefixes.len() && attribute == #[trigger] (prefixes[i] + rest) {
        let (i, rest) = choose|i: int, rest: Seq<char>|
            0 <= i < prefixes.len() && attribute == #[trigger] (prefixes[i] + rest);
        assert(prefixes[i] =~= attribute.take(prefixes[i].len() as int));
        assert(prefixes[i].is_prefix_of(attribute));
    }
}

/// One finding more adds one drifted field at the end where it changes
/// something, and none where it does not; the fields before it stay. The new
/// field tells of the finding's resource, attribute and two values, and is
/// critical exactly where the finding deletes or recreates, cosmetic exactly
/// where it updates an attribute that a prefix opens, and functional otherwise.
pub proof fn law_each_change_is_one_field(
    findings: Seq<FindingView>,
    f: FindingView,
    prefixes: Seq<Seq<char>>,
)
    ensures
        drifted_fields(Seq::<FindingView>::empty(), prefixes).len() == 0,
        f.change == ChangeKind::NoOp ==> drifted_fields(findings.push(f), prefixes)
            == drifted_fields(findings, prefixes),
        f.change != ChangeKind::NoOp ==> {
            let fields = drifted_fields(findings.push(f), prefixes);
            let opened = exists|i: int|
                0 <= i < prefixes.len() && (#[trigger] prefixes[i]).is_prefix_of(f.attribute);
            &&& fields.len() == drifted_fields(findings, prefixes).len() + 1
            &&& fields.drop_last() == drifted_fields(findings, prefixes)
            &&& fields.last().address == f.address
            &&& fields.last().attribute == f.attribute
            &&& fields.last().observed == f.observed
            &&& fields.last().declared == f.declared
            &&& fields.last().severity == Severity::Critical <==> (f.change == ChangeKind::Delete
                || f.change == ChangeKind::Replace)
            &&& fields.last().severity == Severity::Cosmetic <==> (f.change == ChangeKind::Update
                && opened)
            &&& fields.last().severity == Severity::Functional <==> (f.change == ChangeKind::Create
                || (f.change == ChangeKind::Update && !opened))
        },
{
    reveal(Seq::filter);
    let changes = |f: FindingView| f.change != ChangeKind::NoOp;
    assert(findings.push(f).drop_last() =~= findings);
    let before = findings.filter(changes);
    if f.change == ChangeKind::NoOp {
        assert(findings.push(f).filter(changes) == before);
    } else {
        assert(findings.push(f).filter(changes) == before.push(f));
        assert(drifted_fields(findings.push(f), prefixes).drop_last() =~= drifted_fields(
            findings,
            prefixes,
        ));
        assert(drifted_fields(findings.push(f), prefixes).last() == drifted_field(f, prefixes));
    }
}

/// The field of finding `i` stands in the report, with what the finding says.
proof fn lemma_change_is_reported(findings: Seq<FindingView>, prefixes: Seq<Seq<char>>, i: int) -> (
k: int)
    requires
        0 <= i < findings.len(),
        findings[i].change != ChangeKind::NoOp,
    ensures
        0 <= k < drifted_fields(findings, prefixes).len(),
        drifted_fields(findings, prefixes)[k] == drifted_field(findings[i], prefixes),
{
    let changes = |f: FindingView| f.change != ChangeKind::NoOp;
    findings.lemma_filter_contains(changes, i);
    let kept = findings.filter(changes);
    let k = choose|k: int| 0 <= k < kept.len() && kept[k] == findings[i];
    assert(drifted_fields(findings, prefixes)[k] == drifted_field(kept[k], prefixes));
    k
}

/// The severities ascend from cosmetic over functional to critical.
pub proof fn law_severities_ascend(a: Severity, b: Severity)
    ensures
        severity_rank(Severity::Cosmetic) < severity_rank(Severity::Functional),
        severity_rank(Severity::Functional) < severity_rank(Severity::Critical),
        severity_rank(a) == severity_rank(b) <==> a == b,
{
}

/// A report is critical exactly where some finding deletes or recreates,
/// wherever it stands among the others, and cosmetic exactly where something
/// is updated and every change is an update of an attribute that a prefix
/// opens. It carries the digest of the source text and the time of the scan.
pub proof fn law_report_is_as_bad_as_its_worst_finding(
    findings: Seq<FindingView>,
    prefixes: Seq<Seq<char>>,
    spec_source: Seq<char>,
    scanned_at: (i64, u32),
)
    ensures
        scan_report(findings, prefixes, spec_source, scanned_at).max_severity == Some(
            Severity::Critical,
        ) <==> exists|i: int|
            0 <= i < findings.len() && ((#[trigger] findings[i]).change == ChangeKind::Delete
                || findings[i].change == ChangeKind::Replace),
        scan_report(findings, prefixes, spec_source, scanned_at).max_severity == Some(
            Severity::Cosmetic,
        ) <==> {
            &&& exists|i: int| 0 <= i < findings.len() && (#[trigger] findings[i]).change
                != ChangeKind::NoOp
            &&& forall|i: int|
                0 <= i < findings.len() && (#[trigger] findings[i]).change != ChangeKind::NoOp
                    ==> findings[i].change == ChangeKind::Update && is_cosmetic_attribute(
                    findings[i].attribute,
                    prefixes,
                )
        },
        scan_report(findings, prefixes, spec_source, scanned_at).max_severity is None
            <==> forall|i: int| 0 <= i < findings.len() ==> (#[trigger] findings[i]).change
            == ChangeKind::NoOp,
        scan_report(findings, prefixes, spec_source, scanned_at).spec_hash
            == hash::blake3_digest(vstd::utf8::encode_utf8(spec_source)),
        scan_report(findings, prefixes, spec_source, scanned_at).scanned_at == scanned_at,
        scan_report(findings, prefixes, spec_source, scanned_at).drifted_fields == drifted_fields(
            findings,
            prefixes,
        ),
{
    let fields = drifted_fields(findings, prefixes);
    let worst = worst_severity(fields);
    law_scan_is_clean_without_changes(findings, prefixes, spec_source, scanned_at);
    law_worst_severity_is_the_maximum(fields);
    assert forall|i: int| 0 <= i < findings.len() && (#[trigger] findings[i]).change
        != ChangeKind::NoOp implies has_severity(
        fields,
        finding_severity(findings[i], prefixes),
    ) by {
        let k = lemma_change_is_reported(findings, prefixes, i);
        assert(fields[k].severity == finding_severity(findings[i], prefixes));
    }
    if worst is Some {
        let k = choose|k: int| 0 <= k < fields.len() && (#[trigger] fields[k]).severity
            == worst->0;
        let i = lemma_reported_is_a_change(findings, prefixes, k);
        assert(finding_severity(findings[i], prefixes) == worst->0);
        assert(findings[i].change != ChangeKind::NoOp);
    }
    if exists|i: int| 0 <= i < findings.len() && (#[trigger] findings[i]).change
        != ChangeKind::NoOp {
        let i = choose|i: int| 0 <= i < findings.len() && (#[trigger] findings[i]).change
            != ChangeKind::NoOp;
        assert(worst is Some);
    }
}

/// What a field of the report tells of is a finding that changes something.
proof fn lemma_reported_is_a_change(
    findings: Seq<FindingView>,
    prefixes: Seq<Seq<char>>,
    k: int,
) -> (i: int)
    requires
        0 <= k < drifted_fields(findings, prefixes).len(),
    ensures
        0 <= i < findings.len(),
        findings[i].change != ChangeKind::NoOp,
        drifted_fields(findings, prefixes)[k] == drifted_field(findings[i], prefixes),
{
    let changes = |f: FindingView| f.change != ChangeKind::NoOp;
    lemma_kept_is_wanted(findings, changes, k);
    let kept = findings.filter(changes);
    let i = choose|i: int| 0 <= i < findings.len() && findings[i] == kept[k];
    assert(changes(kept[k]));
    i
}

/// What is kept of a sequence stands in it and is wanted.
proof fn lemma_kept_is_wanted(s: Seq<FindingView>, wanted: spec_fn(FindingView) -> bool, k: int)
    requires
        0 <= k < s.filter(wanted).len(),
    ensures
        wanted(s.filter(wanted)[k]),
        exists|i: int| 0 <= i < s.len() && s[i] == s.filter(wanted)[k],
    decreases s.len(),
{
    reveal(Seq::filter);
    if s.len() > 0 {
        let init = s.drop_last();
        if k < init.filter(wanted).len() {
            lemma_kept_is_wanted(init, wanted, k);
            let i = choose|i: int| 0 <= i < init.len() && init[i] == init.filter(wanted)[k];
            assert(s[i] == s.filter(wanted)[k]);
        } else {
            assert(s[s.len() - 1] == s.filter(wanted)[k]);
        }
    }
}

/// Nothing is left of a sequence in which nothing is wanted.
proof fn lemma_nothing_kept(s: Seq<FindingView>, wanted: spec_fn(FindingView) -> bool)
    requires
        forall|i: int| 0 <= i < s.len() ==> !wanted(#[trigger] s[i]),
    ensures
        s.filter(wanted).len() == 0,
    decreases s.len(),
{
    reveal(Seq::filter);
    if s.len() > 0 {
        assert forall|i: int| 0 <= i < s.drop_last().len() implies !wanted(
            #[trigger] s.drop_last()[i],
        ) by {
            assert(s.drop_last()[i] == s[i]);
        }
        assert(!wanted(s[s.len() - 1]));
        lemma_nothing_kept(s.drop_last(), wanted);
    }
}

/// The planner of the `lava_drift` crate that always finds what it holds.
#[verifier::external_type_specification]
#[verifier::external_body]
pub struct ExLavaPlanner(LavaPlanner);

/// The planner error of the `lava_drift` crate.
#[verifier::external_type_specification]
#[verifier::external_body]
pub struct ExLavaPlannerError(LavaPlannerError);

/// The findings that a planner holds, in their order.
pub uninterp spec fn planner_findings(p: LavaPlanner) -> Seq<FindingView>;

/// `lava_drift::MockPlanner::empty`: a planner that holds no finding.
#[verifier::external_body]
fn new_planner() -> (r: LavaPlanner)
    ensures
        planner_findings(r) == Seq::<FindingView>::empty(),
{
    LavaPlanner::empty()
}

/// The `findings` of a `lava_drift::MockPlanner`: one more finding, behind
/// those that it holds.
#[verifier::external_body]
fn add_finding(p: &mut LavaPlanner, f: DriftFinding)
    ensures
        planner_findings(*final(p)) == planner_findings(*old(p)).push(f@),
{
    let change = match f.change {
        ChangeKind::Create => LavaChange::Create,
        ChangeKind::Update => LavaChange::Update,
        ChangeKind::Delete => LavaChange::Delete,
        ChangeKind::Replace => LavaChange::Replace,
        ChangeKind::NoOp => LavaChange::NoOp,
    };
    let DriftFinding { address, attribute, observed, declared, .. } = f;
    p.findings.push(LavaFinding { address, attribute, change, observed, declared });
}

/// `lava_drift::DriftDetector::scan` over a `MockPlanner`, with the cosmetic
/// prefixes set: it drops the findings that change nothing, grades the others
/// by their change and attribute, takes the highest grade, and hashes the
/// source text. Such a planner never fails. The time of the scan is the
/// machine's and is not stated.
#[verifier::external_body]
fn scan_findings(
    planner: LavaPlanner,
    prefixes: Vec<String>,
    spec_source: &str,
) -> (r: Result<DriftReport, LavaPlannerError>)
    ensures
        r is Ok,
        r->Ok_0@ == scan_report(
            planner_findings(planner),
            text::texts(prefixes@),
            spec_source@,
            r->Ok_0.scanned_at,
        ),
{
    let grade = |s| match s {
        LavaSeverity::Cosmetic => Severity::Cosmetic,
        LavaSeverity::Functional => Severity::Functional,
        LavaSeverity::Critical => Severity::Critical
    };
    let detector = lava_drift::DriftDetector::new(planner).with_cosmetic_prefixes(prefixes);
    let r = detector.scan(spec_source, &IndexMap::new())?;
    let drifted_fields = r.drifted_fields.into_iter().map(|f| DriftedField {
        address: f.address, attribute: f.attribute, observed: f.observed, declared: f.declared,
        severity: grade(f.severity) }).collect();
    let scanned_at = (r.scanned_at.timestamp(), r.scanned_at.timestamp_subsec_nanos());
    let (spec_hash, max_severity) = (ContentHash(r.spec_hash.0), r.max_severity.map(grade));
    Ok(DriftReport { spec_hash, scanned_at, drifted_fields, max_severity })
}

/// The report on what a planner found for a source text.
pub fn report_on_findings(
    findings: &Vec<DriftFinding>,
    prefixes: &Vec<String>,
    spec_source: &str,
) -> (r: Result<DriftReport, PlannerError>)
    ensures
        r is Ok,
        r->Ok_0@ == scan_report(
            finding_views(findings@),
            text::texts(prefixes@),
            spec_source@,
            r->Ok_0.scanned_at,
        ),
{
    let mut planner = new_planner();
    for i in 0..findings.len()
        invariant
            planner_findings(planner) == finding_views(findings@).take(i as int),
    {
        add_finding(&mut planner, findings[i].clone());
        assert(finding_views(findings@).take(i as int + 1) =~= finding_views(findings@).take(
            i as int,
        ).push(findings@[i as int]@));
    }
    assert(finding_views(findings@).take(findings@.len() as int) =~= finding_views(findings@));
    match scan_findings(planner, text::copy_all(prefixes), spec_source) {
        Ok(report) => Ok(report),
        Err(e) => Err(PlannerError::Backend(e.to_string())),
    }
}

/// The cosmetic prefixes of a new `lava_drift::DriftDetector`: the one that
/// opens the names of tags.
#[verifier::external_body]
fn default_prefixes() -> (r: Vec<String>)
    ensures
        text::texts(r@) == seq!["tags."@],
{
    lava_drift::DriftDetector::new(LavaPlanner::empty()).cosmetic_attribute_prefixes
}

/// Asks a planner what drifted and grades what it finds.
pub struct DriftDetector<B: PlannerBackend> {
    pub backend: B,
    /// What opens the name of an attribute whose update is cosmetic.
    pub cosmetic_attribute_prefixes: Vec<String>,
}

impl<B: PlannerBackend> DriftDetector<B> {
    /// A detector that takes updates of tags for cosmetic.
    pub fn new(backend: B) -> (r: DriftDetector<B>)
        ensures
            r.backend == backend,
            text::texts(r.cosmetic_attribute_prefixes@) == seq!["tags."@],
    {
        DriftDetector { backend, cosmetic_attribute_prefixes: default_prefixes() }
    }

    /// The detector with other cosmetic prefixes.
    pub fn with_cosmetic_prefixes(self, prefixes: Vec<String>) -> (r: DriftDetector<B>)
        ensures
            r.backend == self.backend,
            r.cosmetic_attribute_prefixes == prefixes,
    {
        DriftDetector { backend: self.backend, cosmetic_attribute_prefixes: prefixes }
    }

    /// Asks the planner and reports on what it finds. The planner's error is
    /// the scan's.
    pub fn scan(&self, spec_source: &str, bindings: &IndexMap<String, String>) -> (r: Result<
        DriftReport,
        PlannerError,
    >)
        ensures
            match r {
                Ok(report) => exists|findings: Vec<DriftFinding>| #[trigger]
                    planned(*self, spec_source, bindings, Ok(findings)) && report@ == scan_report(
                        finding_views(findings@),
                        text::texts(self.cosmetic_attribute_prefixes@),
                        spec_source@,
                        report.scanned_at,
                    ),
                Err(e) => planned(*self, spec_source, bindings, Err(e)),
            },
    {
        let result = self.backend.plan(spec_source, bindings);
        assert(planned(*self, spec_source, bindings, result));
        match result {
            Ok(findings) => report_on_findings(
                &findings,
                &self.cosmetic_attribute_prefixes,
                spec_source,
            ),
            Err(e) => Err(e),
        }
    }
}

/// Can the detector's planner answer with `result`?
pub open spec fn planned<B: PlannerBackend>(
    detector: DriftDetector<B>,
    spec_source: &str,
    bindings: &IndexMap<String, String>,
    result: Result<Vec<DriftFinding>, PlannerError>,
) -> bool {
    call_ensures(B::plan, (&detector.backend, spec_source, bindings), result)
}

/// The text that a planner gets for a source.
pub fn source_text(source: &Source) -> (r: String)
    ensures
        r@ == architecture::source_chars(*source),
{
    match source {
        Source::Inline { inline } => inline.clone(),
        Source::Name { name } => name.clone(),
        Source::Git { path, .. } => path.clone(),
    }
}

/// What to do about a drift where no policy says.
#[derive(Clone, Copy, Debug, PartialEq, Eq, Structural)]
pub enum RemediationHint {
    /// No drift; stay applied.
    NoDrift,
    /// Cosmetic drift; record it.
    Record,
    /// Functional drift; correct it.
    AutoCorrect,
    /// Critical drift; wait for a policy.
    HoldForPolicy,
}

/// The result of one scan, with what follows from it.
#[derive(Debug, PartialEq, Eq)]
pub struct DriftScanOutcome {
    pub report: DriftReport,
    pub recommended_phase: Phase,
    pub remediation_hint: RemediationHint,
}

impl Clone for DriftScanOutcome {
    fn clone(&self) -> (r: DriftScanOutcome)
        ensures
            r.report@ == self.report@,
            r.recommended_phase == self.recommended_phase,
            r.remediation_hint == self.remediation_hint,
    {
        DriftScanOutcome {
            report: self.report.clone(),
            recommended_phase: self.recommended_phase,
            remediation_hint: self.remediation_hint,
        }
    }
}

/// The phase that follows from the highest severity.
pub open spec fn drift_phase(max_severity: Option<Severity>) -> Phase {
    match max_severity {
        None => Phase::Applied,
        Some(Severity::Cosmetic) => Phase::Drifted,
        Some(Severity::Functional) => Phase::Reconverging,
        Some(Severity::Critical) => Phase::Drifted,
    }
}

/// The hint that follows from the highest severity.
pub open spec fn drift_hint(max_severity: Option<Severity>) -> RemediationHint {
    match max_severity {
        None => RemediationHint::NoDrift,
        Some(Severity::Cosmetic) => RemediationHint::Record,
        Some(Severity::Functional) => RemediationHint::AutoCorrect,
        Some(Severity::Critical) => RemediationHint::HoldForPolicy,
    }
}

/// The condition that a hint and a number of drifted fields give.
pub open spec fn drift_condition(hint: RemediationHint, count: nat) -> ConditionView {
    match hint {
        RemediationHint::NoDrift => architecture::ok_condition("Drift"@, "Clean"@),
        RemediationHint::Record => architecture::ok_condition(
            "Drift"@,
            "Cosmetic ("@ + text::decimal(count) + " fields)"@,
        ),
        RemediationHint::AutoCorrect => architecture::ok_condition(
            "Drift"@,
            "Functional ("@ + text::decimal(count) + " fields) — reconverging"@,
        ),
        RemediationHint::HoldForPolicy => architecture::fail_condition(
            "Drift"@,
            "Critical ("@ + text::decimal(count) + " fields) — awaiting RemediationPolicy"@,
        ),
    }
}

/// A scan leaves the resource applied exactly where it is clean, has it
/// corrected exactly where the worst drift is functional, and reports a failed
/// condition exactly where the worst drift is critical.
pub proof fn law_phase_follows_severity(max_severity: Option<Severity>, count: nat)
    ensures
        drift_phase(max_severity) == Phase::Applied <==> max_severity is None,
        drift_phase(max_severity) == Phase::Reconverging <==> max_severity == Some(
            Severity::Functional,
        ),
        drift_phase(max_severity) == Phase::Drifted <==> max_severity == Some(Severity::Cosmetic)
            || max_severity == Some(Severity::Critical),
        drift_hint(max_severity) == RemediationHint::HoldForPolicy <==> max_severity == Some(
            Severity::Critical,
        ),
        drift_condition(drift_hint(max_severity), count).status == (if max_severity == Some(
            Severity::Critical,
        ) {
            "False"@
        } else {
            "True"@
        }),
{
}

/// The hint names the worst drift: none, then record, correct and hold. The
/// condition of a scan is about drift; where it holds it has a reason and no
/// message, where it does not it has the error reason and a message, and either
/// text tells how bad the drift is and, unless there is none, how many fields
/// drifted.
pub proof fn law_condition_tells_the_drift(max_severity: Option<Severity>, count: nat)
    ensures
        drift_hint(max_severity) == RemediationHint::NoDrift <==> max_severity is None,
        drift_hint(max_severity) == RemediationHint::Record <==> max_severity == Some(
            Severity::Cosmetic,
        ),
        drift_hint(max_severity) == RemediationHint::AutoCorrect <==> max_severity == Some(
            Severity::Functional,
        ),
        drift_condition(drift_hint(max_severity), count).kind == "Drift"@,
        drift_condition(drift_hint(max_severity), count).last_transition_time is None,
        max_severity != Some(Severity::Critical) ==> {
            &&& drift_condition(drift_hint(max_severity), count).message is None
            &&& drift_condition(drift_hint(max_severity), count).reason == Some(
                if max_severity is None {
                    "Clean"@
                } else if max_severity == Some(Severity::Cosmetic) {
                    "Cosmetic ("@ + text::decimal(count) + " fields)"@
                } else {
                    "Functional ("@ + text::decimal(count) + " fields) — reconverging"@
                },
            )
        },
        max_severity == Some(Severity::Critical) ==> {
            &&& drift_condition(drift_hint(max_severity), count).reason == Some("Error"@)
            &&& drift_condition(drift_hint(max_severity), count).message == Some(
                "Critical ("@ + text::decimal(count) + " fields) — awaiting RemediationPolicy"@,
            )
        },
{
}

/// A planner error's line names the step that failed, then gives its message to
/// the letter.
pub proof fn law_planner_error_keeps_its_message(m: String)
    ensures
        planner_error_text(PlannerError::Synthesize(m)) == "synthesize: "@ + m@,
        planner_error_text(PlannerError::Plan(m)) == "plan: "@ + m@,
        planner_error_text(PlannerError::Backend(m)) == "backend: "@ + m@,
{
}

/// A finding, a field and a report are told by what they hold, nothing left out.
pub proof fn law_report_tells_its_fields(f: DriftFinding, d: DriftedField, r: DriftReport, i: int)
    requires
        0 <= i < r.drifted_fields@.len(),
    ensures
        f@.address == f.address@ && f@.attribute == f.attribute@ && f@.change == f.change,
        f@.observed is Some <==> f.observed is Some,
        f.observed is Some ==> f@.observed->0 == f.observed->0@,
        f@.declared is Some <==> f.declared is Some,
        f.declared is Some ==> f@.declared->0 == f.declared->0@,
        d@.address == d.address@ && d@.attribute == d.attribute@ && d@.severity == d.severity,
        d@.observed is Some <==> d.observed is Some,
        d.observed is Some ==> d@.observed->0 == d.observed->0@,
        d@.declared is Some <==> d.declared is Some,
        d.declared is Some ==> d@.declared->0 == d.declared->0@,
        r@.spec_hash == r.spec_hash.0@,
        r@.scanned_at == r.scanned_at,
        r@.max_severity == r.max_severity,
        r@.drifted_fields.len() == r.drifted_fields@.len(),
        r@.drifted_fields[i] == r.drifted_fields@[i]@,
{
}

/// A scan rests on an answer of the detector's own planner to the source text
/// and the bindings that it was given.
pub proof fn law_scan_asks_its_own_planner<B: PlannerBackend>(
    detector: DriftDetector<B>,
    spec_source: &str,
    bindings: &IndexMap<String, String>,
    result: Result<Vec<DriftFinding>, PlannerError>,
)
    ensures
        planned(detector, spec_source, bindings, result) <==> call_ensures(
            B::plan,
            (&detector.backend, spec_source, bindings),
            result,
        ),
{
}

/// Each finding of a list is told of, in its place.
pub proof fn law_findings_are_handed_on(s: Seq<DriftFinding>, i: int)
    requires
        0 <= i < s.len(),
    ensures
        finding_views(s).len() == s.len(),
        finding_views(s)[i].address == s[i].address@,
        finding_views(s)[i].attribute == s[i].attribute@,
        finding_views(s)[i].change == s[i].change,
{
}

/// `before`, the numeral of `count`, `after`.
fn counted(before: &str, count: usize, after: &str) -> (r: String)
    ensures
        r@ == before@ + text::decimal(count as nat) + after@,
{
    before.to_owned().concat(text::decimal_text(count as u64).as_str()).concat(after)
}

impl DriftScanOutcome {
    /// What follows from a report.
    pub fn from_report(report: DriftReport) -> (r: DriftScanOutcome)
        ensures
            r.report == report,
            r.recommended_phase == drift_phase(report.max_severity),
            r.remediation_hint == drift_hint(report.max_severity),
            r.recommended_phase == Phase::Applied <==> report.max_severity is None,
            r.recommended_phase == Phase::Reconverging <==> report.max_severity == Some(
                Severity::Functional,
            ),
            r.remediation_hint == RemediationHint::HoldForPolicy <==> report.max_severity == Some(
                Severity::Critical,
            ),
            r.remediation_hint == RemediationHint::Record <==> report.max_severity == Some(
                Severity::Cosmetic,
            ),
    {
        let (recommended_phase, remediation_hint) = match report.max_severity {
            None => (Phase::Applied, RemediationHint::NoDrift),
            Some(Severity::Cosmetic) => (Phase::Drifted, RemediationHint::Record),
            Some(Severity::Functional) => (Phase::Reconverging, RemediationHint::AutoCorrect),
            Some(Severity::Critical) => (Phase::Drifted, RemediationHint::HoldForPolicy),
        };
        DriftScanOutcome { report, recommended_phase, remediation_hint }
    }

    /// The scan as the outcome of a pass.
    pub fn to_reconcile_outcome(&self) -> (r: ReconcileOutcome)
        ensures
            r@ == (OutcomeView {
                phase: self.recommended_phase,
                conditions: seq![
                    drift_condition(self.remediation_hint, self.report@.drifted_fields.len()),
                ],
                terraform_json: None,
            }),
    {
        let n: usize = self.report.count();
        let condition = match self.remediation_hint {
            RemediationHint::NoDrift => Condition::ok("Drift", "Clean"),
            RemediationHint::Record => Condition::ok(
                "Drift",
                counted("Cosmetic (", n, " fields)").as_str(),
            ),
            RemediationHint::AutoCorrect => Condition::ok(
                "Drift",
                counted("Functional (", n, " fields) — reconverging").as_str(),
            ),
            RemediationHint::HoldForPolicy => Condition::fail(
                "Drift",
                counted("Critical (", n, " fields) — awaiting RemediationPolicy").as_str(),
            ),
        };
        let conditions = vec![condition];
        assert(architecture::condition_views(conditions@) =~= seq![
            drift_condition(self.remediation_hint, n as nat),
        ]);
        ReconcileOutcome { phase: self.recommended_phase, conditions, terraform_json: None }
    }
}

/// Scans a source for drift and says what follows. The planner's error is the
/// scan's.
pub fn scan_for_drift<B: PlannerBackend>(
    detector: &DriftDetector<B>,
    source: &Source,
    bindings: &IndexMap<String, String>,
) -> (r: Result<DriftScanOutcome, PlannerError>)
    ensures
        exists|spec_source: &str| #[trigger]
            spec_source@ == architecture::source_chars(*source) && match r {
                Ok(outcome) => {
                    &&& exists|findings: Vec<DriftFinding>| #[trigger]
                        planned(*detector, spec_source, bindings, Ok(findings))
                            && outcome.report@ == scan_report(
                            finding_views(findings@),
                            text::texts(detector.cosmetic_attribute_prefixes@),
                            architecture::source_chars(*source),
                            outcome.report.scanned_at,
                        )
                    &&& outcome.recommended_phase == drift_phase(outcome.report.max_severity)
                    &&& outcome.remediation_hint == drift_hint(outcome.report.max_severity)
                },
                Err(e) => planned(*detector, spec_source, bindings, Err(e)),
            },
{
    let text = source_text(source);
    let spec_source = text.as_str();
    assert(spec_source@ == architecture::source_chars(*source));
    match detector.scan(spec_source, bindings) {
        Ok(report) => Ok(DriftScanOutcome::from_report(report)),
        Err(e) => Err(e),
    }
}

} // verus!
