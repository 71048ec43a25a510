//! The beats of a tick that the controller owns: observe, diff and attest.

use crate::chain::{
    AppendError, ChangeSummary, OutcomeChain, OutcomePayload, PayloadView, Receipt, ResourceAddress,
};
use crate::drift::{DriftDetector, DriftFinding, DriftReport, PlannerBackend};
use crate::hash::ContentHash;
use crate::{architecture, attest, chain, drift, hash, text};
use indexmap::IndexMap;
use vstd::prelude::*;
use vstd::string::*;

verus! {

/// One of the seven beats of a tick.
#[derive(Clone, Copy, Debug, PartialEq, Eq, Structural)]
pub enum Beat {
    Observe,
    Diff,
    Classify,
    Decide,
    Act,
    Attest,
    Tick,
}

/// The name of a beat.
pub open spec fn beat_chars(b: Beat) -> Seq<char> {
    match b {
        Beat::Observe => "Observe"@,
        Beat::Diff => "Diff"@,
        Beat::Classify => "Classify"@,
        Beat::Decide => "Decide"@,
        Beat::Act => "Act"@,
        Beat::Attest => "Attest"@,
        Beat::Tick => "Tick"@,
    }
}

impl Beat {
    /// The name of the beat.
    pub fn as_str(self) -> (r: &'static str)
        ensures
            r@ == beat_chars(self),
    {
        match self {
            Beat::Observe => "Observe",
            Beat::Diff => "Diff",
            Beat::Classify => "Classify",
            Beat::Decide => "Decide",
            Beat::Act => "Act",
            Beat::Attest => "Attest",
            Beat::Tick => "Tick",
        }
    }
}

/// Each beat has a name of its own.
pub proof fn law_beat_names(b: Beat)
    ensures
        beat_chars(b) == "Observe"@ <==> b == Beat::Observe,
        beat_chars(b) == "Diff"@ <==> b == Beat::Diff,
        beat_chars(b) == "Classify"@ <==> b == Beat::Classify,
        beat_chars(b) == "Decide"@ <==> b == Beat::Decide,
        beat_chars(b) == "Act"@ <==> b == Beat::Act,
        beat_chars(b) == "Attest"@ <==> b == Beat::Attest,
        beat_chars(b) == "Tick"@ <==> b == Beat::Tick,
{
    reveal_strlit("Observe");
    reveal_strlit("Diff");
    reveal_strlit("Classify");
    reveal_strlit("Decide");
    reveal_strlit("Act");
    reveal_strlit("Attest");
    reveal_strlit("Tick");
    let t = beat_chars(b);
    if t == "Observe"@ {
        assert(t.len() == 7 && t[0] == 'O' && t[1] == 'b');
    }
    if t == "Diff"@ {
        assert(t.len() == 4 && t[0] == 'D' && t[1] == 'i');
    }
    if t == "Classify"@ {
        assert(t.len() == 8 && t[0] == 'C' && t[1] == 'l');
    }
    if t == "Decide"@ {
        assert(t.len() == 6 && t[0] == 'D' && t[1] == 'e');
    }
    if t == "Act"@ {
        assert(t.len() == 3 && t[0] == 'A' && t[1] == 'c');
    }
    if t == "Attest"@ {
        assert(t.len() == 6 && t[0] == 'A' && t[1] == 't');
    }
    if t == "Tick"@ {
        assert(t.len() == 4 && t[0] == 'T' && t[1] == 'i');
    }
}

/// How a beat went.
#[derive(Clone, Copy, Debug, PartialEq, Eq, Structural)]
pub enum BeatStatus {
    Succeeded,
    Skipped,
    Failed,
}

/// The name of a beat's status.
pub open spec fn beat_status_chars(s: BeatStatus) -> Seq<char> {
    match s {
        BeatStatus::Succeeded => "Ok"@,
        BeatStatus::Skipped => "Skipped"@,
        BeatStatus::Failed => "Failed"@,
    }
}

impl BeatStatus {
    /// The name of the status.
    pub fn as_str(self) -> (r: &'static str)
        ensures
            r@ == beat_status_chars(self),
    {
        match self {
            BeatStatus::Succeeded => "Ok",
            BeatStatus::Skipped => "Skipped",
            BeatStatus::Failed => "Failed",
        }
    }
}

/// Each status of a beat has a name of its own.
pub proof fn law_beat_status_names(s: BeatStatus)
    ensures
        beat_status_chars(s) == "Ok"@ <==> s == BeatStatus::Succeeded,
        beat_status_chars(s) == "Skipped"@ <==> s == BeatStatus::Skipped,
        beat_status_chars(s) == "Failed"@ <==> s == BeatStatus::Failed,
{
    reveal_strlit("Ok");
    reveal_strlit("Skipped");
    reveal_strlit("Failed");
    let t = beat_status_chars(s);
    if t == "Ok"@ {
        assert(t.len() == 2 && t[0] == 'O' && t[1] == 'k');
    }
    if t == "Skipped"@ {
        assert(t.len() == 7 && t[0] == 'S' && t[1] == 'k');
    }
    if t == "Failed"@ {
        assert(t.len() == 6 && t[0] == 'F' && t[1] == 'a');
    }
}

/// What came of one beat.
#[derive(Clone, Debug, PartialEq)]
pub struct BeatOutcome {
    pub beat: Beat,
    pub status: BeatStatus,
    pub message: Option<String>,
}

/// What a beat's outcome says.
#[verifier::ext_equal]
pub struct BeatView {
    pub beat: Beat,
    pub status: BeatStatus,
    pub message: Option<Seq<char>>,
}

impl View for BeatOutcome {
    type V = BeatView;

    open spec fn view(&self) -> BeatView {
        BeatView {
            beat: self.beat,
            status: self.status,
            message: text::opt_text(self.message),
        }
    }
}

/// The views of a list of beat outcomes.
pub open spec fn beat_views(s: Seq<BeatOutcome>) -> Seq<BeatView> {
    s.map_values(|b: BeatOutcome| b@)
}

/// Where a tick ended.
#[derive(Clone, Copy, Debug, PartialEq, Eq, Structural)]
pub enum TickPhase {
    /// Nothing to do.
    Stable,
    /// Drift is being corrected.
    Reconverging,
    /// Drift waits for an approval.
    HoldingForApproval,
    /// Someone was notified.
    Escalated,
    /// A beat failed.
    Failed,
}

/// The name of a tick's phase.
pub open spec fn tick_phase_chars(p: TickPhase) -> Seq<char> {
    match p {
        TickPhase::Stable => "Stable"@,
        TickPhase::Reconverging => "Reconverging"@,
        TickPhase::HoldingForApproval => "HoldingForApproval"@,
        TickPhase::Escalated => "Escalated"@,
        TickPhase::Failed => "Failed"@,
    }
}

impl TickPhase {
    /// The name of the phase.
    pub fn as_str(self) -> (r: &'static str)
        ensures
            r@ == tick_phase_chars(self),
    {
        match self {
            TickPhase::Stable => "Stable",
            TickPhase::Reconverging => "Reconverging",
            TickPhase::HoldingForApproval => "HoldingForApproval",
            TickPhase::Escalated => "Escalated",
            TickPhase::Failed => "Failed",
        }
    }
}

/// Each phase of a tick has a name of its own.
pub proof fn law_tick_phase_names(p: TickPhase)
    ensures
        tick_phase_chars(p) == "Stable"@ <==> p == TickPhase::Stable,
        tick_phase_chars(p) == "Reconverging"@ <==> p == TickPhase::Reconverging,
        tick_phase_chars(p) == "HoldingForApproval"@ <==> p == TickPhase::HoldingForApproval,
        tick_phase_chars(p) == "Escalated"@ <==> p == TickPhase::Escalated,
        tick_phase_chars(p) == "Failed"@ <==> p == TickPhase::Failed,
{
    reveal_strlit("Stable");
    reveal_strlit("Reconverging");
    reveal_strlit("HoldingForApproval");
    reveal_strlit("Escalated");
    reveal_strlit("Failed");
    let t = tick_phase_chars(p);
    if t == "Stable"@ {
        assert(t.len() == 6 && t[0] == 'S' && t[1] == 't');
    }
    if t == "Reconverging"@ {
        assert(t.len() == 12 && t[0] == 'R' && t[1] == 'e');
    }
    if t == "HoldingForApproval"@ {
        assert(t.len() == 18 && t[0] == 'H' && t[1] == 'o');
    }
    if t == "Escalated"@ {
        assert(t.len() == 9 && t[0] == 'E' && t[1] == 's');
    }
    if t == "Failed"@ {
        assert(t.len() == 6 && t[0] == 'F' && t[1] == 'a');
    }
}

/// The record of one tick.
#[derive(Clone, Debug, PartialEq)]
pub struct TickReport {
    /// When the tick ended, as an RFC 3339 text.
    pub ended_at: String,
    pub beats: Vec<BeatOutcome>,
    pub final_phase: TickPhase,
    /// How long the decision says to wait, in whole seconds; none where the
    /// tick came to no decision.
    pub requeue_after_secs: Option<i64>,
}

/// Why a beat failed.
#[derive(Clone, Debug, PartialEq)]
pub enum ViggyError {
    Observe(String),
    Diff(String),
    Decide(String),
    Act(String),
    Attest(String),
}

/// What the observe beat hands on.
#[derive(Clone, Debug, PartialEq)]
pub struct ObservedContext {
    pub spec_hash: ContentHash,
}

/// The phase of the resource that a tick's phase stands for.
pub open spec fn resource_phase(p: TickPhase) -> architecture::Phase {
    match p {
        TickPhase::Stable => architecture::Phase::Applied,
        TickPhase::Reconverging => architecture::Phase::Reconverging,
        TickPhase::HoldingForApproval => architecture::Phase::Drifted,
        TickPhase::Escalated => architecture::Phase::Drifted,
        TickPhase::Failed => architecture::Phase::Failed,
    }
}

/// The name of the resource phase that a receipt gets for a tick's phase.
pub fn tick_phase_to_payload_phase(p: TickPhase) -> (r: &'static str)
    ensures
        r@ == architecture::phase_chars(resource_phase(p)),
{
    match p {
        TickPhase::Stable => "Applied",
        TickPhase::Reconverging => "Reconverging",
        TickPhase::HoldingForApproval => "Drifted",
        TickPhase::Escalated => "Drifted",
        TickPhase::Failed => "Failed",
    }
}

/// The first outcome of beat `b`.
pub open spec fn first_beat(beats: Seq<BeatView>, b: Beat) -> Option<BeatView>
    decreases beats.len(),
{
    if beats.len() == 0 {
        None
    } else if beats[0].beat == b {
        Some(beats[0])
    } else {
        first_beat(beats.skip(1), b)
    }
}

/// The number that opens the message of the first diff beat; zero where there
/// is none.
pub open spec fn drifted_count(beats: Seq<BeatView>) -> u32 {
    match first_beat(beats, Beat::Diff) {
        Some(b) => match b.message {
            Some(m) => match text::leading_number(m) {
                Some(n) => n,
                None => 0,
            },
            None => 0,
        },
        None => 0,
    }
}

/// The change summary of a tick: what the diff beat counted, as updates.
pub open spec fn tick_changes(beats: Seq<BeatView>) -> ChangeSummary {
    ChangeSummary { update: drifted_count(beats), ..chain::no_changes() }
}

/// The change summary of a tick.
pub fn change_summary_from_report(report: &TickReport) -> (r: ChangeSummary)
    ensures
        r == tick_changes(beat_views(report.beats@)),
{
    let ghost views = beat_views(report.beats@);
    let mut summary = ChangeSummary::default();
    assert(views.skip(0) =~= views);
    for i in 0..report.beats.len()
        invariant
            views == beat_views(report.beats@),
            summary == chain::no_changes(),
            first_beat(views, Beat::Diff) == first_beat(views.skip(i as int), Beat::Diff),
    {
        let b = &report.beats[i];
        assert(views.skip(i as int)[0] == b@);
        assert(views.skip(i as int).skip(1) =~= views.skip(i as int + 1));
        if b.beat == Beat::Diff {
            if let Some(m) = &b.message {
                if let Some(n) = text::leading_u32(m.as_str()) {
                    summary.update = n;
                }
            }
            return summary;
        }
    }
    summary
}

/// The diagnostics of a tick, one line for each beat.
pub open spec fn beat_lines(beats: Seq<BeatView>) -> Seq<Seq<char>> {
    beats.map_values(
        |b: BeatView|
            attest::diagnostic(beat_chars(b.beat), beat_status_chars(b.status), b.message),
    )
}

/// The diagnostics of a tick, one line for each beat.
pub fn diagnostics_from_report(report: &TickReport) -> (r: Vec<String>)
    ensures
        text::texts(r@) == beat_lines(beat_views(report.beats@)),
{
    let ghost want = beat_lines(beat_views(report.beats@));
    let mut out: Vec<String> = Vec::new();
    for i in 0..report.beats.len()
        invariant
            want == beat_lines(beat_views(report.beats@)),
            text::texts(out@) == want.take(i as int),
    {
        let b = &report.beats[i];
        let line = attest::diagnostic_line(b.beat.as_str(), b.status.as_str(), &b.message);
        assert(line@ == want[i as int]);
        let ghost before = out@;
        out.push(line);
        assert(text::texts(out@) =~= text::texts(before).push(line@));
        assert(want.take(i as int + 1) =~= want.take(i as int).push(want[i as int]));
    }
    assert(want.take(report.beats@.len() as int) =~= want);
    out
}

/// The payload of a tick's receipt.
pub open spec fn tick_payload(
    address: chain::AddressView,
    source_text: Seq<char>,
    beats: Seq<BeatView>,
    final_phase: TickPhase,
) -> PayloadView {
    PayloadView {
        resource: address,
        spec_hash: hash::text_digest(source_text),
        terraform_json_hash: hash::genesis_bytes(),
        plan_id: None,
        phase: architecture::phase_chars(resource_phase(final_phase)),
        change_summary: tick_changes(beats),
        diagnostics: beat_lines(beats),
    }
}

/// The digest of the source text is the same wherever it is told: in the
/// receipt of a phase transition, in that of a tick, and in a drift report.
/// Nothing but the source text enters it.
pub proof fn law_spec_hash_agrees(
    source_text: Seq<char>,
    address: chain::AddressView,
    outcome: crate::reconcile::OutcomeView,
    phase: architecture::Phase,
    beats: Seq<BeatView>,
    final_phase: TickPhase,
    findings: Seq<drift::FindingView>,
    prefixes: Seq<Seq<char>>,
    scanned_at: (i64, u32),
)
    ensures
        attest::phase_payload(address, source_text, outcome, phase).spec_hash == hash::text_digest(
            source_text,
        ),
        tick_payload(address, source_text, beats, final_phase).spec_hash == hash::text_digest(
            source_text,
        ),
        drift::scan_report(findings, prefixes, source_text, scanned_at).spec_hash
            == hash::text_digest(source_text),
{
}

/// What the diff beat counts reaches the receipt: a tick whose diff beat says
/// "`n` drifted field(s)" is attested with `n` updates.
pub proof fn law_drift_count_reaches_receipt(
    n: u32,
    address: chain::AddressView,
    source_text: Seq<char>,
    beats: Seq<BeatView>,
    final_phase: TickPhase,
)
    requires
        first_beat(beats, Beat::Diff) is Some,
        first_beat(beats, Beat::Diff)->0.message == Some(
            text::decimal(n as nat) + " drifted field(s)"@,
        ),
    ensures
        tick_payload(address, source_text, beats, final_phase).change_summary == (ChangeSummary {
            create: 0,
            update: n,
            delete: 0,
            no_op: 0,
        }),
{
    reveal_strlit(" drifted field(s)");
    text::lemma_leading_decimal(n, " drifted field(s)"@);
}

/// The phase of a receipt tells how the tick ended: applied where it was
/// stable, drifted where it waits for someone, failed where it failed.
pub proof fn law_receipt_phase_follows_tick(p: TickPhase)
    ensures
        architecture::phase_chars(resource_phase(p)) == "Applied"@ <==> p == TickPhase::Stable,
        architecture::phase_chars(resource_phase(p)) == "Reconverging"@ <==> p
            == TickPhase::Reconverging,
        architecture::phase_chars(resource_phase(p)) == "Drifted"@ <==> p
            == TickPhase::HoldingForApproval || p == TickPhase::Escalated,
        architecture::phase_chars(resource_phase(p)) == "Failed"@ <==> p == TickPhase::Failed,
{
    architecture::law_phase_names_are_distinct(resource_phase(p), architecture::Phase::Applied);
    architecture::law_phase_names_are_distinct(resource_phase(p), architecture::Phase::Reconverging);
    architecture::law_phase_names_are_distinct(resource_phase(p), architecture::Phase::Drifted);
    architecture::law_phase_names_are_distinct(resource_phase(p), architecture::Phase::Failed);
}

/// What the attest beat answers where the append gave `appended`: a failed
/// append fails the beat with the append's message.
pub fn attested(appended: Result<Receipt, AppendError>) -> (r: Result<(), ViggyError>)
    ensures
        match appended {
            Ok(_) => r is Ok,
            Err(e) => r == Err::<(), ViggyError>(ViggyError::Attest(e.message)),
        },
{
    match appended {
        Ok(_) => Ok(()),
        Err(e) => Err(ViggyError::Attest(e.message)),
    }
}

/// The controller of one resource.
pub struct LavaPromessaController<B: PlannerBackend> {
    pub source_text: String,
    pub source_address: ResourceAddress,
    pub detector: DriftDetector<B>,
}

impl<B: PlannerBackend> LavaPromessaController<B> {
    /// The observe beat: the digest of the source text. It never fails.
    pub fn observe(&self, _source: &ResourceAddress, _bindings: &IndexMap<String, String>) -> (r:
        Result<ObservedContext, ViggyError>)
        ensures
            r is Ok,
            r->Ok_0.spec_hash.0@ == hash::text_digest(self.source_text@),
    {
        Ok(ObservedContext { spec_hash: ContentHash::of(self.source_text.as_str().as_bytes()) })
    }

    /// The diff beat: a scan of the source text. It fails as the planner does.
    pub fn diff(&self, _ctx: &ObservedContext, bindings: &IndexMap<String, String>) -> (r: Result<
        DriftReport,
        ViggyError,
    >)
        ensures
            exists|spec_source: &str| #[trigger]
                spec_source@ == self.source_text@ && match r {
                    Ok(report) => exists|findings: Vec<DriftFinding>| #[trigger]
                        drift::planned(self.detector, spec_source, bindings, Ok(findings))
                            && report@ == drift::scan_report(
                            drift::finding_views(findings@),
                            text::texts(self.detector.cosmetic_attribute_prefixes@),
                            self.source_text@,
                            report.scanned_at,
                        ),
                    Err(e) => exists|cause: drift::PlannerError| #[trigger]
                        drift::planned(self.detector, spec_source, bindings, Err(cause))
                            && e is Diff && e->Diff_0@ == drift::planner_error_text(cause),
                },
    {
        let spec_source = self.source_text.as_str();
        assert(spec_source@ == self.source_text@);
        match self.detector.scan(spec_source, bindings) {
            Ok(report) => Ok(report),
            Err(e) => Err(ViggyError::Diff(e.message())),
        }
    }

    /// The attest beat: appends one receipt of the tick to the chain.
    pub fn attest(&self, chain: &mut OutcomeChain, report: &TickReport) -> (r: Result<
        (),
        ViggyError,
    >)
        ensures
            r is Ok,
            exists|receipt: chain::ReceiptView| #[trigger]
                chain::is_next_receipt(
                    chain::chain_receipts(*old(chain)),
                    receipt,
                    tick_payload(
                        self.source_address@,
                        self.source_text@,
                        beat_views(report.beats@),
                        report.final_phase,
                    ),
                ) && chain::chain_receipts(*final(chain)) == chain::chain_receipts(
                    *old(chain),
                ).push(receipt),
            chain::is_linked(chain::chain_receipts(*old(chain))) ==> chain::is_linked(
                chain::chain_receipts(*final(chain)),
            ),
    {
        attested(chain.append(self.payload_of(report)))
    }

    /// The attest beat on a chain behind a lock: where the lock is poisoned,
    /// the beat fails with the lock's error and appends nothing.
    pub fn attest_locked(
        &self,
        chain: Result<&mut OutcomeChain, String>,
        report: &TickReport,
    ) -> (r: Result<(), ViggyError>)
        ensures
            match chain {
                Ok(c) => r is Ok && exists|receipt: chain::ReceiptView| #[trigger]
                    chain::is_next_receipt(
                        chain::chain_receipts(*c),
                        receipt,
                        tick_payload(
                            self.source_address@,
                            self.source_text@,
                            beat_views(report.beats@),
                            report.final_phase,
                        ),
                    ) && chain::chain_receipts(*final(c)) == chain::chain_receipts(*c).push(
                        receipt,
                    ) && (chain::is_linked(chain::chain_receipts(*c)) ==> chain::is_linked(
                        chain::chain_receipts(*final(c)),
                    )),
                Err(e) => r matches Err(ViggyError::Attest(m)) && m@ == "chain mutex poisoned: "@
                    + e@,
            },
    {
        match chain {
            Ok(c) => self.attest(c, report),
            Err(e) => Err(
                ViggyError::Attest("chain mutex poisoned: ".to_owned().concat(e.as_str())),
            ),
        }
    }

    /// The payload of a tick's receipt, not yet sealed.
    pub fn payload_of(&self, report: &TickReport) -> (r: OutcomePayload)
        ensures
            r@ == tick_payload(
                self.source_address@,
                self.source_text@,
                beat_views(report.beats@),
                report.final_phase,
            ),
            r.phase@ == "Applied"@ <==> report.final_phase == TickPhase::Stable,
            r.phase@ == "Reconverging"@ <==> report.final_phase == TickPhase::Reconverging,
            r.phase@ == "Drifted"@ <==> report.final_phase == TickPhase::HoldingForApproval
                || report.final_phase == TickPhase::Escalated,
            r.phase@ == "Failed"@ <==> report.final_phase == TickPhase::Failed,
            r.diagnostics@.len() == report.beats@.len(),
    {
        proof {
            law_receipt_phase_follows_tick(report.final_phase);
            assert(beat_lines(beat_views(report.beats@)).len() == report.beats@.len());
        }
        OutcomePayload {
            resource: self.source_address.clone(),
            spec_hash: ContentHash::of(self.source_text.as_str().as_bytes()),
            terraform_json_hash: ContentHash::genesis(),
            plan_id: None,
            phase: tick_phase_to_payload_phase(report.final_phase).to_owned(),
            change_summary: change_summary_from_report(report),
            diagnostics: diagnostics_from_report(report),
        }
    }
}

/// The first outcome of a beat is one of that beat, and none before it is; there
/// is none only where no outcome is of that beat.
pub proof fn law_first_beat_is_found(beats: Seq<BeatView>, b: Beat)
    ensures
        first_beat(beats, b) is None <==> forall|i: int|
            0 <= i < beats.len() ==> (#[trigger] beats[i]).beat != b,
        first_beat(beats, b) is Some ==> exists|i: int|
            0 <= i < beats.len() && #[trigger] beats[i] == first_beat(beats, b)->0
                && beats[i].beat == b && forall|j: int|
                0 <= j < i ==> (#[trigger] beats[j]).beat != b,
    decreases beats.len(),
{
    if beats.len() > 0 && beats[0].beat != b {
        let rest = beats.skip(1);
        law_first_beat_is_found(rest, b);
        assert forall|i: int| 0 <= i < rest.len() implies #[trigger] rest[i] == beats[i + 1] by {
        }
        if first_beat(beats, b) is Some {
            let i = choose|i: int|
                0 <= i < rest.len() && #[trigger] rest[i] == first_beat(rest, b)->0 && rest[i].beat
                    == b && forall|j: int| 0 <= j < i ==> (#[trigger] rest[j]).beat != b;
            assert(beats[i + 1] == first_beat(beats, b)->0);
            assert forall|j: int| 0 <= j < i + 1 implies (#[trigger] beats[j]).beat != b by {
                if j > 0 {
                    assert(rest[j - 1] == beats[j]);
                }
            }
        } else {
            assert forall|i: int| 0 <= i < beats.len() implies (#[trigger] beats[i]).beat != b by {
                if i > 0 {
                    assert(rest[i - 1] == beats[i]);
                }
            }
        }
    } else if beats.len() > 0 {
        assert(beats[0] == first_beat(beats, b)->0);
    }
}

/// Only updates are counted. Their number is what opens the message of the diff
/// beat, of the first one where there are several, and zero where there is no
/// such beat, no message or no number in it.
pub proof fn law_only_updates_are_counted(beats: Seq<BeatOutcome>, i: int)
    requires
        0 <= i < beats.len(),
        beats[i].beat == Beat::Diff,
        forall|j: int| 0 <= j < i ==> (#[trigger] beats[j]).beat != Beat::Diff,
    ensures
        tick_changes(beat_views(beats)).create == 0,
        tick_changes(beat_views(beats)).delete == 0,
        tick_changes(beat_views(beats)).no_op == 0,
        beats[i].message is None ==> tick_changes(beat_views(beats)).update == 0,
        beats[i].message matches Some(m) ==> tick_changes(beat_views(beats)).update == (
        match text::leading_number(m@) {
            Some(n) => n,
            None => 0,
        }),
{
    let views = beat_views(beats);
    law_first_beat_is_found(views, Beat::Diff);
    assert forall|k: int| 0 <= k < views.len() implies #[trigger] views[k] == beats[k]@ by {
    }
    assert(views[i].beat == Beat::Diff);
    let k = choose|k: int|
        0 <= k < views.len() && #[trigger] views[k] == first_beat(views, Beat::Diff)->0
            && views[k].beat == Beat::Diff && forall|j: int|
            0 <= j < k ==> (#[trigger] views[j]).beat != Beat::Diff;
    assert(beats[k].beat == Beat::Diff);
    assert(k == i) by {
        if i < k {
            assert(views[i].beat != Beat::Diff);
        }
    }
}

/// A tick without a diff beat counts no changes.
pub proof fn law_nothing_is_counted_without_a_diff(beats: Seq<BeatOutcome>)
    requires
        forall|j: int| 0 <= j < beats.len() ==> (#[trigger] beats[j]).beat != Beat::Diff,
    ensures
        tick_changes(beat_views(beats)) == (ChangeSummary {
            create: 0,
            update: 0,
            delete: 0,
            no_op: 0,
        }),
{
    law_first_beat_is_found(beat_views(beats), Beat::Diff);
    assert forall|i: int| 0 <= i < beat_views(beats).len() implies (#[trigger] beat_views(
        beats,
    )[i]).beat != Beat::Diff by {
        assert(beat_views(beats)[i] == beats[i]@);
    }
}

/// The payload of a tick is about the controller's resource and attests the
/// digest of its source text, no rendered text and no plan. It names the
/// resource's phase, and holds one line of diagnostics for each beat: the
/// beat's name, its status, and its message in brackets where it has one.
pub proof fn law_tick_payload_tells_the_tick(
    address: ResourceAddress,
    source_text: Seq<char>,
    report: TickReport,
    r: OutcomePayload,
)
    requires
        r@ == tick_payload(
            address@,
            source_text,
            beat_views(report.beats@),
            report.final_phase,
        ),
    ensures
        r.resource.cluster@ == address.cluster@,
        r.resource.namespace@ == address.namespace@,
        r.resource.name@ == address.name@,
        r.spec_hash.0@ == hash::blake3_digest(vstd::utf8::encode_utf8(source_text)),
        forall|i: int| 0 <= i < 32 ==> #[trigger] r.terraform_json_hash.0@[i] == 0,
        r.plan_id is None,
        r.phase@ == "Applied"@ <==> report.final_phase == TickPhase::Stable,
        r.phase@ == "Reconverging"@ <==> report.final_phase == TickPhase::Reconverging,
        r.phase@ == "Drifted"@ <==> report.final_phase == TickPhase::HoldingForApproval
            || report.final_phase == TickPhase::Escalated,
        r.phase@ == "Failed"@ <==> report.final_phase == TickPhase::Failed,
        r.change_summary == tick_changes(beat_views(report.beats@)),
        r.diagnostics@.len() == report.beats@.len(),
        forall|i: int|
            0 <= i < report.beats@.len() ==> (#[trigger] r.diagnostics@[i])@ == (
            match report.beats@[i].message {
                Some(m) => beat_chars(report.beats@[i].beat) + "="@ + beat_status_chars(
                    report.beats@[i].status,
                ) + " ("@ + m@ + ")"@,
                None => beat_chars(report.beats@[i].beat) + "="@ + beat_status_chars(
                    report.beats@[i].status,
                ),
            }),
{
    law_receipt_phase_follows_tick(report.final_phase);
    let beats = report.beats@;
    let want = beat_lines(beat_views(beats));
    assert(text::texts(r.diagnostics@).len() == r.diagnostics@.len());
    assert(want.len() == beats.len());
    assert forall|i: int| 0 <= i < beats.len() implies (#[trigger] r.diagnostics@[i])@ == (
    match beats[i].message {
        Some(m) => beat_chars(beats[i].beat) + "="@ + beat_status_chars(beats[i].status) + " ("@
            + m@ + ")"@,
        None => beat_chars(beats[i].beat) + "="@ + beat_status_chars(beats[i].status),
    }) by {
        assert(text::texts(r.diagnostics@)[i] == r.diagnostics@[i]@);
        let b = beats[i];
        let (name, status) = (beat_chars(b.beat), beat_status_chars(b.status));
        assert(beat_views(beats)[i] == b@);
        assert(want[i] == attest::diagnostic(name, status, text::opt_text(b.message)));
        match b.message {
            Some(m) => {
                assert(attest::diagnostic(name, status, Some(m@)) =~= name + "="@ + status + " ("@
                    + m@ + ")"@);
            },
            None => {
                assert(attest::diagnostic(name, status, None) =~= name + "="@ + status);
            },
        }
    }
}

/// A list of beat outcomes is told outcome by outcome, in its order, and each by
/// what it holds.
pub proof fn law_beats_are_told_in_order(s: Seq<BeatOutcome>, i: int)
    requires
        0 <= i < s.len(),
    ensures
        beat_views(s).len() == s.len(),
        beat_views(s)[i].beat == s[i].beat,
        beat_views(s)[i].status == s[i].status,
        beat_views(s)[i].message is Some <==> s[i].message is Some,
        s[i].message is Some ==> beat_views(s)[i].message->0 == s[i].message->0@,
{
}

} // verus!
