//! Anomalies, the policy that says what to do about them, and its router.

use self::RemediationAction::{Alert, AutoCorrect, Escalate, NoOp, RequireApproval};
use crate::chain::{AddressView, ResourceAddress};
use crate::drift::Severity;
use crate::hash::ContentHash;
use crate::bindings;
use lava_anomaly::RemediationAction::{
    Alert as LavaAlert, AutoCorrect as LavaAutoCorrect, Escalate as LavaEscalate, NoOp as LavaNoOp,
    RequireApproval as LavaRequireApproval,
};
use lava_anomaly::{
    AnomalyKind as LavaKind, AnomalyPayload as RawPayload, AnomalyRouter as LavaRouter,
    LavaAnomaly as RawAnomaly, RemediationPolicy as LavaPolicy, RouterError as LavaRouterError,
    RoutingDecision as RawDecision,
};
use lava_drift::Severity as LavaSeverity;
use lava_outcome_chain::ResourceAddress as LavaAddress;
use vstd::prelude::*;
use vstd::string::*;

verus! {

/// What an anomaly is about.
#[derive(Clone, Copy, Debug, PartialEq, Eq, Structural)]
pub enum AnomalyKind {
    DriftDetected,
    SynthesisFailure,
    ApplyFailure,
    DependencyBlocked,
    PolicyViolation,
    Custom,
}

/// What to do about an anomaly.
#[derive(Clone, Copy, Debug, PartialEq, Eq, Structural)]
pub enum RemediationAction {
    /// Nothing.
    NoOp,
    /// Tell the operator.
    Alert,
    /// Correct it.
    AutoCorrect,
    /// Wait for an approval.
    RequireApproval,
    /// Walk the escalation ladder.
    Escalate,
}

/// The escalation ladder of the `lava_anomaly` crate.
#[verifier::external_type_specification]
#[verifier::external_body]
pub struct ExEscalationLadder(lava_anomaly::EscalationLadder);

/// One tier of an escalation ladder.
#[verifier::external_type_specification]
#[verifier::external_body]
pub struct ExEscalationTier(lava_anomaly::EscalationTier);

/// The anomaly of the `lava_anomaly` crate.
#[verifier::external_type_specification]
#[verifier::external_body]
pub struct ExRawAnomaly(RawAnomaly);

/// The routing decision of the `lava_anomaly` crate.
#[verifier::external_type_specification]
#[verifier::external_body]
pub struct ExRawDecision(RawDecision);

/// The anomaly payload of the `lava_anomaly` crate.
#[verifier::external_type_specification]
#[verifier::external_body]
pub struct ExRawPayload(RawPayload);

/// The tiers of a ladder, the first one first.
pub uninterp spec fn ladder_tiers(l: lava_anomaly::EscalationLadder) -> Seq<
    lava_anomaly::EscalationTier,
>;

/// The digest of an anomaly.
pub uninterp spec fn anomaly_digest(a: AnomalyView) -> Seq<u8>;

/// What the fields of an anomaly of the `lava_anomaly` crate say.
pub uninterp spec fn anomaly_fields(a: RawAnomaly) -> AnomalyView;

/// What the fields of a routing decision of the `lava_anomaly` crate say.
pub uninterp spec fn decision_fields(d: RawDecision) -> DecisionView;

/// What the fields of an anomaly payload of the `lava_anomaly` crate say.
pub uninterp spec fn payload_fields(p: RawPayload) -> AnomalyPayloadView;

/// The anomaly and the decision in an anomaly payload of the `lava_anomaly`
/// crate.
pub uninterp spec fn payload_parts(p: RawPayload) -> (RawAnomaly, RawDecision);

/// `lava_anomaly::EscalationLadder::clone`: the same ladder.
#[verifier::external_body]
fn copy_ladder(l: &lava_anomaly::EscalationLadder) -> (r: lava_anomaly::EscalationLadder)
    ensures
        r == *l,
{
    l.clone()
}

/// `lava_anomaly::EscalationTier::clone`: the same tier.
#[verifier::external_body]
fn copy_tier(t: &lava_anomaly::EscalationTier) -> (r: lava_anomaly::EscalationTier)
    ensures
        r == *t,
{
    t.clone()
}

/// `lava_anomaly::LavaAnomaly::clone`: the same anomaly.
#[verifier::external_body]
fn copy_anomaly(a: &RawAnomaly) -> (r: RawAnomaly)
    ensures
        r == *a,
{
    a.clone()
}

/// `lava_anomaly::RoutingDecision::clone`: the same decision.
#[verifier::external_body]
fn copy_decision(d: &RawDecision) -> (r: RawDecision)
    ensures
        r == *d,
{
    d.clone()
}

/// `lava_anomaly::AnomalyPayload::clone`: the same payload.
#[verifier::external_body]
fn copy_payload(p: &RawPayload) -> (r: RawPayload)
    ensures
        r == *p,
{
    p.clone()
}

/// An action for each severity, and the ladder that an escalation walks.
#[derive(Debug, PartialEq, Eq)]
pub struct RemediationPolicy {
    pub cosmetic: RemediationAction,
    pub functional: RemediationAction,
    pub critical: RemediationAction,
    pub escalation: Option<lava_anomaly::EscalationLadder>,
}

impl Clone for RemediationPolicy {
    fn clone(&self) -> (r: RemediationPolicy)
        ensures
            r == *self,
    {
        RemediationPolicy {
            cosmetic: self.cosmetic,
            functional: self.functional,
            critical: self.critical,
            escalation: match &self.escalation {
                Some(l) => Some(copy_ladder(l)),
                None => None,
            },
        }
    }
}

/// The action that a policy has for a severity.
pub open spec fn policy_action(p: RemediationPolicy, s: Severity) -> RemediationAction {
    match s {
        Severity::Cosmetic => p.cosmetic,
        Severity::Functional => p.functional,
        Severity::Critical => p.critical,
    }
}

/// The policy of an operator who wrote none: tell about cosmetic drift,
/// correct functional drift, ask before critical changes.
pub open spec fn is_default_policy(p: RemediationPolicy) -> bool {
    &&& p.cosmetic == RemediationAction::Alert
    &&& p.functional == RemediationAction::AutoCorrect
    &&& p.critical == RemediationAction::RequireApproval
    &&& p.escalation is None
}

impl Default for RemediationPolicy {
    fn default() -> (r: RemediationPolicy)
        ensures
            is_default_policy(r),
    {
        RemediationPolicy {
            cosmetic: RemediationAction::Alert,
            functional: RemediationAction::AutoCorrect,
            critical: RemediationAction::RequireApproval,
            escalation: None,
        }
    }
}

/// How long to wait before looking again after an action, in seconds.
pub open spec fn requeue_seconds(a: RemediationAction) -> int {
    match a {
        RemediationAction::NoOp => 600,
        RemediationAction::Alert => 300,
        RemediationAction::AutoCorrect => 30,
        RemediationAction::RequireApproval => 120,
        RemediationAction::Escalate => 60,
    }
}

/// An anomaly: what is wrong with which resource, and how bad it is.
#[derive(Debug, PartialEq, Eq)]
pub struct LavaAnomaly {
    kind: AnomalyKind,
    severity: Severity,
    source: ResourceAddress,
    message: String,
    emitted_at: String,
    metadata: Vec<(String, String)>,
    /// The same anomaly as the `lava_anomaly` crate has it.
    raw: RawAnomaly,
}

/// What an anomaly says.
#[verifier::ext_equal]
pub struct AnomalyView {
    pub kind: AnomalyKind,
    pub severity: Severity,
    pub source: AddressView,
    pub message: Seq<char>,
    /// When it was emitted, as an RFC 3339 text.
    pub emitted_at: Seq<char>,
    pub metadata: Seq<(Seq<char>, Seq<char>)>,
}

impl View for LavaAnomaly {
    type V = AnomalyView;

    closed spec fn view(&self) -> AnomalyView {
        AnomalyView {
            kind: self.kind,
            severity: self.severity,
            source: self.source@,
            message: self.message@,
            emitted_at: self.emitted_at@,
            metadata: bindings::pair_texts(self.metadata@),
        }
    }
}

impl LavaAnomaly {
    /// The anomaly as the `lava_anomaly` crate has it.
    pub closed spec fn raw_anomaly(&self) -> RawAnomaly {
        self.raw
    }

    /// The crate's anomaly says the same.
    #[verifier::type_invariant]
    spec fn agrees(self) -> bool {
        anomaly_fields(self.raw) == self@
    }

    /// `lava_anomaly::LavaAnomaly::new`: an anomaly with these fields and no
    /// metadata, emitted at the machine's time. The crate's anomaly is kept.
    #[verifier::external_body]
    fn new_raw(
        kind: AnomalyKind,
        severity: Severity,
        source: ResourceAddress,
        message: String,
    ) -> (r: LavaAnomaly)
        ensures
            r@.kind == kind,
            r@.severity == severity,
            r@.source == source@,
            r@.message == message@,
            r@.metadata == Seq::<(Seq<char>, Seq<char>)>::empty(),
            anomaly_fields(r.raw_anomaly()) == r@,
    {
        let k = match kind {
            AnomalyKind::DriftDetected => LavaKind::DriftDetected,
            AnomalyKind::SynthesisFailure => LavaKind::SynthesisFailure,
            AnomalyKind::ApplyFailure => LavaKind::ApplyFailure,
            AnomalyKind::DependencyBlocked => LavaKind::DependencyBlocked,
            AnomalyKind::PolicyViolation => LavaKind::PolicyViolation,
            AnomalyKind::Custom => LavaKind::Custom };
        let s = match severity {
            Severity::Cosmetic => LavaSeverity::Cosmetic,
            Severity::Functional => LavaSeverity::Functional,
            Severity::Critical => LavaSeverity::Critical };
        let address = LavaAddress::new(&source.cluster, &source.namespace, &source.name);
        let raw = RawAnomaly::new(k, s, address, &message);
        let (emitted_at, metadata) = (raw.emitted_at.to_rfc3339(), Vec::new());
        LavaAnomaly { kind, severity, source, message, emitted_at, metadata, raw }
    }

    /// `lava_anomaly::LavaAnomaly::with_metadata`: a key that is there gets
    /// the new value, a new key comes last; nothing else changes.
    #[verifier::external_body]
    fn with_metadata_raw(self, key: String, value: String) -> (r: LavaAnomaly)
        requires
            anomaly_fields(self.raw_anomaly()) == self@,
        ensures
            anomaly_fields(r.raw_anomaly()) == r@,
            r@ == (AnomalyView { metadata: bindings::put(self@.metadata, key@, value@), ..self@ }),
    {
        let raw = self.raw.with_metadata(key, value);
        let metadata = raw.metadata.iter().map(|(k, v)| (k.clone(), v.clone())).collect();
        LavaAnomaly { raw, metadata, ..self }
    }

    /// An anomaly without metadata.
    pub fn new(
        kind: AnomalyKind,
        severity: Severity,
        source: ResourceAddress,
        message: String,
    ) -> (r: LavaAnomaly)
        ensures
            r@.kind == kind,
            r@.severity == severity,
            r@.source == source@,
            r@.message == message@,
            r@.metadata == Seq::<(Seq<char>, Seq<char>)>::empty(),
            anomaly_fields(r.raw_anomaly()) == r@,
    {
        LavaAnomaly::new_raw(kind, severity, source, message)
    }

    /// The anomaly with one more piece of metadata.
    pub fn with_metadata(self, key: String, value: String) -> (r: LavaAnomaly)
        ensures
            r@ == (AnomalyView { metadata: bindings::put(self@.metadata, key@, value@), ..self@ }),
            anomaly_fields(r.raw_anomaly()) == r@,
    {
        proof {
            use_type_invariant(&self);
        }
        self.with_metadata_raw(key, value)
    }

    /// What the anomaly is about.
    pub fn kind(&self) -> (r: AnomalyKind)
        ensures
            r == self@.kind,
    {
        self.kind
    }

    /// How bad the anomaly is.
    pub fn severity(&self) -> (r: Severity)
        ensures
            r == self@.severity,
    {
        self.severity
    }

    /// The resource that the anomaly is about.
    pub fn source(&self) -> (r: &ResourceAddress)
        ensures
            r@ == self@.source,
    {
        &self.source
    }

    /// What is wrong.
    pub fn message(&self) -> (r: &String)
        ensures
            r@ == self@.message,
    {
        &self.message
    }

    /// When the anomaly was emitted, as an RFC 3339 text.
    pub fn emitted_at(&self) -> (r: &String)
        ensures
            r@ == self@.emitted_at,
    {
        &self.emitted_at
    }

    /// The anomaly as the `lava_anomaly` crate has it, for a router of that crate.
    pub fn as_raw(&self) -> (r: &RawAnomaly)
        ensures
            *r == self.raw_anomaly(),
            anomaly_fields(*r) == self@,
    {
        proof {
            use_type_invariant(self);
        }
        &self.raw
    }

    /// The metadata, in the order in which the keys came.
    pub fn metadata(&self) -> (r: &Vec<(String, String)>)
        ensures
            bindings::pair_texts(r@) == self@.metadata,
    {
        &self.metadata
    }
}

impl Clone for LavaAnomaly {
    fn clone(&self) -> (r: LavaAnomaly)
        ensures
            r@ == self@,
            r.raw_anomaly() == self.raw_anomaly(),
    {
        proof {
            use_type_invariant(self);
        }
        let mut metadata: Vec<(String, String)> = Vec::new();
        for i in 0..self.metadata.len()
            invariant
                metadata@ == self.metadata@.take(i as int),
        {
            metadata.push((self.metadata[i].0.clone(), self.metadata[i].1.clone()));
            assert(self.metadata@.take(i as int + 1) =~= self.metadata@.take(i as int).push(
                self.metadata@[i as int],
            ));
        }
        assert(self.metadata@.take(self.metadata@.len() as int) =~= self.metadata@);
        LavaAnomaly {
            kind: self.kind,
            severity: self.severity,
            source: self.source.clone(),
            message: self.message.clone(),
            emitted_at: self.emitted_at.clone(),
            metadata,
            raw: copy_anomaly(&self.raw),
        }
    }
}

/// What a router decided.
#[derive(Debug, PartialEq, Eq)]
pub struct RoutingDecision {
    action: RemediationAction,
    requeue_after_secs: i64,
    escalation: Option<lava_anomaly::EscalationTier>,
    /// The same decision as the `lava_anomaly` crate has it.
    raw: RawDecision,
}

/// What a decision says.
pub struct DecisionView {
    pub action: RemediationAction,
    /// How long to wait before looking again, in whole seconds.
    pub requeue_after_secs: int,
    /// The tier to notify, where the action is to escalate.
    pub escalation: Option<lava_anomaly::EscalationTier>,
}

impl View for RoutingDecision {
    type V = DecisionView;

    closed spec fn view(&self) -> DecisionView {
        DecisionView {
            action: self.action,
            requeue_after_secs: self.requeue_after_secs as int,
            escalation: self.escalation,
        }
    }
}

impl RoutingDecision {
    /// The decision as the `lava_anomaly` crate has it.
    pub closed spec fn raw_decision(&self) -> RawDecision {
        self.raw
    }

    /// The crate's decision says the same.
    #[verifier::type_invariant]
    spec fn agrees(self) -> bool {
        decision_fields(self.raw) == self@
    }

    /// What to do.
    pub fn action(&self) -> (r: RemediationAction)
        ensures
            r == self@.action,
    {
        self.action
    }

    /// How long to wait before looking again, in whole seconds.
    pub fn requeue_after_secs(&self) -> (r: i64)
        ensures
            r == self@.requeue_after_secs,
    {
        self.requeue_after_secs
    }

    /// The tier to notify, where the action is to escalate.
    pub fn escalation(&self) -> (r: &Option<lava_anomaly::EscalationTier>)
        ensures
            *r == self@.escalation,
    {
        &self.escalation
    }

    /// The fields of a `lava_anomaly::RoutingDecision`: its action, its wait in
    /// whole seconds and its tier are a function of the decision.
    #[verifier::external_body]
    fn read(raw: RawDecision) -> (r: RoutingDecision)
        ensures
            r@ == decision_fields(raw),
            r.raw_decision() == raw,
    {
        let action = match raw.action {
            LavaNoOp => NoOp,
            LavaAlert => Alert,
            LavaAutoCorrect => AutoCorrect,
            LavaRequireApproval => RequireApproval,
            LavaEscalate => Escalate,
        };
        let requeue_after_secs = raw.requeue_after.num_seconds();
        RoutingDecision { action, requeue_after_secs, escalation: raw.escalation.clone(), raw }
    }

    /// The decision of a router of the `lava_anomaly` crate.
    pub fn from_raw(raw: RawDecision) -> (r: RoutingDecision)
        ensures
            r@ == decision_fields(raw),
            r.raw_decision() == raw,
    {
        RoutingDecision::read(raw)
    }
}

impl Clone for RoutingDecision {
    fn clone(&self) -> (r: RoutingDecision)
        ensures
            r@ == self@,
            r.raw_decision() == self.raw_decision(),
            decision_fields(r.raw_decision()) == r@,
    {
        proof {
            use_type_invariant(self);
        }
        RoutingDecision {
            action: self.action,
            requeue_after_secs: self.requeue_after_secs,
            escalation: match &self.escalation {
                Some(t) => Some(copy_tier(t)),
                None => None,
            },
            raw: copy_decision(&self.raw),
        }
    }
}

/// Why a router could not decide.
#[derive(Clone, Debug, PartialEq)]
pub enum RouterError {
    Escalation(String),
}

/// Decides what to do about an anomaly under a policy.
pub trait AnomalyRouter {
    /// The decision.
    fn route(&self, anomaly: &LavaAnomaly, policy: &RemediationPolicy) -> Result<
        RoutingDecision,
        RouterError,
    >;
}

/// What the policy decides about an anomaly of severity `s` where its ladder
/// has `tiers`: an escalation notifies the first tier, and there is no
/// decision where there is none to notify.
pub open spec fn decision_with(
    p: RemediationPolicy,
    s: Severity,
    tiers: Seq<lava_anomaly::EscalationTier>,
) -> Option<DecisionView> {
    let action = policy_action(p, s);
    if action != RemediationAction::Escalate {
        Some(
            DecisionView {
                action,
                requeue_after_secs: requeue_seconds(action),
                escalation: None,
            },
        )
    } else if tiers.len() > 0 {
        Some(
            DecisionView {
                action,
                requeue_after_secs: requeue_seconds(action),
                escalation: Some(tiers[0]),
            },
        )
    } else {
        None
    }
}

/// What the policy decides about an anomaly of severity `s`: none where it
/// says to escalate and has no tier to notify.
pub open spec fn policy_decision(p: RemediationPolicy, s: Severity) -> Option<DecisionView> {
    match p.escalation {
        Some(l) => decision_with(p, s, ladder_tiers(l)),
        None => decision_with(p, s, Seq::empty()),
    }
}

/// Is `r` the router's answer for the decision `d`?
pub open spec fn is_answer(
    r: Result<RoutingDecision, RouterError>,
    d: Option<DecisionView>,
) -> bool {
    match d {
        Some(d) => r is Ok && r->Ok_0@ == d && decision_fields(r->Ok_0.raw_decision()) == d,
        None => r matches Err(RouterError::Escalation(m)) && m@ == "Escalate set but no ladder"@,
    }
}

/// The default policy decides about every anomaly: it tells about a cosmetic
/// one, corrects a functional one and asks before a critical one.
pub proof fn law_default_policy_decides(p: RemediationPolicy, s: Severity)
    requires
        is_default_policy(p),
    ensures
        policy_decision(p, s) == Some(
            DecisionView {
                action: match s {
                    Severity::Cosmetic => RemediationAction::Alert,
                    Severity::Functional => RemediationAction::AutoCorrect,
                    Severity::Critical => RemediationAction::RequireApproval,
                },
                requeue_after_secs: match s {
                    Severity::Cosmetic => 300,
                    Severity::Functional => 30,
                    Severity::Critical => 120,
                },
                escalation: None,
            },
        ),
{
}

/// A policy without a ladder fails to decide exactly where it says to escalate.
pub proof fn law_escalation_needs_a_ladder(p: RemediationPolicy, s: Severity)
    requires
        p.escalation is None,
    ensures
        policy_decision(p, s) is None <==> policy_action(p, s) == RemediationAction::Escalate,
{
}

/// The router that goes by the policy alone.
#[derive(Clone, Copy, Debug)]
pub struct PolicyRouter;

/// `lava_anomaly::PolicyRouter::route`: the policy's action for the anomaly's
/// severity, the wait that goes with the action and, for an escalation, the
/// first tier of the ladder. It fails exactly where the action is to escalate
/// and the policy has no ladder or an empty one.
#[verifier::external_body]
fn policy_route(anomaly: &LavaAnomaly, policy: &RemediationPolicy) -> (r: Result<
    RoutingDecision,
    RouterError,
>)
    requires
        anomaly_fields(anomaly.raw_anomaly()) == anomaly@,
    ensures
        policy.escalation matches Some(l) ==> is_answer(
            r,
            decision_with(*policy, anomaly@.severity, ladder_tiers(l)),
        ),
        policy.escalation is None ==> is_answer(
            r,
            decision_with(*policy, anomaly@.severity, Seq::empty()),
        ),
{
    let to = |a| match a { NoOp => LavaNoOp, Alert => LavaAlert, AutoCorrect => LavaAutoCorrect,
        RequireApproval => LavaRequireApproval, Escalate => LavaEscalate };
    let of = |a| match a { LavaNoOp => NoOp, LavaAlert => Alert, LavaAutoCorrect => AutoCorrect,
        LavaRequireApproval => RequireApproval, LavaEscalate => Escalate };
    let p = LavaPolicy { cosmetic: to(policy.cosmetic), functional: to(policy.functional),
        critical: to(policy.critical), escalation: policy.escalation.clone() };
    let raw = lava_anomaly::PolicyRouter.route(&anomaly.raw, &p)
        .map_err(|LavaRouterError::Escalation(m)| RouterError::Escalation(m))?;
    let (action, requeue_after_secs) = (of(raw.action), raw.requeue_after.num_seconds());
    Ok(RoutingDecision { action, requeue_after_secs, escalation: raw.escalation.clone(), raw })
}

impl AnomalyRouter for PolicyRouter {
    fn route(&self, anomaly: &LavaAnomaly, policy: &RemediationPolicy) -> (r: Result<
        RoutingDecision,
        RouterError,
    >)
        ensures
            is_answer(r, policy_decision(*policy, anomaly@.severity)),
    {
        proof {
            use_type_invariant(anomaly);
        }
        policy_route(anomaly, policy)
    }
}

/// An anomaly with the decision about it, ready for a chain.
#[derive(Debug, PartialEq, Eq)]
pub struct AnomalyPayload {
    anomaly: LavaAnomaly,
    decision: RoutingDecision,
    anomaly_hash: ContentHash,
    /// The same payload as the `lava_anomaly` crate has it.
    raw: RawPayload,
}

/// What a payload says.
pub struct AnomalyPayloadView {
    pub anomaly: AnomalyView,
    pub decision: DecisionView,
    pub anomaly_hash: Seq<u8>,
}

impl View for AnomalyPayload {
    type V = AnomalyPayloadView;

    closed spec fn view(&self) -> AnomalyPayloadView {
        AnomalyPayloadView {
            anomaly: self.anomaly@,
            decision: self.decision@,
            anomaly_hash: self.anomaly_hash.0@,
        }
    }
}

impl AnomalyPayload {
    /// The payload as the `lava_anomaly` crate has it.
    pub closed spec fn raw_payload(&self) -> RawPayload {
        self.raw
    }

    /// The crate's payload says the same, of the crate's anomaly and decision.
    #[verifier::type_invariant]
    spec fn agrees(self) -> bool {
        &&& payload_fields(self.raw) == self@
        &&& payload_parts(self.raw) == (self.anomaly.raw, self.decision.raw)
    }

    /// `lava_anomaly::AnomalyPayload::from`: the anomaly and the decision as
    /// they are, to the last field, with the digest of the anomaly, which is a
    /// function of what the anomaly says. It never fails: an anomaly holds
    /// texts, and a map with texts for keys, which `serde_json` can always
    /// encode.
    #[verifier::external_body]
    fn seal(anomaly: LavaAnomaly, decision: RoutingDecision) -> (r: Result<
        AnomalyPayload,
        serde_json::Error,
    >)
        requires
            anomaly_fields(anomaly.raw_anomaly()) == anomaly@,
            decision_fields(decision.raw_decision()) == decision@,
        ensures
            r is Ok,
            r->Ok_0.anomaly == anomaly,
            r->Ok_0.decision == decision,
            payload_fields(r->Ok_0.raw_payload()) == r->Ok_0@,
            payload_parts(r->Ok_0.raw_payload()) == (
                anomaly.raw_anomaly(),
                decision.raw_decision(),
            ),
            r->Ok_0@ == (AnomalyPayloadView {
                anomaly: anomaly@,
                decision: decision@,
                anomaly_hash: anomaly_digest(anomaly@),
            }),
    {
        let raw = RawPayload::from(anomaly.raw.clone(), decision.raw.clone())?;
        let anomaly_hash = ContentHash(raw.anomaly_hash.0);
        Ok(AnomalyPayload { anomaly, decision, anomaly_hash, raw })
    }

    /// The anomaly and the decision, with the digest of the anomaly.
    pub fn from(anomaly: LavaAnomaly, decision: RoutingDecision) -> (r: Result<
        AnomalyPayload,
        String,
    >)
        ensures
            r is Ok,
            r->Ok_0@ == (AnomalyPayloadView {
                anomaly: anomaly@,
                decision: decision@,
                anomaly_hash: anomaly_digest(anomaly@),
            }),
            payload_fields(r->Ok_0.raw_payload()) == r->Ok_0@,
            payload_parts(r->Ok_0.raw_payload()) == (
                anomaly.raw_anomaly(),
                decision.raw_decision(),
            ),
    {
        proof {
            use_type_invariant(&anomaly);
            use_type_invariant(&decision);
        }
        match AnomalyPayload::seal(anomaly, decision) {
            Ok(p) => Ok(p),
            Err(e) => Err(e.to_string()),
        }
    }

    /// The anomaly.
    pub fn anomaly(&self) -> (r: &LavaAnomaly)
        ensures
            r@ == self@.anomaly,
            r.raw_anomaly() == payload_parts(self.raw_payload()).0,
    {
        proof {
            use_type_invariant(self);
        }
        &self.anomaly
    }

    /// The decision.
    pub fn decision(&self) -> (r: &RoutingDecision)
        ensures
            r@ == self@.decision,
            r.raw_decision() == payload_parts(self.raw_payload()).1,
    {
        proof {
            use_type_invariant(self);
        }
        &self.decision
    }

    /// The digest of the anomaly.
    pub fn anomaly_hash(&self) -> (r: ContentHash)
        ensures
            r.0@ == self@.anomaly_hash,
    {
        self.anomaly_hash
    }

    /// The payload as the `lava_anomaly` crate has it, for a chain of anomalies.
    pub fn into_raw(self) -> (r: RawPayload)
        ensures
            r == self.raw_payload(),
            payload_fields(r) == self@,
    {
        proof {
            use_type_invariant(&self);
        }
        self.raw
    }
}

impl Clone for AnomalyPayload {
    fn clone(&self) -> (r: AnomalyPayload)
        ensures
            r@ == self@,
            r.raw_payload() == self.raw_payload(),
    {
        proof {
            use_type_invariant(self);
        }
        AnomalyPayload {
            anomaly: self.anomaly.clone(),
            decision: self.decision.clone(),
            anomaly_hash: self.anomaly_hash,
            raw: copy_payload(&self.raw),
        }
    }
}

/// What a policy decides, in numbers: the action that it has for the severity;
/// ten minutes' wait after nothing, five after an alert, half a minute after a
/// correction, two minutes for an approval, one after an escalation. An
/// escalation notifies the first tier and is undecided where there is none;
/// nothing else notifies anyone.
pub proof fn law_policy_decides_by_severity(p: RemediationPolicy, s: Severity)
    ensures
        policy_action(p, Severity::Cosmetic) == p.cosmetic,
        policy_action(p, Severity::Functional) == p.functional,
        policy_action(p, Severity::Critical) == p.critical,
        policy_action(p, s) != RemediationAction::Escalate ==> {
            &&& policy_decision(p, s) is Some
            &&& policy_decision(p, s)->0.action == policy_action(p, s)
            &&& policy_decision(p, s)->0.escalation is None
        },
        policy_action(p, s) == RemediationAction::NoOp ==> policy_decision(
            p,
            s,
        )->0.requeue_after_secs == 600,
        policy_action(p, s) == RemediationAction::Alert ==> policy_decision(
            p,
            s,
        )->0.requeue_after_secs == 300,
        policy_action(p, s) == RemediationAction::AutoCorrect ==> policy_decision(
            p,
            s,
        )->0.requeue_after_secs == 30,
        policy_action(p, s) == RemediationAction::RequireApproval ==> policy_decision(
            p,
            s,
        )->0.requeue_after_secs == 120,
        policy_action(p, s) == RemediationAction::Escalate ==> {
            let notified = p.escalation is Some && ladder_tiers(p.escalation->0).len() > 0;
            &&& policy_decision(p, s) is Some <==> notified
            &&& notified ==> {
                &&& policy_decision(p, s)->0.action == RemediationAction::Escalate
                &&& policy_decision(p, s)->0.requeue_after_secs == 60
                &&& policy_decision(p, s)->0.escalation == Some(ladder_tiers(p.escalation->0)[0])
            }
        },
{
}

/// The policy router answers with what the policy decides, field by field; where
/// it is undecided the answer is an error that says so.
pub proof fn law_router_answers_the_decision(
    r: Result<RoutingDecision, RouterError>,
    d: Option<DecisionView>,
)
    requires
        is_answer(r, d),
    ensures
        r is Ok <==> d is Some,
        d is Some ==> {
            &&& r->Ok_0@.action == d->0.action
            &&& r->Ok_0@.requeue_after_secs == d->0.requeue_after_secs
            &&& r->Ok_0@.escalation == d->0.escalation
        },
        d is None ==> r->Err_0->Escalation_0@ == "Escalate set but no ladder"@,
{
}

/// The default policy is the one that alerts, corrects and asks, in the order of
/// the severities, and has no ladder.
pub proof fn law_default_policy_actions(p: RemediationPolicy)
    ensures
        is_default_policy(p) <==> p == (RemediationPolicy {
            cosmetic: RemediationAction::Alert,
            functional: RemediationAction::AutoCorrect,
            critical: RemediationAction::RequireApproval,
            escalation: None,
        }),
{
}

} // verus!
