//! The reconcile state machine: one pass turns a spec into an outcome.

use crate::architecture::{
    Condition, ConditionView, LavaArchitectureSpec, Phase, Source,
};
use crate::architecture;
use indexmap::IndexMap;
use vstd::prelude::*;
use vstd::string::*;

verus! {

/// The JSON value of the `serde_json` crate.
#[verifier::external_type_specification]
#[verifier::external_body]
pub struct ExValue(serde_json::Value);

/// `serde_json::Value::clone`: the same value.
#[verifier::external_body]
fn copy_json(v: &serde_json::Value) -> (r: serde_json::Value)
    ensures
        r == *v,
{
    v.clone()
}

/// The result of one pass.
#[derive(Debug, PartialEq)]
pub struct ReconcileOutcome {
    pub phase: Phase,
    pub conditions: Vec<Condition>,
    pub terraform_json: Option<serde_json::Value>,
}

impl Clone for ReconcileOutcome {
    fn clone(&self) -> (r: ReconcileOutcome)
        ensures
            r@ == self@,
    {
        ReconcileOutcome {
            phase: self.phase,
            conditions: architecture::copy_conditions(&self.conditions),
            terraform_json: match &self.terraform_json {
                Some(v) => Some(copy_json(v)),
                None => None,
            },
        }
    }
}

/// What an outcome says.
#[verifier::ext_equal]
pub struct OutcomeView {
    pub phase: Phase,
    pub conditions: Seq<ConditionView>,
    pub terraform_json: Option<serde_json::Value>,
}

impl View for ReconcileOutcome {
    type V = OutcomeView;

    open spec fn view(&self) -> OutcomeView {
        OutcomeView {
            phase: self.phase,
            conditions: architecture::condition_views(self.conditions@),
            terraform_json: self.terraform_json,
        }
    }
}

/// Why a pass could not be made.
#[derive(Clone, Debug, PartialEq)]
pub enum ReconcileError {
    Synthesize(String),
    Apply(String),
}

impl ReconcileError {
    /// The error as a line of text.
    pub fn message(&self) -> (r: String)
        ensures
            r@ == (match *self {
                ReconcileError::Synthesize(m) => "synthesize: "@ + m@,
                ReconcileError::Apply(m) => "apply: "@ + m@,
            }),
    {
        match self {
            ReconcileError::Synthesize(m) => "synthesize: ".to_owned().concat(m.as_str()),
            ReconcileError::Apply(m) => "apply: ".to_owned().concat(m.as_str()),
        }
    }
}

/// The outcome of a pass whose synthesis gave `synthesized`.
pub open spec fn synthesis_outcome(synthesized: Result<serde_json::Value, String>) -> OutcomeView {
    match synthesized {
        Ok(tf_json) => OutcomeView {
            phase: Phase::Synthesized,
            conditions: seq![architecture::ok_condition("Synthesized"@, "RenderOk"@)],
            terraform_json: Some(tf_json),
        },
        Err(e) => OutcomeView {
            phase: Phase::Failed,
            conditions: seq![architecture::fail_condition("Synthesized"@, e@)],
            terraform_json: None,
        },
    }
}

/// The outcome of a pass whose synthesis gave `synthesized`.
pub fn outcome_of_synthesis(synthesized: Result<serde_json::Value, String>) -> (r:
    ReconcileOutcome)
    ensures
        r@ == synthesis_outcome(synthesized),
{
    match synthesized {
        Ok(tf_json) => {
            let conditions = vec![Condition::ok("Synthesized", "RenderOk")];
            let r = ReconcileOutcome {
                phase: Phase::Synthesized,
                conditions,
                terraform_json: Some(tf_json),
            };
            assert(r@.conditions =~= synthesis_outcome(synthesized).conditions);
            r
        },
        Err(e) => {
            let conditions = vec![Condition::fail("Synthesized", e.as_str())];
            let r = ReconcileOutcome { phase: Phase::Failed, conditions, terraform_json: None };
            assert(r@.conditions =~= synthesis_outcome(synthesized).conditions);
            r
        },
    }
}

/// A pass ends synthesized, with the rendered JSON, exactly where the synthesis
/// succeeds, and failed, without one, exactly where it fails. Either way it
/// reports one condition, which holds exactly where the synthesis succeeds.
pub proof fn law_outcome_follows_synthesis(synthesized: Result<serde_json::Value, String>)
    ensures
        synthesis_outcome(synthesized).phase == (if synthesized is Ok {
            Phase::Synthesized
        } else {
            Phase::Failed
        }),
        synthesis_outcome(synthesized).terraform_json == (match synthesized {
            Ok(v) => Some(v),
            Err(_) => None,
        }),
        synthesis_outcome(synthesized).conditions.len() == 1,
        synthesis_outcome(synthesized).conditions[0].kind == "Synthesized"@,
        synthesis_outcome(synthesized).conditions[0].status == (if synthesized is Ok {
            "True"@
        } else {
            "False"@
        }),
        synthesized matches Err(e) ==> synthesis_outcome(synthesized).conditions[0].message
            == Some(e@),
{
}

/// Is `gate` the text of what a spec has for a gate?
pub open spec fn is_gate_of(gate: Option<&str>, written: Option<String>) -> bool {
    match (gate, written) {
        (Some(g), Some(s)) => g@ == s@,
        (None, None) => true,
        _ => false,
    }
}

/// The text of what a spec has for a gate.
pub(crate) fn gate_of(written: &Option<String>) -> (r: Option<&str>)
    ensures
        is_gate_of(r, *written),
{
    match written {
        Some(g) => Some(g.as_str()),
        None => None,
    }
}

/// Makes one pass: hands the spec's source, bindings and gate to
/// `synthesize_fn` and turns what comes back into an outcome. A failed
/// synthesis is an outcome too.
pub fn reconcile<F>(spec: &LavaArchitectureSpec, synthesize_fn: F) -> (r: Result<
    ReconcileOutcome,
    ReconcileError,
>) where
    F: FnOnce(&Source, &IndexMap<String, String>, Option<&str>) -> Result<
        serde_json::Value,
        String,
    >,

    requires
        forall|gate: Option<&str>|
            is_gate_of(gate, spec.gate) ==> #[trigger] call_requires(
                synthesize_fn,
                (&spec.source, &spec.bindings, gate),
            ),
    ensures
        r is Ok,
        exists|gate: Option<&str>, synthesized: Result<serde_json::Value, String>|
            is_gate_of(gate, spec.gate) && #[trigger] call_ensures(
                synthesize_fn,
                (&spec.source, &spec.bindings, gate),
                synthesized,
            ) && r->Ok_0@ == synthesis_outcome(synthesized),
{
    let gate = gate_of(&spec.gate);
    let synthesized = synthesize_fn(&spec.source, &spec.bindings, gate);
    Ok(outcome_of_synthesis(synthesized))
}

/// The outcome of a pass, field by field: where the synthesis gave a JSON value
/// the resource is synthesized, carries that value and reports that it was
/// rendered; where it gave an error the resource has failed, carries none and
/// reports the error to the letter.
pub proof fn law_outcome_tells_the_synthesis(
    synthesized: Result<serde_json::Value, String>,
    r: ReconcileOutcome,
)
    requires
        r@ == synthesis_outcome(synthesized),
    ensures
        r.phase == Phase::Synthesized <==> synthesized is Ok,
        r.phase == Phase::Failed <==> synthesized is Err,
        r.conditions@.len() == 1,
        r.conditions@[0].kind@ == "Synthesized"@,
        r.conditions@[0].last_transition_time is None,
        synthesized matches Ok(v) ==> {
            &&& r.terraform_json == Some(v)
            &&& r.conditions@[0].status@ == "True"@
            &&& r.conditions@[0].reason is Some
            &&& r.conditions@[0].reason->0@ == "RenderOk"@
            &&& r.conditions@[0].message is None
        },
        synthesized matches Err(e) ==> {
            &&& r.terraform_json is None
            &&& r.conditions@[0].status@ == "False"@
            &&& r.conditions@[0].reason is Some
            &&& r.conditions@[0].reason->0@ == "Error"@
            &&& r.conditions@[0].message is Some
            &&& r.conditions@[0].message->0@ == e@
        },
{
    assert(r@.conditions.len() == r.conditions@.len());
    assert(r@.conditions[0] == r.conditions@[0]@);
}

/// A synthesis gets its gate as it is written, to the letter,
/// and none where none is written.
pub proof fn law_gate_is_handed_on(gate: Option<&str>, written: Option<String>)
    ensures
        is_gate_of(gate, written) <==> (gate is Some <==> written is Some) && (written is Some
            ==> gate->0@ == written->0@),
{
}

} // verus!
