//! The finalizer: destroys what an architecture made before it is removed.

use crate::architecture::{Condition, ConditionView, Phase, Source};
use crate::reconcile::{OutcomeView, ReconcileOutcome};
use crate::{architecture, text};
use indexmap::IndexMap;
use vstd::prelude::*;

verus! {

/// What destroys the resources of an architecture.
pub trait DestroyBackend {
    /// Destroys them: diagnostics on success, a message on failure.
    fn destroy(&self, source: &Source, bindings: &IndexMap<String, String>) -> Result<
        Vec<String>,
        String,
    >;
}

/// The conditions of a destroy that went well: that it did, then one for each
/// of the diagnostics.
pub open spec fn destroyed_conditions(diagnostics: Seq<Seq<char>>) -> Seq<ConditionView> {
    seq![architecture::ok_condition("Destroyed"@, "BackendOk"@)] + diagnostics.map_values(
        |d: Seq<char>| architecture::ok_condition("Diagnostic"@, d),
    )
}

/// The outcome of a pass whose destroy gave `destroyed`.
pub open spec fn destroy_outcome(destroyed: Result<Vec<String>, String>) -> OutcomeView {
    match destroyed {
        Ok(diagnostics) => OutcomeView {
            phase: Phase::Finalizing,
            conditions: destroyed_conditions(text::texts(diagnostics@)),
            terraform_json: None,
        },
        Err(e) => OutcomeView {
            phase: Phase::Failed,
            conditions: seq![architecture::fail_condition("Destroyed"@, e@)],
            terraform_json: None,
        },
    }
}

/// The outcome of a pass whose destroy gave `destroyed`.
pub fn outcome_of_destroy(destroyed: Result<Vec<String>, String>) -> (r: ReconcileOutcome)
    ensures
        r@ == destroy_outcome(destroyed),
{
    match destroyed {
        Ok(diagnostics) => {
            let mut conditions = vec![Condition::ok("Destroyed", "BackendOk")];
            let ghost want = destroyed_conditions(text::texts(diagnostics@));
            assert(architecture::condition_views(conditions@) =~= want.take(1));
            for i in 0..diagnostics.len()
                invariant
                    want == destroyed_conditions(text::texts(diagnostics@)),
                    architecture::condition_views(conditions@) == want.take(i + 1),
            {
                let ghost before = conditions@;
                let c = Condition::ok("Diagnostic", diagnostics[i].as_str());
                conditions.push(c);
                assert(want[i + 1] == c@);
                assert(architecture::condition_views(conditions@)
                    =~= architecture::condition_views(before).push(c@));
                assert(want.take(i + 2) =~= want.take(i + 1).push(want[i + 1]));
            }
            assert(want.take(diagnostics@.len() as int + 1) =~= want);
            ReconcileOutcome { phase: Phase::Finalizing, conditions, terraform_json: None }
        },
        Err(e) => {
            let conditions = vec![Condition::fail("Destroyed", e.as_str())];
            assert(architecture::condition_views(conditions@) =~= seq![
                architecture::fail_condition("Destroyed"@, e@),
            ]);
            ReconcileOutcome { phase: Phase::Failed, conditions, terraform_json: None }
        },
    }
}

/// A finalizer run ends in `Finalizing` exactly where the destroy succeeds and
/// in `Failed` exactly where it fails. It reports one condition on the destroy
/// itself and one for each diagnostic, in their order.
pub proof fn law_outcome_follows_destroy(destroyed: Result<Vec<String>, String>)
    ensures
        destroy_outcome(destroyed).phase == (if destroyed is Ok {
            Phase::Finalizing
        } else {
            Phase::Failed
        }),
        destroy_outcome(destroyed).terraform_json is None,
        destroy_outcome(destroyed).conditions[0].kind == "Destroyed"@,
        destroy_outcome(destroyed).conditions[0].status == (if destroyed is Ok {
            "True"@
        } else {
            "False"@
        }),
        destroyed matches Ok(diagnostics) ==> {
            &&& destroy_outcome(destroyed).conditions.len() == diagnostics@.len() + 1
            &&& forall|i: int|
                0 <= i < diagnostics@.len() ==> destroy_outcome(destroyed).conditions[i + 1]
                    == architecture::ok_condition("Diagnostic"@, (#[trigger] diagnostics@[i])@)
        },
        destroyed matches Err(e) ==> {
            &&& destroy_outcome(destroyed).conditions.len() == 1
            &&& destroy_outcome(destroyed).conditions[0].message == Some(e@)
        },
{
}

/// Runs the finalizer: has `backend` destroy what the source made and turns
/// what comes back into an outcome.
pub fn run_finalizer<B: DestroyBackend>(
    backend: &B,
    source: &Source,
    bindings: &IndexMap<String, String>,
) -> (r: ReconcileOutcome)
    ensures
        exists|destroyed: Result<Vec<String>, String>| #[trigger]
            call_ensures(B::destroy, (backend, source, bindings), destroyed) && r@
                == destroy_outcome(destroyed),
{
    let destroyed = backend.destroy(source, bindings);
    outcome_of_destroy(destroyed)
}

/// A backend that always answers the same.
pub struct MockDestroy {
    pub outcome: Result<Vec<String>, String>,
}

impl MockDestroy {
    /// Success without diagnostics.
    pub fn ok() -> (r: MockDestroy)
        ensures
            r.outcome is Ok,
            r.outcome->Ok_0@.len() == 0,
    {
        MockDestroy { outcome: Ok(Vec::new()) }
    }

    /// Success with diagnostics.
    pub fn with_diagnostics(msgs: Vec<String>) -> (r: MockDestroy)
        ensures
            r.outcome == Ok::<Vec<String>, String>(msgs),
    {
        MockDestroy { outcome: Ok(msgs) }
    }

    /// Failure.
    pub fn err(msg: &str) -> (r: MockDestroy)
        ensures
            r.outcome is Err,
            r.outcome->Err_0@ == msg@,
    {
        MockDestroy { outcome: Err(msg.to_owned()) }
    }
}

impl DestroyBackend for MockDestroy {
    fn destroy(&self, source: &Source, bindings: &IndexMap<String, String>) -> (r: Result<
        Vec<String>,
        String,
    >)
        ensures
            destroy_outcome(r) == destroy_outcome(self.outcome),
            match self.outcome {
                Ok(msgs) => r is Ok && r->Ok_0@ == msgs@,
                Err(e) => r == Err::<Vec<String>, String>(e),
            },
    {
        match &self.outcome {
            Ok(msgs) => Ok(text::copy_all(msgs)),
            Err(e) => Err(e.clone()),
        }
    }
}

/// The outcome of a finalizer run, field by field: the first condition is about
/// the destroy, and behind it stands one for each diagnostic, with its text as
/// the reason; a failure is reported to the letter, alone.
pub proof fn law_outcome_tells_the_destroy(
    destroyed: Result<Vec<String>, String>,
    r: ReconcileOutcome,
)
    requires
        r@ == destroy_outcome(destroyed),
    ensures
        r.phase == Phase::Finalizing <==> destroyed is Ok,
        r.phase == Phase::Failed <==> destroyed is Err,
        r.terraform_json is None,
        r.conditions@.len() > 0,
        r.conditions@[0].kind@ == "Destroyed"@,
        destroyed matches Ok(diagnostics) ==> {
            &&& r.conditions@.len() == diagnostics@.len() + 1
            &&& r.conditions@[0].status@ == "True"@
            &&& r.conditions@[0].reason is Some
            &&& r.conditions@[0].reason->0@ == "BackendOk"@
            &&& r.conditions@[0].message is None
            &&& forall|i: int|
                1 <= i < r.conditions@.len() ==> {
                    &&& (#[trigger] r.conditions@[i]).kind@ == "Diagnostic"@
                    &&& r.conditions@[i].status@ == "True"@
                    &&& r.conditions@[i].reason is Some
                    &&& r.conditions@[i].reason->0@ == diagnostics@[i - 1]@
                    &&& r.conditions@[i].message is None
                }
        },
        destroyed matches Err(e) ==> {
            &&& r.conditions@.len() == 1
            &&& r.conditions@[0].status@ == "False"@
            &&& r.conditions@[0].reason is Some
            &&& r.conditions@[0].reason->0@ == "Error"@
            &&& r.conditions@[0].message is Some
            &&& r.conditions@[0].message->0@ == e@
        },
{
    let views = r@.conditions;
    assert(views.len() == r.conditions@.len());
    assert(views[0] == r.conditions@[0]@);
    if destroyed is Ok {
        let diagnostics = destroyed->Ok_0;
        assert(views.len() == diagnostics@.len() + 1);
        assert forall|i: int| 1 <= i < r.conditions@.len() implies (
        #[trigger] r.conditions@[i])@ == architecture::ok_condition(
            "Diagnostic"@,
            diagnostics@[i - 1]@,
        ) by {
            assert(views[i] == r.conditions@[i]@);
            assert(text::texts(diagnostics@)[i - 1] == diagnostics@[i - 1]@);
        }
    }
}

} // verus!
