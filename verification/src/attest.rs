//! Attestation: what a pass did becomes a receipt of the outcome chain.

use crate::architecture::{Condition, ConditionView, Phase};
use crate::chain::{
    AppendError, ChangeSummary, OutcomeChain, OutcomePayload, PayloadView, Receipt,
    ResourceAddress,
};
use crate::hash::ContentHash;
use crate::reconcile::ReconcileOutcome;
use crate::{architecture, chain, hash, text};
use indexmap::IndexMap;
use vstd::prelude::*;
use vstd::string::*;

verus! {

/// The source text and the bindings that a pass works on.
pub type SpecInputs<'a> = (&'a str, &'a IndexMap<String, String>);

/// The error of the `serde_json` crate.
#[verifier::external_type_specification]
#[verifier::external_body]
pub struct ExJsonError(serde_json::Error);

/// The JSON text that `serde_json` writes for a value, if it writes one.
pub uninterp spec fn json_text(v: serde_json::Value) -> Option<Seq<char>>;

/// `serde_json::to_string` on a JSON value: whether it writes a text, and
/// which, is a function of the value.
#[verifier::external_body]
fn json_write(v: &serde_json::Value) -> (r: Result<String, serde_json::Error>)
    ensures
        match json_text(*v) {
            Some(t) => r is Ok && r->Ok_0@ == t,
            None => r is Err,
        },
{
    serde_json::to_string(v)
}

/// The digest of a rendered JSON text; of the empty text where none was written.
pub open spec fn written_digest(written: Option<Seq<char>>) -> Seq<u8> {
    match written {
        Some(t) => hash::text_digest(t),
        None => hash::text_digest(Seq::empty()),
    }
}

/// The digest that stands for the rendered `terraform.json`: the all-zero one
/// where nothing was rendered.
pub open spec fn json_digest(json: Option<serde_json::Value>) -> Seq<u8> {
    match json {
        Some(v) => written_digest(json_text(v)),
        None => hash::genesis_bytes(),
    }
}

/// The digest of what writing a JSON value gave.
pub fn hash_of_written(written: Result<String, serde_json::Error>) -> (r: ContentHash)
    ensures
        r.0@ == written_digest(match written {
            Ok(t) => Some(t@),
            Err(_) => None,
        }),
{
    let body = match written {
        Ok(t) => t,
        Err(_) => String::new(),
    };
    ContentHash::of(body.as_str().as_bytes())
}

/// A message in brackets behind a blank; nothing where there is none.
pub open spec fn bracketed(message: Option<Seq<char>>) -> Seq<char> {
    match message {
        Some(m) => " ("@ + m + ")"@,
        None => Seq::empty(),
    }
}

/// One line of diagnostics: `<name>=<status>`, then the message if there is one.
pub open spec fn diagnostic(
    name: Seq<char>,
    status: Seq<char>,
    message: Option<Seq<char>>,
) -> Seq<char> {
    name + "="@ + status + bracketed(message)
}

/// One line of diagnostics.
pub fn diagnostic_line(name: &str, status: &str, message: &Option<String>) -> (r: String)
    ensures
        r@ == diagnostic(name@, status@, text::opt_text(*message)),
{
    let mut line = name.to_owned();
    line.append("=");
    line.append(status);
    match message {
        Some(m) => {
            line.append(" (");
            line.append(m.as_str());
            line.append(")");
            assert(line@ =~= diagnostic(name@, status@, Some(m@)));
        },
        None => {
            assert(line@ =~= diagnostic(name@, status@, None));
        },
    }
    line
}

/// The diagnostics of a list of conditions, one line each.
pub open spec fn condition_lines(s: Seq<ConditionView>) -> Seq<Seq<char>> {
    s.map_values(|c: ConditionView| diagnostic(c.kind, c.status, c.message))
}

fn lines_of(conditions: &Vec<Condition>) -> (r: Vec<String>)
    ensures
        text::texts(r@) == condition_lines(architecture::condition_views(conditions@)),
{
    let ghost want = condition_lines(architecture::condition_views(conditions@));
    let mut out: Vec<String> = Vec::new();
    for i in 0..conditions.len()
        invariant
            want == condition_lines(architecture::condition_views(conditions@)),
            text::texts(out@) == want.take(i as int),
    {
        let c = &conditions[i];
        let line = diagnostic_line(c.kind.as_str(), c.status.as_str(), &c.message);
        assert(line@ == want[i as int]);
        let ghost before = out@;
        out.push(line);
        assert(text::texts(out@) =~= text::texts(before).push(line@));
        assert(want.take(i as int + 1) =~= want.take(i as int).push(want[i as int]));
    }
    assert(want.take(conditions@.len() as int) =~= want);
    out
}

/// The payload of a phase transition.
pub open spec fn phase_payload(
    address: chain::AddressView,
    spec_source: Seq<char>,
    outcome: crate::reconcile::OutcomeView,
    phase: Phase,
) -> PayloadView {
    PayloadView {
        resource: address,
        spec_hash: hash::text_digest(spec_source),
        terraform_json_hash: json_digest(outcome.terraform_json),
        plan_id: None,
        phase: architecture::phase_chars(phase),
        change_summary: chain::no_changes(),
        diagnostics: condition_lines(outcome.conditions),
    }
}

/// The payload of a transition names the phase that was entered: each phase by
/// its own word, so that transitions to different phases are told apart. It is
/// about the given resource, and attests the digest of the source text and of
/// the rendered text where one was written; it counts no changes and names no
/// plan.
pub proof fn law_payload_names_its_transition(
    address: ResourceAddress,
    spec_source: Seq<char>,
    outcome: ReconcileOutcome,
    phase: Phase,
    r: OutcomePayload,
)
    requires
        r@ == phase_payload(address@, spec_source, outcome@, phase),
    ensures
        r.phase@ == "Pending"@ <==> phase == Phase::Pending,
        r.phase@ == "Synthesized"@ <==> phase == Phase::Synthesized,
        r.phase@ == "Planned"@ <==> phase == Phase::Planned,
        r.phase@ == "Applied"@ <==> phase == Phase::Applied,
        r.phase@ == "Drifted"@ <==> phase == Phase::Drifted,
        r.phase@ == "Reconverging"@ <==> phase == Phase::Reconverging,
        r.phase@ == "Finalizing"@ <==> phase == Phase::Finalizing,
        r.phase@ == "Failed"@ <==> phase == Phase::Failed,
        r.resource.cluster@ == address.cluster@,
        r.resource.namespace@ == address.namespace@,
        r.resource.name@ == address.name@,
        r.spec_hash.0@ == hash::blake3_digest(vstd::utf8::encode_utf8(spec_source)),
        outcome.terraform_json matches Some(v) ==> (json_text(v) matches Some(t)
            ==> r.terraform_json_hash.0@ == hash::blake3_digest(vstd::utf8::encode_utf8(t))),
        outcome.terraform_json matches Some(v) ==> (json_text(v) is None
            ==> r.terraform_json_hash.0@ == hash::blake3_digest(
            vstd::utf8::encode_utf8(Seq::empty()),
        )),
        outcome.terraform_json is None ==> forall|i: int|
            0 <= i < 32 ==> #[trigger] r.terraform_json_hash.0@[i] == 0,
        r.plan_id is None,
        r.change_summary.create == 0 && r.change_summary.update == 0 && r.change_summary.delete == 0
            && r.change_summary.no_op == 0,
        r.diagnostics@.len() == outcome.conditions@.len(),
        forall|i: int|
            0 <= i < outcome.conditions@.len() ==> (#[trigger] r.diagnostics@[i])@ == (
            match outcome.conditions@[i].message {
                Some(m) => outcome.conditions@[i].kind@ + "="@ + outcome.conditions@[i].status@
                    + " ("@ + m@ + ")"@,
                None => outcome.conditions@[i].kind@ + "="@ + outcome.conditions@[i].status@,
            }),
{
    architecture::law_phase_names(phase);
    let want = condition_lines(outcome@.conditions);
    assert(text::texts(r.diagnostics@).len() == r.diagnostics@.len());
    assert(outcome@.conditions.len() == outcome.conditions@.len());
    assert forall|i: int| 0 <= i < outcome.conditions@.len() implies (
    #[trigger] r.diagnostics@[i])@ == (match outcome.conditions@[i].message {
        Some(m) => outcome.conditions@[i].kind@ + "="@ + outcome.conditions@[i].status@ + " ("@ + m@
            + ")"@,
        None => outcome.conditions@[i].kind@ + "="@ + outcome.conditions@[i].status@,
    }) by {
        assert(text::texts(r.diagnostics@)[i] == r.diagnostics@[i]@);
        let c = outcome.conditions@[i];
        assert(outcome@.conditions[i] == c@);
        assert(want[i] == diagnostic(c.kind@, c.status@, text::opt_text(c.message)));
        match c.message {
            Some(m) => {
                assert(diagnostic(c.kind@, c.status@, Some(m@)) =~= c.kind@ + "="@ + c.status@
                    + " ("@ + m@ + ")"@);
            },
            None => {
                assert(diagnostic(c.kind@, c.status@, None) =~= c.kind@ + "="@ + c.status@);
            },
        }
    }
}

/// Two transitions of the same pass are attested alike but for the phase, and
/// their phase texts are the same only where the phases are.
pub proof fn law_transitions_are_told_apart(
    address: chain::AddressView,
    spec_source: Seq<char>,
    outcome: crate::reconcile::OutcomeView,
    p: Phase,
    q: Phase,
)
    ensures
        phase_payload(address, spec_source, outcome, p).phase == phase_payload(
            address,
            spec_source,
            outcome,
            q,
        ).phase <==> p == q,
        phase_payload(address, spec_source, outcome, p).diagnostics == phase_payload(
            address,
            spec_source,
            outcome,
            q,
        ).diagnostics,
        phase_payload(address, spec_source, outcome, p).terraform_json_hash == phase_payload(
            address,
            spec_source,
            outcome,
            q,
        ).terraform_json_hash,
{
    architecture::law_phase_names_are_distinct(p, q);
}

/// A line of diagnostics opens with the name, then `=`, then the status; a
/// message stands behind it in brackets, and where there is none the line ends
/// with the status.
pub proof fn law_diagnostic_holds_its_parts(name: Seq<char>, status: Seq<char>, m: Seq<char>)
    ensures
        diagnostic(name, status, None).len() == name.len() as int + 1 + status.len(),
        diagnostic(name, status, None).take(name.len() as int) == name,
        diagnostic(name, status, None)[name.len() as int] == '=',
        diagnostic(name, status, None).skip(name.len() as int + 1) == status,
        diagnostic(name, status, Some(m)).len() == name.len() + status.len() + m.len() + 4,
        diagnostic(name, status, Some(m)).take(name.len() as int + 1 + status.len()) == diagnostic(
            name,
            status,
            None,
        ),
        diagnostic(name, status, Some(m))[name.len() as int + 1 + status.len()] == ' ',
        diagnostic(name, status, Some(m))[name.len() as int + 2 + status.len()] == '(',
        diagnostic(name, status, Some(m)).subrange(
            name.len() as int + 3 + status.len(),
            name.len() as int + 3 + status.len() + m.len(),
        ) == m,
        diagnostic(name, status, Some(m)).last() == ')',
{
    reveal_strlit("=");
    reveal_strlit(" (");
    reveal_strlit(")");
    let bare = diagnostic(name, status, None);
    let full = diagnostic(name, status, Some(m));
    assert(bare.take(name.len() as int) =~= name);
    assert(bare.skip(name.len() as int + 1) =~= status);
    assert(full.take(name.len() as int + 1 + status.len()) =~= bare);
    assert(full.subrange(
        name.len() as int + 3 + status.len(),
        name.len() as int + 3 + status.len() + m.len(),
    ) =~= m);
}

/// Builds the payload of a phase transition without sealing it.
pub fn build_payload(
    address: ResourceAddress,
    spec_source: &str,
    outcome: &ReconcileOutcome,
    phase: Phase,
) -> (r: OutcomePayload)
    ensures
        r@ == phase_payload(address@, spec_source@, outcome@, phase),
        r.resource == address,
        r.phase@ == "Pending"@ <==> phase == Phase::Pending,
        r.phase@ == "Synthesized"@ <==> phase == Phase::Synthesized,
        r.phase@ == "Planned"@ <==> phase == Phase::Planned,
        r.phase@ == "Applied"@ <==> phase == Phase::Applied,
        r.phase@ == "Drifted"@ <==> phase == Phase::Drifted,
        r.phase@ == "Reconverging"@ <==> phase == Phase::Reconverging,
        r.phase@ == "Finalizing"@ <==> phase == Phase::Finalizing,
        r.phase@ == "Failed"@ <==> phase == Phase::Failed,
        r.spec_hash.0@ == hash::blake3_digest(vstd::utf8::encode_utf8(spec_source@)),
        outcome.terraform_json matches Some(v) ==> (json_text(v) matches Some(t)
            ==> r.terraform_json_hash.0@ == hash::blake3_digest(vstd::utf8::encode_utf8(t))),
{
    proof {
        architecture::law_phase_names(phase);
    }
    let spec_hash = ContentHash::of(spec_source.as_bytes());
    let terraform_json_hash = match &outcome.terraform_json {
        Some(v) => hash_of_written(json_write(v)),
        None => ContentHash::genesis(),
    };
    let diagnostics = lines_of(&outcome.conditions);
    OutcomePayload {
        resource: address,
        spec_hash,
        terraform_json_hash,
        plan_id: None,
        phase: phase.as_str().to_owned(),
        change_summary: ChangeSummary::default(),
        diagnostics,
    }
}

/// A transition that rendered nothing is attested with the all-zero digest, and
/// one line of diagnostics is attested for each condition, in their order.
pub proof fn law_payload_follows_outcome(
    address: chain::AddressView,
    spec_source: Seq<char>,
    outcome: crate::reconcile::OutcomeView,
    phase: Phase,
)
    ensures
        outcome.terraform_json is None ==> phase_payload(
            address,
            spec_source,
            outcome,
            phase,
        ).terraform_json_hash == hash::genesis_bytes(),
        phase_payload(address, spec_source, outcome, phase).diagnostics.len()
            == outcome.conditions.len(),
        forall|i: int|
            0 <= i < outcome.conditions.len() ==> phase_payload(
                address,
                spec_source,
                outcome,
                phase,
            ).diagnostics[i] == diagnostic(
                (#[trigger] outcome.conditions[i]).kind,
                outcome.conditions[i].status,
                outcome.conditions[i].message,
            ),
{
}

/// The receipts of two transitions, on whichever chains and of whichever
/// resources, carry the same phase text exactly where the phases are the same,
/// and that of a transition to `Applied` alone carries its name.
pub proof fn law_receipts_name_their_phases(
    s: Seq<chain::ReceiptView>,
    a: Receipt,
    p: Phase,
    t: Seq<chain::ReceiptView>,
    b: Receipt,
    q: Phase,
    address: chain::AddressView,
    spec_source: Seq<char>,
    outcome: crate::reconcile::OutcomeView,
    other_address: chain::AddressView,
    other_source: Seq<char>,
    other_outcome: crate::reconcile::OutcomeView,
)
    requires
        chain::is_next_receipt(s, a@, phase_payload(address, spec_source, outcome, p)),
        chain::is_next_receipt(
            t,
            b@,
            phase_payload(other_address, other_source, other_outcome, q),
        ),
    ensures
        a.payload.phase@ == b.payload.phase@ <==> p == q,
        a.payload.phase@ == "Applied"@ <==> p == Phase::Applied,
        a.payload.phase@ == "Failed"@ <==> p == Phase::Failed,
        a.payload.resource.name@ == address.name,
        a.payload.resource.namespace@ == address.namespace,
        a.payload.resource.cluster@ == address.cluster,
{
    architecture::law_phase_names(p);
    architecture::law_phase_names_are_distinct(p, q);
    assert(a@.payload == a.payload@);
    assert(b@.payload == b.payload@);
}

/// Appends the receipt of a phase transition to the chain.
pub fn record_phase(
    chain: &mut OutcomeChain,
    address: ResourceAddress,
    spec_source: &str,
    outcome: &ReconcileOutcome,
    phase: Phase,
) -> (r: Result<Receipt, AppendError>)
    ensures
        r is Ok,
        chain::is_next_receipt(
            chain::chain_receipts(*old(chain)),
            r->Ok_0@,
            phase_payload(address@, spec_source@, outcome@, phase),
        ),
        chain::chain_receipts(*final(chain)) == chain::chain_receipts(*old(chain)).push(r->Ok_0@),
        chain::is_linked(chain::chain_receipts(*old(chain))) ==> chain::is_linked(
            chain::chain_receipts(*final(chain)),
        ),
{
    let payload = build_payload(address, spec_source, outcome, phase);
    chain.append(payload)
}

} // verus!
