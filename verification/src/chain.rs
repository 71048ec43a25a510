//! The outcome chain: an append-only log of linked receipts.

use crate::hash::ContentHash;
use crate::{hash, text};
use lava_outcome_chain::{
    AppendError as LavaAppendError, ChangeSummary as LavaSummary, ContentHash as LavaHash,
    InMemorySink, NoOpVerifier, NoSigning, OutcomePayload as LavaPayload,
    ResourceAddress as LavaAddress, Signature as LavaSignature,
};
use vstd::prelude::*;

verus! {

/// Where a resource lives: cluster, namespace and name.
#[derive(Debug, PartialEq, Eq)]
pub struct ResourceAddress {
    pub cluster: String,
    pub namespace: String,
    pub name: String,
}

/// The texts of an address.
#[verifier::ext_equal]
pub struct AddressView {
    pub cluster: Seq<char>,
    pub namespace: Seq<char>,
    pub name: Seq<char>,
}

impl View for ResourceAddress {
    type V = AddressView;

    open spec fn view(&self) -> AddressView {
        AddressView { cluster: self.cluster@, namespace: self.namespace@, name: self.name@ }
    }
}

impl ResourceAddress {
    /// The address with these parts.
    pub fn new(cluster: &str, namespace: &str, name: &str) -> (r: ResourceAddress)
        ensures
            r@ == (AddressView { cluster: cluster@, namespace: namespace@, name: name@ }),
    {
        ResourceAddress {
            cluster: cluster.to_owned(),
            namespace: namespace.to_owned(),
            name: name.to_owned(),
        }
    }
}

impl Clone for ResourceAddress {
    fn clone(&self) -> (r: ResourceAddress)
        ensures
            r == *self,
    {
        ResourceAddress {
            cluster: self.cluster.clone(),
            namespace: self.namespace.clone(),
            name: self.name.clone(),
        }
    }
}

/// How many resources a pass would create, update, delete or leave alone.
#[derive(Clone, Copy, Debug, PartialEq, Eq, Structural)]
pub struct ChangeSummary {
    pub create: u32,
    pub update: u32,
    pub delete: u32,
    pub no_op: u32,
}

/// No change at all.
pub open spec fn no_changes() -> ChangeSummary {
    ChangeSummary { create: 0, update: 0, delete: 0, no_op: 0 }
}

impl Default for ChangeSummary {
    fn default() -> (r: ChangeSummary)
        ensures
            r == no_changes(),
    {
        ChangeSummary { create: 0, update: 0, delete: 0, no_op: 0 }
    }
}

/// What one receipt attests.
#[derive(Debug, PartialEq, Eq)]
pub struct OutcomePayload {
    pub resource: ResourceAddress,
    /// The digest of the source text.
    pub spec_hash: ContentHash,
    /// The digest of the rendered `terraform.json`.
    pub terraform_json_hash: ContentHash,
    pub plan_id: Option<String>,
    pub phase: String,
    pub change_summary: ChangeSummary,
    pub diagnostics: Vec<String>,
}

/// What a payload says.
#[verifier::ext_equal]
pub struct PayloadView {
    pub resource: AddressView,
    pub spec_hash: Seq<u8>,
    pub terraform_json_hash: Seq<u8>,
    pub plan_id: Option<Seq<char>>,
    pub phase: Seq<char>,
    pub change_summary: ChangeSummary,
    pub diagnostics: Seq<Seq<char>>,
}

impl View for OutcomePayload {
    type V = PayloadView;

    open spec fn view(&self) -> PayloadView {
        PayloadView {
            resource: self.resource@,
            spec_hash: self.spec_hash.0@,
            terraform_json_hash: self.terraform_json_hash.0@,
            plan_id: text::opt_text(self.plan_id),
            phase: self.phase@,
            change_summary: self.change_summary,
            diagnostics: text::texts(self.diagnostics@),
        }
    }
}

impl Clone for OutcomePayload {
    fn clone(&self) -> (r: OutcomePayload)
        ensures
            r@ == self@,
    {
        OutcomePayload {
            resource: self.resource.clone(),
            spec_hash: self.spec_hash,
            terraform_json_hash: self.terraform_json_hash,
            plan_id: text::copy_opt(&self.plan_id),
            phase: self.phase.clone(),
            change_summary: self.change_summary,
            diagnostics: text::copy_all(&self.diagnostics),
        }
    }
}

/// The signature of a receipt.
#[derive(Debug, PartialEq, Eq)]
pub enum Signature {
    Unsigned,
    /// The signature and the public key, in hexadecimal.
    Ed25519 { sig: String, public_key: String },
}

impl Clone for Signature {
    fn clone(&self) -> (r: Signature)
        ensures
            r == *self,
    {
        match self {
            Signature::Unsigned => Signature::Unsigned,
            Signature::Ed25519 { sig, public_key } => Signature::Ed25519 {
                sig: sig.clone(),
                public_key: public_key.clone(),
            },
        }
    }
}

/// One link of a chain.
#[derive(Debug, PartialEq)]
pub struct Receipt {
    pub sequence: u64,
    /// When the receipt was sealed: seconds since the Unix epoch, and
    /// nanoseconds within the second.
    pub timestamp: (i64, u32),
    /// What the payload is about.
    pub kind: String,
    pub prev_hash: ContentHash,
    pub payload: OutcomePayload,
    pub signature: Signature,
    pub content_hash: ContentHash,
}

/// What a receipt says.
#[verifier::ext_equal]
pub struct ReceiptView {
    pub sequence: nat,
    pub timestamp: (i64, u32),
    pub kind: Seq<char>,
    pub prev_hash: Seq<u8>,
    pub payload: PayloadView,
    pub signature: Signature,
    pub content_hash: Seq<u8>,
}

impl View for Receipt {
    type V = ReceiptView;

    open spec fn view(&self) -> ReceiptView {
        ReceiptView {
            sequence: self.sequence as nat,
            timestamp: self.timestamp,
            kind: self.kind@,
            prev_hash: self.prev_hash.0@,
            payload: self.payload@,
            signature: self.signature,
            content_hash: self.content_hash.0@,
        }
    }
}

impl Clone for Receipt {
    fn clone(&self) -> (r: Receipt)
        ensures
            r@ == self@,
    {
        Receipt {
            sequence: self.sequence,
            timestamp: self.timestamp,
            kind: self.kind.clone(),
            prev_hash: self.prev_hash,
            payload: self.payload.clone(),
            signature: self.signature.clone(),
            content_hash: self.content_hash,
        }
    }
}

/// The views of a list of receipts.
pub open spec fn receipt_views(s: Seq<Receipt>) -> Seq<ReceiptView> {
    s.map_values(|r: Receipt| r@)
}

/// Why a chain could not be read or extended.
#[derive(Clone, Debug, PartialEq)]
pub struct AppendError {
    pub message: String,
}

/// The error of the `lava_outcome_chain` crate.
#[verifier::external_type_specification]
#[verifier::external_body]
pub struct ExAppendError(LavaAppendError);

/// An unsigned chain that is kept in memory.
#[verifier::external_body]
pub struct OutcomeChain {
    inner: lava_outcome_chain::OutcomeChain<LavaPayload, InMemorySink<LavaPayload>, NoSigning>,
}

/// The receipts of a chain, oldest first.
pub uninterp spec fn chain_receipts(c: OutcomeChain) -> Seq<ReceiptView>;

/// The digest that seals a receipt with these contents.
pub uninterp spec fn receipt_digest(
    sequence: nat,
    timestamp: (i64, u32),
    prev_hash: Seq<u8>,
    payload: PayloadView,
) -> Seq<u8>;

/// The digest that the next receipt after `s` links to: that of the last one,
/// or the all-zero one.
pub open spec fn tail_hash(s: Seq<ReceiptView>) -> Seq<u8> {
    if s.len() == 0 {
        hash::genesis_bytes()
    } else {
        s.last().content_hash
    }
}

/// Does `r` come next after `s`: numbered by the receipts before it, linked to
/// the last of them, and sealed by the digest of its contents?
pub open spec fn follows(s: Seq<ReceiptView>, r: ReceiptView) -> bool {
    &&& r.sequence == s.len()
    &&& r.prev_hash == tail_hash(s)
    &&& r.content_hash == receipt_digest(r.sequence, r.timestamp, r.prev_hash, r.payload)
}

/// Is `r` the receipt of `payload` that comes next after `s`? It is one of an
/// outcome, and unsigned.
pub open spec fn is_next_receipt(
    s: Seq<ReceiptView>,
    r: ReceiptView,
    payload: PayloadView,
) -> bool {
    &&& follows(s, r)
    &&& r.kind == "lava.outcome"@
    &&& r.payload == payload
    &&& r.signature == Signature::Unsigned
}

/// Are the receipts numbered from zero, each linked to the one before it, and
/// each sealed by the digest of its contents?
pub open spec fn is_linked(s: Seq<ReceiptView>) -> bool {
    forall|i: int| 0 <= i < s.len() ==> follows(s.take(i), #[trigger] s[i])
}

/// Does the time `a` lie before the time `b`?
pub open spec fn is_earlier(a: (i64, u32), b: (i64, u32)) -> bool {
    a.0 < b.0 || (a.0 == b.0 && a.1 < b.1)
}

/// Was no receipt sealed before the one before it?
pub open spec fn is_in_time_order(s: Seq<ReceiptView>) -> bool {
    forall|i: int|
        1 <= i < s.len() ==> !is_earlier((#[trigger] s[i]).timestamp, s[i - 1].timestamp)
}

/// Are the receipts linked and in the order of their times?
pub open spec fn is_sound(s: Seq<ReceiptView>) -> bool {
    is_linked(s) && is_in_time_order(s)
}

/// A linked chain stays linked when its next receipt is appended.
pub proof fn law_append_keeps_chain_linked(
    s: Seq<ReceiptView>,
    r: ReceiptView,
    payload: PayloadView,
)
    requires
        is_linked(s),
        is_next_receipt(s, r, payload),
    ensures
        is_linked(s.push(r)),
{
    let t = s.push(r);
    assert forall|i: int| 0 <= i < t.len() implies follows(t.take(i), #[trigger] t[i]) by {
        assert(t.take(i) =~= s.take(i));
        if i < s.len() {
            assert(t[i] == s[i]);
        } else {
            assert(s.take(i) =~= s);
        }
    }
}

/// In a linked chain each receipt is numbered by its place, the first links to
/// the all-zero digest and every other to the digest of its predecessor.
pub proof fn law_linked_chain_has_no_gap(s: Seq<ReceiptView>, i: int)
    requires
        is_linked(s),
        0 <= i < s.len(),
    ensures
        s[i].sequence == i,
        i == 0 ==> s[i].prev_hash == hash::genesis_bytes(),
        i > 0 ==> s[i].prev_hash == s[i - 1].content_hash,
{
    assert(follows(s.take(i), s[i]));
    if i > 0 {
        assert(s.take(i).last() == s[i - 1]);
    }
}

/// Is `after` what appending the receipts of `payloads`, one by one and in
/// their order, makes of `before`?
pub open spec fn is_extended(
    before: Seq<ReceiptView>,
    payloads: Seq<PayloadView>,
    after: Seq<ReceiptView>,
) -> bool
    decreases payloads.len(),
{
    if payloads.len() == 0 {
        after == before
    } else {
        &&& after.len() > 0
        &&& is_extended(before, payloads.drop_last(), after.drop_last())
        &&& is_next_receipt(after.drop_last(), after.last(), payloads.last())
    }
}

/// However many receipts are appended, by whichever caller, the chain holds
/// one for each payload, in their order, behind the receipts that were there,
/// and a linked chain stays linked.
pub proof fn law_chain_records_every_append(
    before: Seq<ReceiptView>,
    payloads: Seq<PayloadView>,
    after: Seq<ReceiptView>,
)
    requires
        is_extended(before, payloads, after),
    ensures
        after.len() == before.len() + payloads.len(),
        after.take(before.len() as int) == before,
        forall|i: int|
            0 <= i < payloads.len() ==> {
                &&& (#[trigger] after[before.len() + i]).payload == payloads[i]
                &&& after[before.len() + i].kind == "lava.outcome"@
                &&& after[before.len() + i].signature == Signature::Unsigned
            },
        is_linked(before) ==> is_linked(after),
    decreases payloads.len(),
{
    if payloads.len() == 0 {
        assert(after.take(before.len() as int) =~= before);
    } else {
        let shorter = after.drop_last();
        law_chain_records_every_append(before, payloads.drop_last(), shorter);
        assert(after.take(before.len() as int) =~= shorter.take(before.len() as int));
        assert(after =~= shorter.push(after.last()));
        assert forall|i: int| 0 <= i < payloads.len() implies {
            &&& (#[trigger] after[before.len() + i]).payload == payloads[i]
            &&& after[before.len() + i].kind == "lava.outcome"@
            &&& after[before.len() + i].signature == Signature::Unsigned
        } by {
            if i < payloads.len() - 1 {
                assert(after[before.len() + i] == shorter[before.len() + i]);
                assert(payloads[i] == payloads.drop_last()[i]);
            }
        }
        if is_linked(before) {
            law_append_keeps_chain_linked(shorter, after.last(), payloads.last());
        }
    }
}

/// A read gives back what an append wrote: the receipts that were there, then
/// the new one.
pub proof fn law_read_gives_back_append(
    before: Seq<ReceiptView>,
    receipt: ReceiptView,
    after: Seq<ReceiptView>,
    read: Seq<Receipt>,
)
    requires
        after == before.push(receipt),
        receipt_views(read) == after,
    ensures
        read.len() == before.len() + 1,
        receipt_views(read).drop_last() == before,
        read.last()@ == receipt,
{
    assert(receipt_views(read).drop_last() =~= before);
    assert(receipt_views(read).last() == read.last()@);
}

/// The outcome payload of the `lava_outcome_chain` crate.
#[verifier::external_type_specification]
#[verifier::external_body]
pub struct ExLavaPayload(LavaPayload);

/// What the fields of an outcome payload of the `lava_outcome_chain` crate say.
pub uninterp spec fn outcome_fields(p: LavaPayload) -> PayloadView;

/// A `lava_outcome_chain::OutcomePayload` with the same fields.
#[verifier::external_body]
fn to_lava(p: OutcomePayload) -> (r: LavaPayload)
    ensures
        outcome_fields(r) == p@,
{
    let (a, s) = (p.resource, p.change_summary);
    LavaPayload {
        resource: LavaAddress { cluster: a.cluster, namespace: a.namespace, name: a.name },
        spec_hash: LavaHash(p.spec_hash.0),
        terraform_json_hash: LavaHash(p.terraform_json_hash.0),
        plan_id: p.plan_id,
        phase: p.phase,
        change_summary: LavaSummary {
            create: s.create, update: s.update, delete: s.delete, no_op: s.no_op,
        },
        diagnostics: p.diagnostics,
    }
}

/// The fields of a `lava_outcome_chain::OutcomePayload`.
#[verifier::external_body]
fn of_lava(p: LavaPayload) -> (r: OutcomePayload)
    ensures
        r@ == outcome_fields(p),
{
    let (a, s) = (p.resource, p.change_summary);
    OutcomePayload {
        resource: ResourceAddress { cluster: a.cluster, namespace: a.namespace, name: a.name },
        spec_hash: ContentHash(p.spec_hash.0),
        terraform_json_hash: ContentHash(p.terraform_json_hash.0),
        plan_id: p.plan_id,
        phase: p.phase,
        change_summary: ChangeSummary {
            create: s.create, update: s.update, delete: s.delete, no_op: s.no_op,
        },
        diagnostics: p.diagnostics,
    }
}

/// What a chain adds to a payload when it seals it.
struct Seal {
    sequence: u64,
    timestamp: (i64, u32),
    kind: String,
    prev_hash: ContentHash,
    signature: Signature,
    content_hash: ContentHash,
}

spec fn sealed(seal: Seal, payload: PayloadView) -> ReceiptView {
    ReceiptView {
        sequence: seal.sequence as nat,
        timestamp: seal.timestamp,
        kind: seal.kind@,
        prev_hash: seal.prev_hash.0@,
        payload,
        signature: seal.signature,
        content_hash: seal.content_hash.0@,
    }
}

/// The receipt that a seal makes of a payload.
fn receipt_of(seal: Seal, payload: OutcomePayload) -> (r: Receipt)
    ensures
        r@ == sealed(seal, payload@),
{
    Receipt {
        sequence: seal.sequence,
        timestamp: seal.timestamp,
        kind: seal.kind,
        prev_hash: seal.prev_hash,
        payload,
        signature: seal.signature,
        content_hash: seal.content_hash,
    }
}

/// What seals and payloads of the crate make together.
spec fn sealed_all(s: Seq<(Seal, LavaPayload)>) -> Seq<ReceiptView> {
    s.map_values(|e: (Seal, LavaPayload)| sealed(e.0, outcome_fields(e.1)))
}

impl OutcomeChain {
    /// `lava_outcome_chain::OutcomeChain::new` over a new `InMemorySink` and
    /// `NoSigning`: a chain without receipts.
    #[verifier::external_body]
    fn new_raw() -> (r: OutcomeChain)
        ensures
            chain_receipts(r) == Seq::<ReceiptView>::empty(),
    {
        let inner = lava_outcome_chain::OutcomeChain::new(InMemorySink::default(), NoSigning);
        OutcomeChain { inner }
    }

    /// `lava_outcome_chain::OutcomeChain::append`: seals the payload behind
    /// the last receipt, numbers it by the receipts before it, links it to the
    /// digest of the last one (the all-zero digest in an empty chain) and
    /// stores it, as one of kind `lava.outcome` and, with `NoSigning`,
    /// unsigned. The content hash is a function of the sequence number, the
    /// timestamp, the link and the payload. The timestamp is the machine's
    /// time. It never fails here: the sink fails only where its lock is
    /// poisoned, and no one else has this sink; `NoSigning` never fails; and a
    /// payload of strings and numbers can always be encoded.
    #[verifier::external_body]
    fn append_raw(&mut self, payload: LavaPayload) -> (r: Result<Seal, LavaAppendError>)
        ensures
            r is Ok,
            r->Ok_0.sequence == chain_receipts(*old(self)).len(),
            r->Ok_0.kind@ == "lava.outcome"@,
            r->Ok_0.prev_hash.0@ == tail_hash(chain_receipts(*old(self))),
            r->Ok_0.signature == Signature::Unsigned,
            r->Ok_0.content_hash.0@ == receipt_digest(
                r->Ok_0.sequence as nat,
                r->Ok_0.timestamp,
                r->Ok_0.prev_hash.0@,
                outcome_fields(payload),
            ),
            chain_receipts(*final(self)) == chain_receipts(*old(self)).push(
                sealed(r->Ok_0, outcome_fields(payload)),
            ),
    {
        let r = self.inner.append(payload)?;
        let timestamp = (r.timestamp.timestamp(), r.timestamp.timestamp_subsec_nanos());
        let signature = match r.signature {
            LavaSignature::None => Signature::Unsigned,
            LavaSignature::Ed25519 { sig, public_key } => Signature::Ed25519 { sig, public_key },
        };
        let (prev_hash, content_hash) = (ContentHash(r.prev_hash.0), ContentHash(r.content_hash.0));
        Ok(Seal { sequence: r.sequence, timestamp, kind: r.kind, prev_hash, signature, content_hash })
    }

    /// `lava_outcome_chain::OutcomeChain::read_all`: the receipts in the order
    /// in which they were appended. It never fails here: the sink fails only
    /// where its lock is poisoned, and no one else has this sink.
    #[verifier::external_body]
    fn read_raw(&self) -> (r: Result<Vec<(Seal, LavaPayload)>, LavaAppendError>)
        ensures
            r is Ok,
            sealed_all(r->Ok_0@) == chain_receipts(*self),
    {
        let all = self.inner.read_all()?.into_iter().map(|r| {
            let timestamp = (r.timestamp.timestamp(), r.timestamp.timestamp_subsec_nanos());
            let signature = match r.signature {
                LavaSignature::None => Signature::Unsigned,
                LavaSignature::Ed25519 { sig, public_key } => Signature::Ed25519 { sig, public_key },
            };
            let (prev_hash, content_hash) =
                (ContentHash(r.prev_hash.0), ContentHash(r.content_hash.0));
            let (sequence, kind) = (r.sequence, r.kind);
            let seal = Seal { sequence, timestamp, kind, prev_hash, signature, content_hash };
            (seal, r.payload)
        });
        Ok(all.collect())
    }

    /// `lava_outcome_chain::verify_chain` with `NoOpVerifier`, over what
    /// `OutcomeChain::read_all` gives: it accepts exactly the receipts that are
    /// numbered from zero, linked, sealed by the digest of their contents, and
    /// not timed before the one before them. Neither the read nor the encoding
    /// of a receipt fails here, and no receipt is signed. Its error is passed
    /// on as text; which one comes is not stated.
    #[verifier::external_body]
    fn verify_raw(&self) -> (r: Result<(), String>)
        ensures
            r is Ok <==> is_sound(chain_receipts(*self)),
    {
        let all = self.inner.read_all().map_err(|e| e.to_string())?;
        lava_outcome_chain::verify_chain(&all, &NoOpVerifier).map_err(|e| e.to_string())
    }

    /// A chain without receipts.
    pub fn new() -> (r: OutcomeChain)
        ensures
            chain_receipts(r) == Seq::<ReceiptView>::empty(),
            is_linked(chain_receipts(r)),
    {
        OutcomeChain::new_raw()
    }

    /// Appends the receipt of `payload`.
    pub fn append(&mut self, payload: OutcomePayload) -> (r: Result<Receipt, AppendError>)
        ensures
            r is Ok,
            is_next_receipt(chain_receipts(*old(self)), r->Ok_0@, payload@),
            chain_receipts(*final(self)) == chain_receipts(*old(self)).push(r->Ok_0@),
            is_linked(chain_receipts(*old(self))) ==> is_linked(chain_receipts(*final(self))),
    {
        let copy = payload.clone();
        match self.append_raw(to_lava(payload)) {
            Ok(seal) => {
                let receipt = receipt_of(seal, copy);
                proof {
                    if is_linked(chain_receipts(*old(self))) {
                        law_append_keeps_chain_linked(
                            chain_receipts(*old(self)),
                            receipt@,
                            payload@,
                        );
                    }
                }
                Ok(receipt)
            },
            Err(e) => Err(AppendError { message: e.to_string() }),
        }
    }

    /// The receipts of the chain, oldest first.
    pub fn read_all(&self) -> (r: Result<Vec<Receipt>, AppendError>)
        ensures
            r is Ok,
            receipt_views(r->Ok_0@) == chain_receipts(*self),
    {
        match self.read_raw() {
            Ok(all) => {
                let ghost want = sealed_all(all@);
                let mut out: Vec<Receipt> = Vec::new();
                assert(receipt_views(out@) =~= want.take(0));
                for entry in it: all
                    invariant
                        want == sealed_all(it.seq()),
                        receipt_views(out@) == want.take(it.index()),
                {
                    let (seal, payload) = entry;
                    let receipt = receipt_of(seal, of_lava(payload));
                    assert(receipt@ == want[it.index()]);
                    let ghost before = out@;
                    out.push(receipt);
                    assert(receipt_views(out@) =~= receipt_views(before).push(receipt@));
                    assert(want.take(it.index() + 1) =~= want.take(it.index()).push(
                        want[it.index()],
                    ));
                }
                assert(want.take(want.len() as int) =~= want);
                Ok(out)
            },
            Err(e) => Err(AppendError { message: e.to_string() }),
        }
    }

    /// Walks the chain from its first receipt: it is sound where the receipts
    /// are linked and none was sealed before the one before it. Otherwise says
    /// what is wrong.
    pub fn verify(&self) -> (r: Result<(), AppendError>)
        ensures
            r is Ok <==> is_sound(chain_receipts(*self)),
    {
        match self.verify_raw() {
            Ok(()) => Ok(()),
            Err(message) => Err(AppendError { message }),
        }
    }
}

/// A time lies before another where fewer nanoseconds have passed, whole
/// seconds counted first.
pub proof fn law_earlier_times(a: (i64, u32), b: (i64, u32))
    ensures
        is_earlier(a, b) <==> a.0 as int * 0x1_0000_0000 + a.1 < b.0 as int * 0x1_0000_0000 + b.1,
{
}

/// In a sound chain no receipt was sealed before any that stands before it, each
/// is sealed by the digest of what it holds, and each links to its predecessor.
pub proof fn law_sound_chain_never_goes_back(s: Seq<ReceiptView>, i: int, j: int)
    requires
        is_sound(s),
        0 <= i <= j < s.len(),
    ensures
        s[i].timestamp.0 < s[j].timestamp.0 || (s[i].timestamp.0 == s[j].timestamp.0
            && s[i].timestamp.1 <= s[j].timestamp.1),
        s[j].sequence == j,
        j > 0 ==> s[j].prev_hash == s[j - 1].content_hash,
        s[j].content_hash == receipt_digest(
            j as nat,
            s[j].timestamp,
            s[j].prev_hash,
            s[j].payload,
        ),
    decreases j - i,
{
    law_linked_chain_has_no_gap(s, j);
    assert(follows(s.take(j), s[j]));
    if i < j {
        law_sound_chain_never_goes_back(s, i, j - 1);
        assert(!is_earlier(s[j].timestamp, s[j - 1].timestamp));
    }
}

/// A chain whose receipts are numbered, linked, sealed and timed as they should
/// be is sound.
pub proof fn law_sound_chain_is_recognized(s: Seq<ReceiptView>)
    requires
        forall|i: int|
            0 <= i < s.len() ==> {
                &&& (#[trigger] s[i]).sequence == i
                &&& i == 0 ==> s[i].prev_hash == hash::genesis_bytes()
                &&& i > 0 ==> s[i].prev_hash == s[i - 1].content_hash
                &&& s[i].content_hash == receipt_digest(
                    i as nat,
                    s[i].timestamp,
                    s[i].prev_hash,
                    s[i].payload,
                )
                &&& i > 0 ==> s[i - 1].timestamp.0 < s[i].timestamp.0 || (s[i - 1].timestamp.0
                    == s[i].timestamp.0 && s[i - 1].timestamp.1 <= s[i].timestamp.1)
            },
    ensures
        is_sound(s),
{
    assert forall|i: int| 0 <= i < s.len() implies follows(s.take(i), #[trigger] s[i]) by {
        if i > 0 {
            assert(s.take(i).last() == s[i - 1]);
        }
    }
}

/// The receipt of a payload holds that payload, comes with the number of those
/// before it, links to the last of them, or to the all-zero digest where there
/// is none, and is unsigned.
pub proof fn law_receipt_seals_its_payload(s: Seq<ReceiptView>, r: Receipt, payload: OutcomePayload)
    requires
        is_next_receipt(s, r@, payload@),
    ensures
        r.sequence == s.len(),
        r.kind@ == "lava.outcome"@,
        r.signature == Signature::Unsigned,
        s.len() > 0 ==> r.prev_hash.0@ == s[s.len() - 1].content_hash,
        s.len() == 0 ==> forall|i: int| 0 <= i < 32 ==> #[trigger] r.prev_hash.0@[i] == 0,
        r.content_hash.0@ == receipt_digest(
            s.len(),
            r.timestamp,
            r.prev_hash.0@,
            payload@,
        ),
        r.payload.phase@ == payload.phase@,
        r.payload.resource.cluster@ == payload.resource.cluster@,
        r.payload.resource.namespace@ == payload.resource.namespace@,
        r.payload.resource.name@ == payload.resource.name@,
        r.payload.spec_hash.0@ == payload.spec_hash.0@,
        r.payload.terraform_json_hash.0@ == payload.terraform_json_hash.0@,
        r.payload.change_summary == payload.change_summary,
        r.payload.plan_id is Some <==> payload.plan_id is Some,
        payload.plan_id is Some ==> r.payload.plan_id->0@ == payload.plan_id->0@,
        r.payload.diagnostics@.len() == payload.diagnostics@.len(),
        forall|i: int|
            0 <= i < payload.diagnostics@.len() ==> (#[trigger] r.payload.diagnostics@[i])@
                == payload.diagnostics@[i]@,
{
    let ours = text::texts(r.payload.diagnostics@);
    let theirs = text::texts(payload.diagnostics@);
    assert(r.payload@ == payload@);
    assert(ours == theirs);
    assert(ours.len() == r.payload.diagnostics@.len());
    assert(theirs.len() == payload.diagnostics@.len());
    assert forall|i: int| 0 <= i < payload.diagnostics@.len() implies (
    #[trigger] r.payload.diagnostics@[i])@ == payload.diagnostics@[i]@ by {
        assert(ours[i] == r.payload.diagnostics@[i]@);
        assert(theirs[i] == payload.diagnostics@[i]@);
    }
}

/// A list of receipts is told receipt by receipt, in its order, and each by what
/// it holds.
pub proof fn law_receipts_are_told_in_order(s: Seq<Receipt>, i: int)
    requires
        0 <= i < s.len(),
    ensures
        receipt_views(s).len() == s.len(),
        receipt_views(s)[i].sequence == s[i].sequence,
        receipt_views(s)[i].timestamp == s[i].timestamp,
        receipt_views(s)[i].kind == s[i].kind@,
        receipt_views(s)[i].prev_hash == s[i].prev_hash.0@,
        receipt_views(s)[i].signature == s[i].signature,
        receipt_views(s)[i].content_hash == s[i].content_hash.0@,
        receipt_views(s)[i].payload.resource.cluster == s[i].payload.resource.cluster@,
        receipt_views(s)[i].payload.resource.namespace == s[i].payload.resource.namespace@,
        receipt_views(s)[i].payload.resource.name == s[i].payload.resource.name@,
        receipt_views(s)[i].payload.spec_hash == s[i].payload.spec_hash.0@,
        receipt_views(s)[i].payload.terraform_json_hash == s[i].payload.terraform_json_hash.0@,
        receipt_views(s)[i].payload.plan_id is Some <==> s[i].payload.plan_id is Some,
        s[i].payload.plan_id is Some ==> receipt_views(s)[i].payload.plan_id->0
            == s[i].payload.plan_id->0@,
        receipt_views(s)[i].payload.phase == s[i].payload.phase@,
        receipt_views(s)[i].payload.change_summary == s[i].payload.change_summary,
        receipt_views(s)[i].payload.diagnostics == text::texts(s[i].payload.diagnostics@),
        no_changes().create == 0 && no_changes().update == 0,
        no_changes().delete == 0 && no_changes().no_op == 0,
{
}

} // verus!
