//! Laws that relate the node's operations to each other.
use vstd::prelude::*;
use crate::bolt11::unprefixed_amount_too_large;
use crate::crypto::{decoded_invoice_of, sha256_of};
use crate::messages::{GatewayError, PayInvoiceResponse};
use crate::node::{payable_amount, FakeLightningTest, MAX_INVOICE_MSATS};

verus! {

/// Any two invoices issued by a node, before or after payments and
/// connectivity changes, carry the same payment hash: the hash of the node's
/// preimage.
pub proof fn lemma_invoice_hash_consistency(
    n1: FakeLightningTest,
    t1: Seq<char>,
    a1: u64,
    e1: u64,
    n2: FakeLightningTest,
    t2: Seq<char>,
    a2: u64,
    e2: u64,
)
    requires
        n2.same_identity(&n1),
        n1.issued(t1, a1, e1),
        n2.issued(t2, a2, e2),
    ensures
        decoded_invoice_of(t1) is Some,
        decoded_invoice_of(t2) is Some,
        (decoded_invoice_of(t1)->0).payment_hash == (decoded_invoice_of(t2)->0).payment_hash,
        (decoded_invoice_of(t1)->0).payment_hash == sha256_of(n1.preimage_bytes()),
{
}

/// An invoice issued by a well-formed node decodes, which requires its
/// signature to verify, and the key that signed it is the node's published
/// public key.
pub proof fn lemma_invoice_signed_by_node(n: FakeLightningTest, t: Seq<char>, a: u64, e: u64)
    requires
        n.wf(),
        n.issued(t, a, e),
    ensures
        decoded_invoice_of(t) is Some,
        (decoded_invoice_of(t)->0).payee_pub_key == n.pub_key(),
{
}

/// Paying an invoice that a node issued for `a` millisatoshis, on a connected
/// node whose ledger has room, succeeds and adds exactly `a` to the ledger.
pub proof fn lemma_pay_issued_invoice(
    n: FakeLightningTest,
    t: Seq<char>,
    a: u64,
    e: u64,
    after: FakeLightningTest,
    r: Result<PayInvoiceResponse, GatewayError>,
)
    requires
        n.issued(t, a, e),
        n.connected(),
        n.ledger() + a <= u64::MAX,
        FakeLightningTest::pay_outcome(n, after, t, r),
    ensures
        payable_amount(t) == Some(a),
        r is Ok,
        after.ledger() == n.ledger() + a,
{
}

/// A well-formed connected node always issues an invoice for an amount up to
/// `MAX_INVOICE_MSATS`; paying that invoice back to it, when the ledger has
/// room, succeeds and adds exactly that amount, and the node stays
/// well-formed.
pub proof fn lemma_pay_own_invoice(
    n: FakeLightningTest,
    amount: u64,
    expiry_time: Option<u64>,
    issued: Result<String, GatewayError>,
    after: FakeLightningTest,
    paid: Result<PayInvoiceResponse, GatewayError>,
)
    requires
        n.wf(),
        n.connected(),
        amount <= MAX_INVOICE_MSATS,
        n.ledger() + amount <= u64::MAX,
        n.invoice_outcome(amount, expiry_time, issued),
        FakeLightningTest::pay_outcome(n, after, issued->Ok_0@, paid),
    ensures
        issued is Ok,
        paid is Ok,
        after.ledger() == n.ledger() + amount,
        after.connected(),
        after.wf(),
{
}

/// After a disconnect every gated operation fails with `NotConnected`, and a
/// payment does not touch the ledger.
/// A connect that follows lets them through and keeps the node's keys,
/// preimage and paid total.
pub proof fn lemma_connectivity_gating(
    n: FakeLightningTest,
    off: FakeLightningTest,
    on: FakeLightningTest,
)
    requires
        off.switched(&n, false),
        on.switched(&off, true),
    ensures
        !off.connected(),
        off.gate() == Err::<(), GatewayError>(GatewayError::NotConnected),
        forall|after: FakeLightningTest, text: Seq<char>, r: Result<PayInvoiceResponse, GatewayError>|
            #[trigger] FakeLightningTest::pay_outcome(off, after, text, r) ==> r == Err::<
                PayInvoiceResponse,
                GatewayError,
            >(GatewayError::NotConnected) && after.ledger() == off.ledger(),
        forall|amount: u64, expiry_time: Option<u64>, r: Result<String, GatewayError>|
            #[trigger] off.invoice_outcome(amount, expiry_time, r) ==> r == Err::<
                String,
                GatewayError,
            >(GatewayError::NotConnected),
        on.connected(),
        on.gate() == Ok::<(), GatewayError>(()),
        n.wf() ==> on.wf(),
        forall|amount: u64, expiry_time: Option<u64>, r: Result<String, GatewayError>|
            on.wf() && amount <= MAX_INVOICE_MSATS && #[trigger] on.invoice_outcome(
                amount,
                expiry_time,
                r,
            ) ==> r is Ok,
        on.ledger() == n.ledger(),
        on.same_identity(&n),
{
}

/// Paying a text that does not decode to an invoice with an amount fails
/// with `MalformedInvoice` on a connected node and leaves the ledger as it was.
pub proof fn lemma_malformed_invoice_rejected(
    n: FakeLightningTest,
    text: Seq<char>,
    after: FakeLightningTest,
    r: Result<PayInvoiceResponse, GatewayError>,
)
    requires
        n.connected(),
        unprefixed_amount_too_large(text) || decoded_invoice_of(text) is None || (decoded_invoice_of(text)->0).amount_msats is None,
        FakeLightningTest::pay_outcome(n, after, text, r),
    ensures
        r == Err::<PayInvoiceResponse, GatewayError>(GatewayError::MalformedInvoice),
        after.ledger() == n.ledger(),
{
}

} // verus!
