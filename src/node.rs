//! The simulated node: identity, fixed preimage, payment ledger and
//! connectivity switch, with the operations a gateway and a test harness use.
use vstd::prelude::*;
use crate::bolt11::{has_oversized_unprefixed_amount, unprefixed_amount_too_large};
use crate::crypto::{
    build_signed_invoice, decode_invoice, InvoiceFields, decoded_invoice_of, derive_public_key, public_key_of,
    random_secret_key, sha256_digest, sha256_of,
};
use crate::messages::{
    Amount, CompleteHtlcsRequest, CompleteHtlcsResponse, GatewayError, GetNodeInfoResponse,
    GetRouteHintsResponse, InterceptHtlcRequest, PayInvoiceRequest, PayInvoiceResponse, Preimage,
    RouteHint, SubscribeInterceptHtlcsRequest,
};

verus! {

/// Expiry of an invoice for which none is asked, in seconds.
pub const DEFAULT_EXPIRY_SECS: u64 = 3600;

/// Largest invoice amount: invoices count in tenths of a millisatoshi, in a `u64`.
pub const MAX_INVOICE_MSATS: u64 = 1844674407370955161;

/// Every byte of the node's preimage.
pub const PREIMAGE_BYTE: u8 = 1;

/// The alias the node reports.
pub const NODE_ALIAS: &'static str = "FakeLightningNode";

/// The preimage every node is built with.
pub open spec fn fixed_preimage(p: Seq<u8>) -> bool {
    &&& p.len() == 32
    &&& forall|i: int| 0 <= i < 32 ==> #[trigger] p[i] == PREIMAGE_BYTE
}

/// The amount that paying `text` adds to the ledger: the amount of the
/// invoice it decodes to, or none when it does not decode or has no amount.
pub open spec fn payable_amount(text: Seq<char>) -> Option<u64> {
    if unprefixed_amount_too_large(text) {
        None
    } else {
        match decoded_invoice_of(text) {
            Some(d) => d.amount_msats,
            None => None,
        }
    }
}

fn bytes_to_vec(b: &[u8]) -> (r: Vec<u8>)
    ensures
        r@ == b@,
{
    let mut r: Vec<u8> = Vec::new();
    for i in 0..b.len()
        invariant
            r@ == b@.subrange(0, i as int),
    {
        r.push(b[i]);
    }
    assert(r@ == b@.subrange(0, b@.len() as int));
    r
}

#[derive(Clone, Debug)]
pub struct FakeLightningTest {
    pub preimage: Preimage,
    /// The node's public key, serialized in compressed form.
    pub gateway_node_pub_key: [u8; 33],
    gateway_node_sec_key: [u8; 32],
    amount_sent: u64,
    is_connected: bool,
}

impl FakeLightningTest {
    /// The node's secret key.
    pub closed spec fn secret_key(&self) -> Seq<u8> {
        self.gateway_node_sec_key@
    }

    /// The bytes of the preimage.
    pub closed spec fn preimage_bytes(&self) -> Seq<u8> {
        self.preimage.0@
    }

    /// The published public key.
    pub closed spec fn pub_key(&self) -> Seq<u8> {
        self.gateway_node_pub_key@
    }

    /// Millisatoshis paid through the node so far.
    pub closed spec fn ledger(&self) -> u64 {
        self.amount_sent
    }

    pub closed spec fn connected(&self) -> bool {
        self.is_connected
    }

    /// The public key is the one of the secret key.
    pub open spec fn wf(&self) -> bool {
        public_key_of(self.secret_key()) == Some(self.pub_key())
    }

    /// `self` has the identity and preimage of `other`.
    pub open spec fn same_identity(&self, other: &Self) -> bool {
        &&& self.preimage_bytes() == other.preimage_bytes()
        &&& self.pub_key() == other.pub_key()
        &&& self.secret_key() == other.secret_key()
    }

    /// `self` is `before` with its connectivity set to `connected`.
    pub open spec fn switched(&self, before: &Self, connected: bool) -> bool {
        &&& self.connected() == connected
        &&& self.ledger() == before.ledger()
        &&& self.same_identity(before)
    }

    /// The outcome of the connectivity check that every gated operation makes.
    pub open spec fn gate(&self) -> Result<(), GatewayError> {
        if self.connected() {
            Ok(())
        } else {
            Err(GatewayError::NotConnected)
        }
    }

    /// `text` is a regtest invoice of this node for `amount_msats`, expiring
    /// after `expiry_secs`: it decodes, carries the hash of the preimage, an
    /// empty description, a zero minimum final CLTV expiry and a zero payment
    /// secret, and was signed with the node's secret key.
    pub open spec fn issued(&self, text: Seq<char>, amount_msats: u64, expiry_secs: u64) -> bool {
        &&& !unprefixed_amount_too_large(text)
        &&& public_key_of(self.secret_key()) is Some
        &&& decoded_invoice_of(text) == Some(
            InvoiceFields {
                currency: seq!['b', 'c', 'r', 't'],
                payment_hash: sha256_of(self.preimage_bytes()),
                amount_msats: Some(amount_msats),
                expiry_secs: expiry_secs,
                payee_pub_key: public_key_of(self.secret_key())->0,
                description: Some(Seq::<char>::empty()),
                min_final_cltv_expiry: 0,
                payment_secret: Seq::new(32, |i: int| 0u8),
            },
        )
    }

    /// What `invoice(amount_msats, expiry_time)` answers on `self`: refused
    /// when disconnected or above `MAX_INVOICE_MSATS`, issued otherwise, and
    /// always issued by a well-formed node, signed by its published key.
    pub open spec fn invoice_outcome(
        &self,
        amount_msats: u64,
        expiry_time: Option<u64>,
        r: Result<String, GatewayError>,
    ) -> bool {
        &&& !self.connected() ==> r == Err::<String, GatewayError>(GatewayError::NotConnected)
        &&& self.connected() && amount_msats > MAX_INVOICE_MSATS ==> r == Err::<String, GatewayError>(
            GatewayError::InvoiceCreation,
        )
        &&& self.connected() && amount_msats <= MAX_INVOICE_MSATS ==> match r {
            Ok(t) => self.issued(t@, amount_msats, expiry_time.unwrap_or(DEFAULT_EXPIRY_SECS)),
            Err(e) => e == GatewayError::InvoiceCreation,
        }
        &&& self.wf() && self.connected() && amount_msats <= MAX_INVOICE_MSATS ==> r is Ok
        &&& self.wf() && r is Ok ==> (decoded_invoice_of(r->Ok_0@)->0).payee_pub_key == self.pub_key()
    }

    /// How crediting `amount` (the amount of a decoded invoice, none when it
    /// has none) on `before` leaves the node as `after`, answering `r`. The
    /// connectivity check comes first, then the amount, then the ledger
    /// update; a failure changes nothing.
    pub open spec fn credit_outcome(
        before: Self,
        after: Self,
        amount: Option<u64>,
        r: Result<PayInvoiceResponse, GatewayError>,
    ) -> bool {
        &&& after.same_identity(&before)
        &&& after.connected() == before.connected()
        &&& match r {
            Ok(p) => {
                &&& before.connected()
                &&& amount is Some
                &&& after.ledger() == before.ledger() + amount->0
                &&& p.preimage@ == before.preimage_bytes()
                &&& p.preimage@.len() == 32
            },
            Err(e) => {
                &&& after.ledger() == before.ledger()
                &&& e == if !before.connected() {
                    GatewayError::NotConnected
                } else if amount is None {
                    GatewayError::MalformedInvoice
                } else {
                    GatewayError::AmountOverflow
                }
            },
        }
        &&& before.connected() && amount is Some ==> (r is Ok <==> before.ledger() + amount->0
            <= u64::MAX)
    }

    /// How paying `text` on `before` leaves the node as `after`, answering `r`:
    /// crediting the amount the text decodes to.
    pub open spec fn pay_outcome(
        before: Self,
        after: Self,
        text: Seq<char>,
        r: Result<PayInvoiceResponse, GatewayError>,
    ) -> bool {
        Self::credit_outcome(before, after, payable_amount(text), r)
    }

    /// A connected node with an empty ledger, the fixed preimage and the given
    /// secret key; none when `secret` is not a valid secret key.
    pub fn with_secret_key(secret: [u8; 32]) -> (r: Option<Self>)
        ensures
            r is Some <==> public_key_of(secret@) is Some,
            r matches Some(n) ==> {
                &&& n.wf()
                &&& n.secret_key() == secret@
                &&& fixed_preimage(n.preimage_bytes())
                &&& n.ledger() == 0
                &&& n.connected()
            },
    {
        match derive_public_key(&secret) {
            Some(pub_key) => Some(
                FakeLightningTest {
                    preimage: Preimage([PREIMAGE_BYTE; 32]),
                    gateway_node_pub_key: pub_key,
                    gateway_node_sec_key: secret,
                    amount_sent: 0,
                    is_connected: true,
                },
            ),
            None => None,
        }
    }

    /// A connected node with an empty ledger, the fixed preimage and a fresh
    /// random identity.
    pub fn new() -> (r: Self)
        ensures
            r.wf(),
            fixed_preimage(r.preimage_bytes()),
            r.ledger() == 0,
            r.connected(),
    {
        let secret = random_secret_key();
        Self::with_secret_key(secret).unwrap()
    }

    /// Fails with `NotConnected` when the node is disconnected.
    pub fn check_connected(&self) -> (r: Result<(), GatewayError>)
        ensures
            r == self.gate(),
    {
        if self.is_connected {
            Ok(())
        } else {
            Err(GatewayError::NotConnected)
        }
    }

    /// The hash of the preimage, which every invoice of the node carries.
    pub fn payment_hash(&self) -> (r: [u8; 32])
        ensures
            r@ == sha256_of(self.preimage_bytes()),
    {
        sha256_digest(self.preimage.0.as_slice())
    }
    /// A BOLT11 regtest invoice of this node for `amount`, with an empty
    /// description, the hash of the preimage, the current time, a minimum
    /// final CLTV expiry of zero, a zero payment secret, and `expiry_time`
    /// seconds of validity (`DEFAULT_EXPIRY_SECS` when none), signed with the
    /// node's key.
    pub fn invoice(&self, amount: Amount, expiry_time: Option<u64>) -> (r: Result<
        String,
        GatewayError,
    >)
        ensures
            self.invoice_outcome(amount.msats, expiry_time, r),
    {
        self.check_connected()?;
        if amount.msats > MAX_INVOICE_MSATS {
            return Err(GatewayError::InvoiceCreation);
        }
        let payment_hash = self.payment_hash();
        let expiry = match expiry_time {
            Some(e) => e,
            None => DEFAULT_EXPIRY_SECS,
        };
        let description: &str = "";
        let payment_secret: [u8; 32] = [0u8; 32];
        proof {
            reveal_strlit("");
            assert(description@ =~= Seq::<char>::empty());
            assert forall|i: int| 0 <= i < 32 implies payment_secret@[i] == 0u8 by {
                broadcast use vstd::array::axiom_spec_array_fill_for_copy_type;
            }
            assert(payment_secret@ =~= Seq::new(32, |i: int| 0u8));
        }
        match build_signed_invoice(
            &self.gateway_node_sec_key,
            description,
            &payment_hash,
            0,
            &payment_secret,
            amount.msats,
            expiry,
        ) {
            Some(t) => Ok(t),
            None => Err(GatewayError::InvoiceCreation),
        }
    }

    /// Millisatoshis paid through the node so far; answered also when
    /// disconnected.
    pub fn amount_sent(&self) -> (r: Amount)
        ensures
            r.msats == self.ledger(),
    {
        Amount::from_msats(self.amount_sent)
    }

    /// Whether one node serves several tests at once: never.
    pub fn is_shared(&self) -> (r: bool)
        ensures
            !r,
    {
        false
    }

    /// The node's serialized public key and its alias.
    pub fn info(&self) -> (r: Result<GetNodeInfoResponse, GatewayError>)
        ensures
            (match r {
                Ok(i) => {
                    &&& self.connected()
                    &&& i.pub_key@ == self.pub_key()
                    &&& i.pub_key@.len() == 33
                    &&& i.alias@ == NODE_ALIAS@
                },
                Err(e) => !self.connected() && e == GatewayError::NotConnected,
            }),
    {
        self.check_connected()?;
        Ok(
            GetNodeInfoResponse {
                pub_key: bytes_to_vec(self.gateway_node_pub_key.as_slice()),
                alias: NODE_ALIAS.to_string(),
            },
        )
    }

    /// One route hint without hops.
    pub fn routehints(&self) -> (r: Result<GetRouteHintsResponse, GatewayError>)
        ensures
            (match r {
                Ok(h) => self.connected() && h.route_hints@.len() == 1
                    && h.route_hints@[0].hops@.len() == 0,
                Err(e) => !self.connected() && e == GatewayError::NotConnected,
            }),
    {
        self.check_connected()?;
        Ok(GetRouteHintsResponse { route_hints: vec![RouteHint { hops: Vec::new() }] })
    }

    /// Credits the amount of a decoded invoice: adds it to the ledger and
    /// answers with the preimage; an invoice without an amount is malformed.
    pub fn credit_payment(&mut self, amount_msats: Option<u64>) -> (r: Result<
        PayInvoiceResponse,
        GatewayError,
    >)
        ensures
            Self::credit_outcome(*old(self), *final(self), amount_msats, r),
    {
        self.check_connected()?;
        let amount = match amount_msats {
            Some(a) => a,
            None => return Err(GatewayError::MalformedInvoice),
        };
        match self.amount_sent.checked_add(amount) {
            Some(total) => {
                self.amount_sent = total;
                Ok(PayInvoiceResponse { preimage: bytes_to_vec(self.preimage.0.as_slice()) })
            },
            None => Err(GatewayError::AmountOverflow),
        }
    }

    /// Pays the invoice in `invoice`: decodes it, adds its amount to the
    /// ledger and answers with the preimage.
    pub fn pay(&mut self, invoice: PayInvoiceRequest) -> (r: Result<PayInvoiceResponse, GatewayError>)
        ensures
            Self::pay_outcome(*old(self), *final(self), invoice.invoice@, r),
    {
        self.check_connected()?;
        let text = invoice.invoice.as_str();
        if has_oversized_unprefixed_amount(text) {
            return Err(GatewayError::MalformedInvoice);
        }
        match decode_invoice(text) {
            Some(d) => self.credit_payment(d.amount_msats),
            None => Err(GatewayError::MalformedInvoice),
        }
    }

    /// The HTLCs intercepted for the gateway: there are none.
    pub fn subscribe_htlcs(&self, _subscription: SubscribeInterceptHtlcsRequest) -> (r: Result<
        Vec<InterceptHtlcRequest>,
        GatewayError,
    >)
        ensures
            (match r {
                Ok(v) => self.connected() && v@.len() == 0,
                Err(e) => !self.connected() && e == GatewayError::NotConnected,
            }),
    {
        self.check_connected()?;
        Ok(Vec::new())
    }

    /// Acknowledges the completion of an HTLC, without looking at it.
    pub fn complete_htlc(&self, _complete: CompleteHtlcsRequest) -> (r: Result<
        CompleteHtlcsResponse,
        GatewayError,
    >)
        ensures
            (match r {
                Ok(_) => self.connected(),
                Err(e) => !self.connected() && e == GatewayError::NotConnected,
            }),
    {
        self.check_connected()?;
        Ok(CompleteHtlcsResponse {  })
    }

    /// Brings the node online.
    pub fn connect(&mut self) -> (r: Result<(), GatewayError>)
        ensures
            r is Ok,
            final(self).switched(old(self), true),
    {
        self.is_connected = true;
        Ok(())
    }

    /// Takes the node offline.
    pub fn disconnect(&mut self) -> (r: Result<(), GatewayError>)
        ensures
            r is Ok,
            final(self).switched(old(self), false),
    {
        self.is_connected = false;
        Ok(())
    }
} // impl FakeLightningTest

impl Default for FakeLightningTest {
    fn default() -> (r: Self)
        ensures
            r.wf(),
            fixed_preimage(r.preimage_bytes()),
            r.ledger() == 0,
            r.connected(),
    {
        Self::new()
    }
}

} // verus!
