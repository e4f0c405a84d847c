//! Plain values exchanged with the simulated node.
use vstd::prelude::*;

verus! {

/// An amount of money in millisatoshis.
#[derive(Clone, Copy, Debug, PartialEq, Eq, Structural)]
pub struct Amount {
    pub msats: u64,
}

impl Amount {
    pub fn from_msats(msats: u64) -> (r: Amount)
        ensures
            r.msats == msats,
    {
        Amount { msats }
    }
}

/// The secret whose hash is the payment hash of every invoice a node issues.
#[derive(Clone, Copy, Debug, PartialEq, Eq)]
pub struct Preimage(pub [u8; 32]);

/// Why a node operation failed.
#[derive(Clone, Copy, Debug, PartialEq, Eq, Structural)]
pub enum GatewayError {
    /// The node is disconnected.
    NotConnected,
    /// The invoice text does not decode to a signed invoice with an amount.
    MalformedInvoice,
    /// The invoice could not be built or signed.
    InvoiceCreation,
    /// Paying the invoice would overflow the ledger.
    AmountOverflow,
}

impl GatewayError {
    /// A human-readable description of the error.
    pub fn message(&self) -> (r: &'static str)
        ensures
            *self == GatewayError::NotConnected ==> r@ == "Error not connected to Lightning"@,
            *self == GatewayError::MalformedInvoice ==> r@ == "Malformed invoice"@,
            *self == GatewayError::InvoiceCreation ==> r@ == "Invoice could not be created"@,
            *self == GatewayError::AmountOverflow ==> r@ == "Amount paid overflows the ledger"@,
    {
        match self {
            GatewayError::NotConnected => "Error not connected to Lightning",
            GatewayError::MalformedInvoice => "Malformed invoice",
            GatewayError::InvoiceCreation => "Invoice could not be created",
            GatewayError::AmountOverflow => "Amount paid overflows the ledger",
        }
    }
}

/// Identity of a node.
#[derive(Clone, Debug, PartialEq, Eq)]
pub struct GetNodeInfoResponse {
    /// The node's public key, serialized in compressed form.
    pub pub_key: Vec<u8>,
    pub alias: String,
}

/// One hop of a private route towards a node.
#[derive(Clone, Debug, PartialEq, Eq)]
pub struct RouteHintHop {
    pub src_node_id: Vec<u8>,
    pub short_channel_id: u64,
    pub base_msat: u32,
    pub proportional_millionths: u32,
    pub cltv_expiry_delta: u32,
    pub htlc_minimum_msat: Option<u64>,
    pub htlc_maximum_msat: Option<u64>,
}

/// A private route towards a node.
#[derive(Clone, Debug, PartialEq, Eq)]
pub struct RouteHint {
    pub hops: Vec<RouteHintHop>,
}

#[derive(Clone, Debug, PartialEq, Eq)]
pub struct GetRouteHintsResponse {
    pub route_hints: Vec<RouteHint>,
}

#[derive(Clone, Debug, PartialEq, Eq)]
pub struct PayInvoiceRequest {
    /// The invoice in its BOLT11 text form.
    pub invoice: String,
}

#[derive(Clone, Debug, PartialEq, Eq)]
pub struct PayInvoiceResponse {
    pub preimage: Vec<u8>,
}

#[derive(Clone, Copy, Debug, PartialEq, Eq, Structural)]
pub struct SubscribeInterceptHtlcsRequest {
    pub short_channel_id: u64,
}

/// An HTLC held by the node for the gateway to settle or cancel.
#[derive(Clone, Debug, PartialEq, Eq)]
pub struct InterceptHtlcRequest {
    pub payment_hash: Vec<u8>,
    pub incoming_amount_msat: u64,
    pub outgoing_amount_msat: u64,
    pub incoming_expiry: u32,
    pub short_channel_id: u64,
    pub incoming_chan_id: u64,
    pub htlc_id: u64,
}

#[derive(Clone, Debug, PartialEq, Eq)]
pub struct CompleteHtlcsRequest {
    pub incoming_chan_id: u64,
    pub htlc_id: u64,
    /// The preimage that settles the HTLC; none cancels it.
    pub preimage: Option<Vec<u8>>,
}

#[derive(Clone, Copy, Debug, PartialEq, Eq, Structural)]
pub struct CompleteHtlcsResponse {}

} // verus!
