//! The cryptography and invoice encoding the node relies on, from the
//! `bitcoin` (secp256k1, SHA-256) and `lightning-invoice` crates.
//!
//! Their results are named by the spec functions below; the wrappers state
//! what those crates promise of them.
use vstd::prelude::*;
use bitcoin::hashes::Hash as HashDigest;
use bitcoin::hashes::sha256;
use bitcoin::secp256k1::{KeyPair, PublicKey, Secp256k1, SecretKey};
use lightning::ln::PaymentSecret;
use lightning_invoice::{Currency, Invoice, InvoiceBuilder, InvoiceDescription, SignedRawInvoice};
use rand::rngs::OsRng;
use std::time::Duration;
use crate::bolt11::unprefixed_amount_too_large;

verus! {

/// The SHA-256 digest of `data`.
pub uninterp spec fn sha256_of(data: Seq<u8>) -> Seq<u8>;

/// The compressed serialization of the public key of the secp256k1 secret key
/// `secret`, or none when `secret` is not a valid secret key.
pub uninterp spec fn public_key_of(secret: Seq<u8>) -> Option<Seq<u8>>;

/// What a BOLT11 decoder reads from `text`, when it parses as a signed invoice
/// whose signature verifies.
pub uninterp spec fn decoded_invoice_of(text: Seq<char>) -> Option<InvoiceFields>;

/// The fields of a decoded invoice.
pub struct InvoiceFields {
    /// The currency's prefix (`bcrt` for regtest).
    pub currency: Seq<char>,
    pub payment_hash: Seq<u8>,
    /// The amount in millisatoshis, if any.
    pub amount_msats: Option<u64>,
    /// Seconds of validity.
    pub expiry_secs: u64,
    /// The public key that signed the invoice, serialized in compressed form.
    pub payee_pub_key: Seq<u8>,
    /// The description, when the invoice holds it rather than its hash.
    pub description: Option<Seq<char>>,
    pub min_final_cltv_expiry: u64,
    pub payment_secret: Seq<u8>,
}

/// The fields of a decoded invoice.
pub struct DecodedInvoice {
    pub currency: String,
    pub payment_hash: [u8; 32],
    pub amount_msats: Option<u64>,
    pub expiry_secs: u64,
    pub payee_pub_key: [u8; 33],
    pub description: Option<String>,
    pub min_final_cltv_expiry: u64,
    pub payment_secret: [u8; 32],
}

impl DecodedInvoice {
    pub open spec fn fields(&self) -> InvoiceFields {
        InvoiceFields {
            currency: self.currency@,
            payment_hash: self.payment_hash@,
            amount_msats: self.amount_msats,
            expiry_secs: self.expiry_secs,
            payee_pub_key: self.payee_pub_key@,
            description: match self.description {
                Some(d) => Some(d@),
                None => None,
            },
            min_final_cltv_expiry: self.min_final_cltv_expiry,
            payment_secret: self.payment_secret@,
        }
    }
}

/// Relies on bitcoin_hashes' `sha256::Hash::hash`: the digest of `data`.
#[verifier::external_body]
pub(crate) fn sha256_digest(data: &[u8]) -> (r: [u8; 32])
    ensures
        r@ == sha256_of(data@),
{
    sha256::Hash::hash(data).into_inner()
}

/// Relies on secp256k1's `KeyPair::new` with the operating system's random
/// source: the secret key it draws is valid.
#[verifier::external_body]
pub(crate) fn random_secret_key() -> (r: [u8; 32])
    ensures
        public_key_of(r@) is Some,
{
    KeyPair::new(&Secp256k1::new(), &mut OsRng).secret_bytes()
}

/// Relies on secp256k1's `SecretKey::from_slice`, `PublicKey::from_secret_key`
/// and `PublicKey::serialize`: the compressed public key of a valid secret key.
#[verifier::external_body]
pub(crate) fn derive_public_key(secret: &[u8; 32]) -> (r: Option<[u8; 33]>)
    ensures
        (match r {
            Some(k) => public_key_of(secret@) == Some(k@),
            None => public_key_of(secret@) is None,
        }),
{
    let sk = SecretKey::from_slice(secret).ok()?;
    Some(PublicKey::from_secret_key(&Secp256k1::signing_only(), &sk).serialize())
}

/// Relies on lightning-invoice's `InvoiceBuilder` for a regtest invoice,
/// timestamped now and signed by `build_signed` with a recoverable ECDSA
/// signature, and on `Invoice`'s `Display`. The builder always picks a
/// multiplier for the amount, and a decoder reads back what was built.
/// `amount_milli_satoshis` multiplies the amount by ten in a `u64`; building
/// fails only on an invalid key or a description over 639 bytes, which 159
/// characters never reach.
#[verifier::external_body]
pub(crate) fn build_signed_invoice(
    secret: &[u8; 32],
    description: &str,
    payment_hash: &[u8; 32],
    min_final_cltv_expiry: u64,
    payment_secret: &[u8; 32],
    amount_msats: u64,
    expiry_secs: u64,
) -> (r: Option<String>)
    requires
        amount_msats <= u64::MAX / 10,
    ensures
        public_key_of(secret@) is Some && description@.len() <= 159 ==> r is Some,
        (match r {
            Some(t) => {
                &&& public_key_of(secret@) is Some
                &&& !unprefixed_amount_too_large(t@)
                &&& decoded_invoice_of(t@) == Some(
                    InvoiceFields {
                        currency: seq!['b', 'c', 'r', 't'],
                        payment_hash: payment_hash@,
                        amount_msats: Some(amount_msats),
                        expiry_secs: expiry_secs,
                        payee_pub_key: public_key_of(secret@)->0,
                        description: Some(description@),
                        min_final_cltv_expiry: min_final_cltv_expiry,
                        payment_secret: payment_secret@,
                    },
                )
            },
            None => true,
        }),
{
    let sk = SecretKey::from_slice(secret).ok()?;
    let ctx = Secp256k1::signing_only();
    InvoiceBuilder::new(Currency::Regtest)
        .description(description.to_string())
        .payment_hash(sha256::Hash::from_inner(*payment_hash))
        .current_timestamp()
        .min_final_cltv_expiry(min_final_cltv_expiry)
        .payment_secret(PaymentSecret(*payment_secret))
        .amount_milli_satoshis(amount_msats)
        .expiry_time(Duration::from_secs(expiry_secs))
        .build_signed(|m| ctx.sign_ecdsa_recoverable(m, &sk))
        .ok()
        .map(|i| i.to_string())
}

/// Relies on lightning-invoice's `SignedRawInvoice::from_str` and
/// `Invoice::from_signed`, which checks the signature, and on the accessors of
/// `Invoice` (the currency read by its `Display`). `from_signed` overflows a
/// `u64` on a multiplier-free amount of more than `MAX_UNPREFIXED_AMOUNT`
/// bitcoin.
#[verifier::external_body]
pub(crate) fn decode_invoice(text: &str) -> (r: Option<DecodedInvoice>)
    requires
        !unprefixed_amount_too_large(text@),
    ensures
        (match r {
            Some(d) => decoded_invoice_of(text@) == Some(d.fields()),
            None => decoded_invoice_of(text@) is None,
        }),
{
    let invoice = Invoice::from_signed(text.parse::<SignedRawInvoice>().ok()?).ok()?;
    Some(DecodedInvoice {
        currency: invoice.currency().to_string(),
        payment_hash: invoice.payment_hash().into_inner(),
        amount_msats: invoice.amount_milli_satoshis(),
        expiry_secs: invoice.expiry_time().as_secs(),
        payee_pub_key: invoice.recover_payee_pub_key().serialize(),
        description: match invoice.description() {
            InvoiceDescription::Direct(d) => Some(d.to_string()),
            InvoiceDescription::Hash(_) => None,
        },
        min_final_cltv_expiry: invoice.min_final_cltv_expiry(),
        payment_secret: invoice.payment_secret().0,
    })
}

} // verus!
