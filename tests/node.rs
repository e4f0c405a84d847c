use std::str::FromStr;
use std::time::Duration;

use fake_lightning::bolt11::has_oversized_unprefixed_amount;
use fake_lightning::messages::{
    Amount, CompleteHtlcsRequest, GatewayError, PayInvoiceRequest, SubscribeInterceptHtlcsRequest,
};
use fake_lightning::node::{FakeLightningTest, DEFAULT_EXPIRY_SECS, MAX_INVOICE_MSATS};

const HASH_OF_ONES: &str = "72cd6e8422c407fb6d098690f1130b7ded7ec2f7f5e1d30bd9d521f015363793";
const GENERATOR: &str = "0279be667ef9dcbbac55a06295ce870b07029bfcdb2dce28d959f2815b16f81798";

fn hex(b: &[u8]) -> String {
    b.iter().map(|x| format!("{:02x}", x)).collect()
}

fn key_one() -> [u8; 32] {
    let mut k = [0u8; 32];
    k[31] = 1;
    k
}

fn pay(node: &mut FakeLightningTest, text: &str) -> Result<Vec<u8>, GatewayError> {
    node.pay(PayInvoiceRequest { invoice: text.to_string() }).map(|r| r.preimage)
}

fn all_gated_fail(node: &mut FakeLightningTest) -> bool {
    let text = "lnbcrt10u1qqqqqq";
    node.invoice(Amount::from_msats(1000), None) == Err(GatewayError::NotConnected)
        && node.info() == Err(GatewayError::NotConnected)
        && node.routehints() == Err(GatewayError::NotConnected)
        && pay(node, text) == Err(GatewayError::NotConnected)
        && node.subscribe_htlcs(SubscribeInterceptHtlcsRequest { short_channel_id: 7 })
            == Err(GatewayError::NotConnected)
        && node.complete_htlc(CompleteHtlcsRequest { incoming_chan_id: 1, htlc_id: 2, preimage: None })
            == Err(GatewayError::NotConnected)
}

#[test]
fn fresh_node_is_connected_with_empty_ledger() {
    let node = FakeLightningTest::new();
    assert_eq!(node.amount_sent(), Amount::from_msats(0));
    assert!(!node.is_shared());
    assert_eq!(node.preimage.0, [1u8; 32]);
    assert!(node.check_connected().is_ok());
    let d = FakeLightningTest::default();
    assert_eq!(d.amount_sent().msats, 0);
}

#[test]
fn payment_hash_is_sha256_of_preimage() {
    let node = FakeLightningTest::new();
    assert_eq!(hex(&node.payment_hash()), HASH_OF_ONES);
}

#[test]
fn secret_key_one_gives_generator() {
    let node = FakeLightningTest::with_secret_key(key_one()).unwrap();
    assert_eq!(hex(&node.gateway_node_pub_key), GENERATOR);
    let info = node.info().unwrap();
    assert_eq!(hex(&info.pub_key), GENERATOR);
    assert_eq!(info.alias, "FakeLightningNode");
}

#[test]
fn invalid_secret_key_is_refused() {
    assert!(FakeLightningTest::with_secret_key([0u8; 32]).is_none());
    assert!(FakeLightningTest::with_secret_key([0xffu8; 32]).is_none());
}

#[test]
fn invoice_decodes_to_requested_fields() {
    let node = FakeLightningTest::new();
    let text = node.invoice(Amount::from_msats(1000), None).unwrap();
    let inv = lightning_invoice::Invoice::from_str(&text).unwrap();
    assert_eq!(inv.amount_milli_satoshis(), Some(1000));
    assert_eq!(inv.expiry_time(), Duration::from_secs(DEFAULT_EXPIRY_SECS));
    assert_eq!(hex(&inv.payment_hash()[..]), HASH_OF_ONES);
    assert_eq!(inv.min_final_cltv_expiry(), 0);
    assert_eq!(inv.payment_secret().0, [0u8; 32]);
    assert_eq!(inv.currency(), lightning_invoice::Currency::Regtest);
    assert_eq!(inv.recover_payee_pub_key().serialize(), node.gateway_node_pub_key);
}

#[test]
fn invoice_keeps_given_expiry() {
    let node = FakeLightningTest::new();
    let text = node.invoice(Amount::from_msats(5), Some(60)).unwrap();
    let inv = lightning_invoice::Invoice::from_str(&text).unwrap();
    assert_eq!(inv.expiry_time(), Duration::from_secs(60));
    assert_eq!(inv.amount_milli_satoshis(), Some(5));
}

#[test]
fn invoices_share_payment_hash() {
    let node = FakeLightningTest::new();
    let a = node.invoice(Amount::from_msats(1), None).unwrap();
    let b = node.invoice(Amount::from_msats(2_000_000), Some(10)).unwrap();
    let ia = lightning_invoice::Invoice::from_str(&a).unwrap();
    let ib = lightning_invoice::Invoice::from_str(&b).unwrap();
    assert_eq!(ia.payment_hash(), ib.payment_hash());
}

#[test]
fn paying_invoices_accumulates_amounts() {
    let mut node = FakeLightningTest::new();
    let first = node.invoice(Amount::from_msats(1000), None).unwrap();
    assert_eq!(pay(&mut node, &first), Ok(vec![1u8; 32]));
    assert_eq!(node.amount_sent(), Amount::from_msats(1000));
    let second = node.invoice(Amount::from_msats(500), None).unwrap();
    assert_eq!(pay(&mut node, &second), Ok(vec![1u8; 32]));
    assert_eq!(node.amount_sent(), Amount::from_msats(1500));
}

#[test]
fn zero_amount_invoice_pays_nothing() {
    let mut node = FakeLightningTest::new();
    let text = node.invoice(Amount::from_msats(0), None).unwrap();
    assert!(pay(&mut node, &text).is_ok());
    assert_eq!(node.amount_sent().msats, 0);
}

#[test]
fn largest_invoice_amount_round_trips() {
    let mut node = FakeLightningTest::new();
    let text = node.invoice(Amount::from_msats(MAX_INVOICE_MSATS), None).unwrap();
    assert!(pay(&mut node, &text).is_ok());
    assert_eq!(node.amount_sent().msats, MAX_INVOICE_MSATS);
}

#[test]
fn invoice_above_largest_amount_fails() {
    let node = FakeLightningTest::new();
    assert_eq!(
        node.invoice(Amount::from_msats(MAX_INVOICE_MSATS + 1), None),
        Err(GatewayError::InvoiceCreation)
    );
}

#[test]
fn ledger_overflow_is_refused() {
    let mut node = FakeLightningTest::new();
    let big = node.invoice(Amount::from_msats(MAX_INVOICE_MSATS), None).unwrap();
    for _ in 0..10 {
        assert!(pay(&mut node, &big).is_ok());
    }
    assert_eq!(pay(&mut node, &big), Err(GatewayError::AmountOverflow));
    assert_eq!(node.amount_sent().msats, MAX_INVOICE_MSATS * 10);
}

#[test]
fn disconnect_gates_every_operation() {
    let mut node = FakeLightningTest::new();
    assert_eq!(node.disconnect(), Ok(()));
    assert!(all_gated_fail(&mut node));
    assert_eq!(node.amount_sent().msats, 0);
    assert_eq!(node.connect(), Ok(()));
    let text = node.invoice(Amount::from_msats(1000), None).unwrap();
    assert!(node.info().is_ok());
    assert!(node.routehints().is_ok());
    assert!(pay(&mut node, &text).is_ok());
    assert!(node.subscribe_htlcs(SubscribeInterceptHtlcsRequest { short_channel_id: 7 }).is_ok());
    assert!(node
        .complete_htlc(CompleteHtlcsRequest { incoming_chan_id: 1, htlc_id: 2, preimage: None })
        .is_ok());
    assert_eq!(node.amount_sent().msats, 1000);
}

#[test]
fn amount_sent_answers_while_disconnected() {
    let mut node = FakeLightningTest::new();
    let text = node.invoice(Amount::from_msats(42), None).unwrap();
    pay(&mut node, &text).unwrap();
    node.disconnect().unwrap();
    assert_eq!(node.amount_sent().msats, 42);
}

#[test]
fn route_hints_are_one_empty_hint() {
    let mut node = FakeLightningTest::new();
    let text = node.invoice(Amount::from_msats(3), None).unwrap();
    pay(&mut node, &text).unwrap();
    let hints = node.routehints().unwrap();
    assert_eq!(hints.route_hints.len(), 1);
    assert!(hints.route_hints[0].hops.is_empty());
}

#[test]
fn htlc_subscription_is_empty() {
    let node = FakeLightningTest::new();
    let htlcs = node.subscribe_htlcs(SubscribeInterceptHtlcsRequest { short_channel_id: 0 }).unwrap();
    assert!(htlcs.is_empty());
}

#[test]
fn malformed_invoice_is_rejected() {
    let mut node = FakeLightningTest::new();
    assert_eq!(pay(&mut node, "not an invoice"), Err(GatewayError::MalformedInvoice));
    assert_eq!(pay(&mut node, ""), Err(GatewayError::MalformedInvoice));
    assert_eq!(node.amount_sent().msats, 0);
}

#[test]
fn amountless_invoice_is_rejected() {
    let mut node = FakeLightningTest::new();
    let text = "lnbc1pvjluezpp5qqqsyqcyq5rqwzqfqqqsyqcyq5rqwzqfqqqsyqcyq5rqwzqfqypqdpl2pkx2ctnv5sxxmmwwd5kgetjypeh2ursdae8g6twvus8g6rfwvs8qun0dfjkxaq8rkx3yf5tcsyz3d73gafnh3cax9rn449d9p5uxz9ezhhypd0elx87sjle52x86fux2ypatgddc6k63n7erqz25le42c4u4ecky03ylcqca784w";
    assert_eq!(pay(&mut node, text), Err(GatewayError::MalformedInvoice));
    assert_eq!(node.amount_sent().msats, 0);
}

#[test]
fn tampered_invoice_is_rejected() {
    let mut node = FakeLightningTest::new();
    let text = node.invoice(Amount::from_msats(1000), None).unwrap();
    let tampered = text.replacen("lnbcrt10n", "lnbcrt20n", 1);
    assert_ne!(tampered, text);
    assert_eq!(pay(&mut node, &tampered), Err(GatewayError::MalformedInvoice));
    assert_eq!(node.amount_sent().msats, 0);
}

#[test]
fn oversized_unprefixed_amount_is_detected() {
    assert!(has_oversized_unprefixed_amount("lnbcrt999999999999999999999991qqqq"));
    assert!(has_oversized_unprefixed_amount("lnbcrt184467451qqqq"));
    assert!(!has_oversized_unprefixed_amount("lnbcrt184467441qqqq"));
    assert!(!has_oversized_unprefixed_amount("lnbcrt99999999m1qqqq"));
    assert!(!has_oversized_unprefixed_amount("lnbcrt99999999"));
    assert!(!has_oversized_unprefixed_amount(""));
}

#[test]
fn oversized_unprefixed_amount_is_malformed() {
    let mut node = FakeLightningTest::new();
    assert_eq!(pay(&mut node, "lnbcrt999999991qqqqqq"), Err(GatewayError::MalformedInvoice));
}

#[test]
fn not_connected_error_message() {
    assert_eq!(GatewayError::NotConnected.message(), "Error not connected to Lightning");
}

#[test]
fn credit_payment_adds_amount() {
    let mut node = FakeLightningTest::new();
    let r = node.credit_payment(Some(5)).unwrap();
    assert_eq!(r.preimage, vec![1u8; 32]);
    assert_eq!(node.amount_sent().msats, 5);
    assert!(node.credit_payment(Some(u64::MAX)) == Err(GatewayError::AmountOverflow));
    assert_eq!(node.amount_sent().msats, 5);
}

#[test]
fn credit_payment_without_amount_is_malformed() {
    let mut node = FakeLightningTest::new();
    assert!(node.credit_payment(None) == Err(GatewayError::MalformedInvoice));
    assert_eq!(node.amount_sent().msats, 0);
}

#[test]
fn credit_payment_is_gated() {
    let mut node = FakeLightningTest::new();
    node.disconnect().unwrap();
    assert!(node.credit_payment(Some(5)) == Err(GatewayError::NotConnected));
    assert_eq!(node.amount_sent().msats, 0);
}

#[test]
fn invoice_has_empty_description() {
    let node = FakeLightningTest::new();
    let text = node.invoice(Amount::from_msats(7), None).unwrap();
    let inv = lightning_invoice::Invoice::from_str(&text).unwrap();
    match inv.description() {
        lightning_invoice::InvoiceDescription::Direct(d) => assert_eq!(d.to_string(), ""),
        lightning_invoice::InvoiceDescription::Hash(_) => panic!("description hash"),
    }
    assert_eq!(inv.currency().to_string(), "bcrt");
}

#[test]
fn node_key_and_preimage_lengths() {
    let mut node = FakeLightningTest::new();
    assert_eq!(node.info().unwrap().pub_key.len(), 33);
    let text = node.invoice(Amount::from_msats(9), None).unwrap();
    assert_eq!(pay(&mut node, &text).unwrap().len(), 32);
}
