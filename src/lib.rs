//! A simulated Lightning node for exercising payment-gateway logic without a
//! live node: it issues signed BOLT11 invoices, keeps a ledger of what it was
//! asked to pay, and can be switched offline to test connectivity failures.
pub mod bolt11;
pub mod messages;
pub mod node;
pub mod laws;
pub mod crypto;
