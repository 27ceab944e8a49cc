//! A recurring-payment authorization engine.
//!
//! The engine tracks subscriptions between a payer and a merchant, decides
//! when a payment is due, and gates who may trigger that payment.  It is a
//! pure state machine: the host environment supplies the authenticated
//! caller, the current time in whole seconds, and performs the actual value
//! transfer; the engine decides *that* a transfer of a given amount to a
//! given payee is authorized and records the outcome.

pub mod attest;
pub mod contract;
pub mod idgen;
pub mod ledger;
pub mod models;
pub mod payment;
pub mod store;
