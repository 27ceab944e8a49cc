//! The payment scheduler, the payment processor, and worker admission.

use recurring_payments::contract::Contract;
use recurring_payments::models::Error;
use recurring_payments::models::PaymentMethod;
use recurring_payments::models::SubscriptionFrequency;
use recurring_payments::models::SubscriptionStatus;
use recurring_payments::models::Worker;

const T0: u64 = 1_700_000_000;
const DAY: u64 = 86400;

fn owner() -> String {
    "owner.test".to_string()
}

fn worker() -> String {
    "worker.test".to_string()
}

/// A state with a registered merchant and an admitted, approved worker.
/// The worker record is installed directly — admission through a real
/// attestation quote is the verifier's business, not this suite's.
fn setup() -> Contract {
    let mut c = Contract::new(owner());
    c.register_merchant(&owner(), "merchant.test".to_string())
        .unwrap();
    c.worker_by_account_id.insert(
        worker(),
        Worker {
            checksum: "checksum-1".to_string(),
            codehash: "codehash-1".to_string(),
        },
    );
    c.approve_codehash(&owner(), "codehash-1".to_string())
        .unwrap();
    c
}

fn make_daily(c: &mut Contract, max_payments: Option<u32>, end_date: Option<u64>) -> String {
    c.create_subscription(
        &"alice.test".to_string(),
        "merchant.test".to_string(),
        100,
        SubscriptionFrequency::Daily,
        PaymentMethod::Near,
        max_payments,
        end_date,
        T0,
    )
    .unwrap()
}

#[test]
fn worker_registry_lookup_and_codehash_checks() {
    let c = setup();
    assert!(matches!(
        c.get_worker(&"nobody.test".to_string()),
        Err(Error::NotFound)
    ));
    let w = c.get_worker(&worker()).unwrap();
    assert_eq!(w.checksum, "checksum-1");
    assert_eq!(w.codehash, "codehash-1");

    assert_eq!(
        c.require_worker(&worker(), &"codehash-1".to_string()),
        Ok(())
    );
    assert_eq!(
        c.require_worker(&worker(), &"codehash-2".to_string()),
        Err(Error::Unauthorized)
    );
    assert_eq!(
        c.is_verified_by_codehash(&worker(), &"codehash-1".to_string()),
        Ok(())
    );
    assert_eq!(
        c.is_verified_by_approved_codehash(&worker()),
        Ok(true)
    );
    assert_eq!(
        c.is_verified_by_approved_codehash(&"nobody.test".to_string()),
        Err(Error::NotFound)
    );
    assert_eq!(
        c.require_worker(&"nobody.test".to_string(), &"codehash-1".to_string()),
        Err(Error::NotFound)
    );
}

#[test]
fn unapproved_codehash_reads_back_as_false() {
    let mut c = setup();
    c.worker_by_account_id.insert(
        "rogue.test".to_string(),
        Worker {
            checksum: "checksum-2".to_string(),
            codehash: "codehash-unapproved".to_string(),
        },
    );
    // A pure predicate for registered workers: false, not a failure.
    assert_eq!(
        c.is_verified_by_approved_codehash(&"rogue.test".to_string()),
        Ok(false)
    );
}

#[test]
fn register_worker_rejects_bad_collateral_and_bad_quote() {
    let mut c = setup();
    // Valid hex, but the trust-anchor material is not a collateral encoding.
    let admitted = c.register_worker(
        &"candidate.test".to_string(),
        &"deadbeef".to_string(),
        &"not json".to_string(),
        "checksum-x".to_string(),
        "codehash-x".to_string(),
        T0,
    );
    assert!(!admitted);
    assert!(matches!(
        c.get_worker(&"candidate.test".to_string()),
        Err(Error::NotFound)
    ));

    // Parseable collateral, but the quote bytes are no attestation quote.
    let collateral = "{\"pck_crl_issuer_chain\":\"\",\"root_ca_crl\":[],\"pck_crl\":[],\"tcb_info_issuer_chain\":\"\",\"tcb_info\":\"\",\"tcb_info_signature\":[],\"qe_identity_issuer_chain\":\"\",\"qe_identity\":\"\",\"qe_identity_signature\":[]}";
    let admitted = c.register_worker(
        &"candidate.test".to_string(),
        &"00112233445566778899aabbccddeeff".to_string(),
        &collateral.to_string(),
        "checksum-x".to_string(),
        "codehash-x".to_string(),
        T0,
    );
    assert!(!admitted);
    assert!(matches!(
        c.get_worker(&"candidate.test".to_string()),
        Err(Error::NotFound)
    ));
}

#[test]
fn unapproved_worker_gets_no_due_subscriptions() {
    let mut c = setup();
    make_daily(&mut c, None, None);
    assert!(matches!(
        c.get_due_subscriptions(&"nobody.test".to_string(), 10, T0 + 2 * DAY),
        Err(Error::NotFound)
    ));
    c.worker_by_account_id.insert(
        "rogue.test".to_string(),
        Worker {
            checksum: "checksum-2".to_string(),
            codehash: "codehash-unapproved".to_string(),
        },
    );
    assert!(matches!(
        c.get_due_subscriptions(&"rogue.test".to_string(), 10, T0 + 2 * DAY),
        Err(Error::Unauthorized)
    ));
}

#[test]
fn due_subscriptions_respect_limit_and_due_filter() {
    let mut c = setup();
    let id1 = make_daily(&mut c, None, None);
    let _id2 = make_daily(&mut c, None, None);
    let _id3 = make_daily(&mut c, None, None);
    // A paused subscription is never due.
    let id4 = make_daily(&mut c, None, None);
    c.pause_subscription(&"alice.test".to_string(), &id4, T0)
        .unwrap();

    // Nothing is due before the first interval has passed.
    let due = c.get_due_subscriptions(&worker(), 10, T0).unwrap();
    assert!(due.is_empty());

    let now = T0 + DAY;
    let due = c.get_due_subscriptions(&worker(), 10, now).unwrap();
    assert_eq!(due.len(), 3);
    for s in &due {
        assert_eq!(s.status, SubscriptionStatus::Active);
        assert!(s.next_payment_date <= now);
    }
    // Ledger order: the first created comes first.
    assert_eq!(due[0].id, id1);

    // The limit caps the batch.
    let due = c.get_due_subscriptions(&worker(), 2, now).unwrap();
    assert_eq!(due.len(), 2);
    let due = c.get_due_subscriptions(&worker(), 0, now).unwrap();
    assert!(due.is_empty());
}

#[test]
fn process_payment_demands_standing() {
    let mut c = setup();
    let id = make_daily(&mut c, None, None);
    assert!(matches!(
        c.process_payment(&"nobody.test".to_string(), &"key-a".to_string(), &id, T0 + DAY),
        Err(Error::NotFound)
    ));
    c.worker_by_account_id.insert(
        "rogue.test".to_string(),
        Worker {
            checksum: "checksum-2".to_string(),
            codehash: "codehash-unapproved".to_string(),
        },
    );
    assert!(matches!(
        c.process_payment(&"rogue.test".to_string(), &"key-a".to_string(), &id, T0 + DAY),
        Err(Error::Unauthorized)
    ));
}

#[test]
fn process_payment_with_unmatched_key_mutates_nothing() {
    let mut c = setup();
    let id = make_daily(&mut c, None, None);
    // No key registered at all.
    let (res, act) = c
        .process_payment(&worker(), &"key-unknown".to_string(), &id, T0 + DAY)
        .unwrap();
    assert!(!res.success);
    assert_eq!(res.amount, 0);
    assert_eq!(
        res.error.as_deref(),
        Some("Key is not authorized for this subscription")
    );
    assert!(act.is_none());

    // A key bound to a different subscription does not transfer.
    let id2 = make_daily(&mut c, None, None);
    c.register_subscription_key(&"alice.test".to_string(), "key-2".to_string(), &id2)
        .unwrap();
    let (res, act) = c
        .process_payment(&worker(), &"key-2".to_string(), &id, T0 + DAY)
        .unwrap();
    assert!(!res.success);
    assert!(act.is_none());
    assert_eq!(c.get_subscription(&id).unwrap().payments_made, 0);
    assert_eq!(c.get_subscription(&id2).unwrap().payments_made, 0);
}

#[test]
fn process_payment_on_missing_subscription_is_not_found() {
    let mut c = setup();
    let id = make_daily(&mut c, None, None);
    c.register_subscription_key(&"alice.test".to_string(), "key-a".to_string(), &id)
        .unwrap();
    // Rebind the key by hand to a dangling identifier: an internal
    // inconsistency, answered fatally rather than with a result.
    c.subscription_keys
        .insert("key-a".to_string(), "sub-dangling".to_string());
    assert!(matches!(
        c.process_payment(&worker(), &"key-a".to_string(), &"sub-dangling".to_string(), T0),
        Err(Error::NotFound)
    ));
}

#[test]
fn process_payment_on_paused_subscription_names_the_status() {
    let mut c = setup();
    let id = make_daily(&mut c, None, None);
    c.register_subscription_key(&"alice.test".to_string(), "key-a".to_string(), &id)
        .unwrap();
    c.pause_subscription(&"alice.test".to_string(), &id, T0)
        .unwrap();
    let (res, act) = c
        .process_payment(&worker(), &"key-a".to_string(), &id, T0 + DAY)
        .unwrap();
    assert!(!res.success);
    assert_eq!(res.amount, 100);
    assert_eq!(
        res.error.as_deref(),
        Some("Subscription is not active: Paused")
    );
    assert!(act.is_none());
    assert_eq!(c.get_subscription(&id).unwrap().payments_made, 0);
}

#[test]
fn process_payment_past_end_date_cancels() {
    let mut c = setup();
    let id = make_daily(&mut c, None, Some(T0 + DAY / 2));
    c.register_subscription_key(&"alice.test".to_string(), "key-a".to_string(), &id)
        .unwrap();
    let (res, act) = c
        .process_payment(&worker(), &"key-a".to_string(), &id, T0 + DAY)
        .unwrap();
    assert!(!res.success);
    assert_eq!(res.error.as_deref(), Some("Subscription end date reached"));
    assert!(act.is_none());
    let s = c.get_subscription(&id).unwrap();
    assert_eq!(s.status, SubscriptionStatus::Canceled);
    assert_eq!(s.payments_made, 0);
}

#[test]
fn daily_subscription_with_two_payment_cap_runs_its_course() {
    let mut c = setup();
    let id = make_daily(&mut c, Some(2), None);
    c.register_subscription_key(&"alice.test".to_string(), "key-a".to_string(), &id)
        .unwrap();

    // Not due yet at creation time.
    let (res, act) = c
        .process_payment(&worker(), &"key-a".to_string(), &id, T0)
        .unwrap();
    assert!(!res.success);
    assert_eq!(res.error.as_deref(), Some("Payment is not due yet"));
    assert!(act.is_none());
    assert_eq!(c.get_subscription(&id).unwrap().payments_made, 0);

    // First successful payment.
    let t1 = T0 + DAY;
    let (res, act) = c
        .process_payment(&worker(), &"key-a".to_string(), &id, t1)
        .unwrap();
    assert!(res.success);
    assert_eq!(res.amount, 100);
    assert_eq!(res.timestamp, t1);
    assert!(res.error.is_none());
    let action = act.unwrap();
    assert_eq!(action.payee, "merchant.test");
    assert_eq!(action.payer, "alice.test");
    assert_eq!(action.amount, 100);
    assert_eq!(action.subscription_id, id);
    let s = c.get_subscription(&id).unwrap();
    assert_eq!(s.payments_made, 1);
    assert_eq!(s.next_payment_date, t1 + DAY);
    assert_eq!(s.status, SubscriptionStatus::Active);

    // Second successful payment reaches the cap and cancels.
    let t2 = t1 + DAY;
    let (res, act) = c
        .process_payment(&worker(), &"key-a".to_string(), &id, t2)
        .unwrap();
    assert!(res.success);
    assert!(act.is_some());
    let s = c.get_subscription(&id).unwrap();
    assert_eq!(s.payments_made, 2);
    assert_eq!(s.status, SubscriptionStatus::Canceled);

    // A third attempt is rejected with an error naming the status.
    let t3 = t2 + DAY;
    let (res, act) = c
        .process_payment(&worker(), &"key-a".to_string(), &id, t3)
        .unwrap();
    assert!(!res.success);
    assert_eq!(
        res.error.as_deref(),
        Some("Subscription is not active: Canceled")
    );
    assert!(act.is_none());
    assert_eq!(c.get_subscription(&id).unwrap().payments_made, 2);
}

#[test]
fn process_payment_at_cap_found_on_entry_cancels_with_limit_error() {
    let mut c = setup();
    // A cap of zero is already reached when the first payment is attempted.
    let id = make_daily(&mut c, Some(0), None);
    c.register_subscription_key(&"alice.test".to_string(), "key-a".to_string(), &id)
        .unwrap();
    let (res, act) = c
        .process_payment(&worker(), &"key-a".to_string(), &id, T0 + DAY)
        .unwrap();
    assert!(!res.success);
    assert_eq!(
        res.error.as_deref(),
        Some("Maximum number of payments reached")
    );
    assert!(act.is_none());
    let s = c.get_subscription(&id).unwrap();
    assert_eq!(s.status, SubscriptionStatus::Canceled);
    assert_eq!(s.payments_made, 0);
}

#[test]
fn token_payments_carry_the_token_contract() {
    let mut c = setup();
    let id = c
        .create_subscription(
            &"alice.test".to_string(),
            "merchant.test".to_string(),
            777,
            SubscriptionFrequency::Monthly,
            PaymentMethod::Ft {
                token_id: "token.test".to_string(),
            },
            None,
            None,
            T0,
        )
        .unwrap();
    c.register_subscription_key(&"alice.test".to_string(), "key-a".to_string(), &id)
        .unwrap();
    let (res, act) = c
        .process_payment(&worker(), &"key-a".to_string(), &id, T0 + 2592000)
        .unwrap();
    assert!(res.success);
    let action = act.unwrap();
    match action.method {
        PaymentMethod::Ft { token_id } => assert_eq!(token_id, "token.test"),
        PaymentMethod::Near => panic!("expected a token transfer"),
    }
    assert_eq!(action.amount, 777);
}
