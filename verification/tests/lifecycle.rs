//! Ledger and administration: merchants, subscription creation, delegated
//! keys, and lifecycle transitions.

use recurring_payments::contract::Contract;
use recurring_payments::models::Error;
use recurring_payments::models::PaymentMethod;
use recurring_payments::models::SubscriptionFrequency;
use recurring_payments::models::SubscriptionStatus;
use recurring_payments::models::interval;

const T0: u64 = 1_700_000_000;

fn owner() -> String {
    "owner.test".to_string()
}

fn setup_with_merchant() -> Contract {
    let mut c = Contract::new(owner());
    c.register_merchant(&owner(), "merchant.test".to_string())
        .unwrap();
    c
}

#[test]
fn interval_values() {
    assert_eq!(interval(SubscriptionFrequency::Daily), 86400);
    assert_eq!(interval(SubscriptionFrequency::Weekly), 604800);
    assert_eq!(interval(SubscriptionFrequency::Monthly), 2592000);
    assert_eq!(interval(SubscriptionFrequency::Quarterly), 7776000);
    assert_eq!(interval(SubscriptionFrequency::Yearly), 31536000);
}

#[test]
fn register_merchant_is_owner_only() {
    let mut c = Contract::new(owner());
    let r = c.register_merchant(&"mallory.test".to_string(), "merchant.test".to_string());
    assert_eq!(r, Err(Error::Unauthorized));
    assert_eq!(c.get_merchants().len(), 0);

    assert_eq!(
        c.register_merchant(&owner(), "merchant.test".to_string()),
        Ok(())
    );
    let merchants = c.get_merchants();
    assert_eq!(merchants, vec!["merchant.test".to_string()]);
}

#[test]
fn register_merchant_is_idempotent() {
    let mut c = setup_with_merchant();
    c.register_merchant(&owner(), "merchant.test".to_string())
        .unwrap();
    assert_eq!(c.get_merchants().len(), 1);
}

#[test]
fn approve_codehash_is_owner_only() {
    let mut c = Contract::new(owner());
    assert_eq!(
        c.approve_codehash(&"mallory.test".to_string(), "hash".to_string()),
        Err(Error::Unauthorized)
    );
    assert_eq!(c.approve_codehash(&owner(), "hash".to_string()), Ok(()));
}

#[test]
fn create_subscription_requires_registered_merchant() {
    let mut c = Contract::new(owner());
    let r = c.create_subscription(
        &"alice.test".to_string(),
        "merchant.test".to_string(),
        100,
        SubscriptionFrequency::Daily,
        PaymentMethod::Near,
        None,
        None,
        T0,
    );
    assert_eq!(r, Err(Error::Unauthorized));
    assert!(c.get_user_subscriptions(&"alice.test".to_string()).is_empty());
}

#[test]
fn create_subscription_initial_state() {
    let mut c = setup_with_merchant();
    let id = c
        .create_subscription(
            &"alice.test".to_string(),
            "merchant.test".to_string(),
            2500,
            SubscriptionFrequency::Weekly,
            PaymentMethod::Near,
            Some(12),
            Some(T0 + 10_000_000),
            T0,
        )
        .unwrap();
    let s = c.get_subscription(&id).unwrap();
    assert_eq!(s.id, id);
    assert_eq!(s.user_id, "alice.test");
    assert_eq!(s.merchant_id, "merchant.test");
    assert_eq!(s.amount, 2500);
    assert_eq!(s.status, SubscriptionStatus::Active);
    assert_eq!(s.payments_made, 0);
    assert_eq!(s.next_payment_date, T0 + 604800);
    assert_eq!(s.created_at, T0);
    assert_eq!(s.updated_at, T0);
    assert_eq!(s.max_payments, Some(12));
    assert_eq!(s.end_date, Some(T0 + 10_000_000));
}

#[test]
fn same_second_creations_get_distinct_identifiers() {
    let mut c = setup_with_merchant();
    let mut make = |c: &mut Contract| {
        c.create_subscription(
            &"alice.test".to_string(),
            "merchant.test".to_string(),
            100,
            SubscriptionFrequency::Daily,
            PaymentMethod::Near,
            None,
            None,
            T0,
        )
        .unwrap()
    };
    let id1 = make(&mut c);
    let id2 = make(&mut c);
    assert_ne!(id1, id2);
    // The identifier spells the payer, the creation second, and the
    // ledger counter.
    assert_eq!(id1, format!("sub-alice.test-{T0}-0"));
    assert_eq!(id2, format!("sub-alice.test-{T0}-1"));
    assert!(c.get_subscription(&id1).is_some());
    assert!(c.get_subscription(&id2).is_some());
    assert_eq!(c.get_user_subscriptions(&"alice.test".to_string()).len(), 2);
}

#[test]
fn register_key_for_missing_subscription_is_not_found() {
    let mut c = setup_with_merchant();
    let r = c.register_subscription_key(
        &"alice.test".to_string(),
        "key-a".to_string(),
        &"sub-missing".to_string(),
    );
    assert_eq!(r, Err(Error::NotFound));
}

#[test]
fn register_key_for_foreign_subscription_is_unauthorized() {
    let mut c = setup_with_merchant();
    let id = c
        .create_subscription(
            &"alice.test".to_string(),
            "merchant.test".to_string(),
            100,
            SubscriptionFrequency::Daily,
            PaymentMethod::Near,
            None,
            None,
            T0,
        )
        .unwrap();
    let r = c.register_subscription_key(&"mallory.test".to_string(), "key-m".to_string(), &id);
    assert_eq!(r, Err(Error::Unauthorized));
    // No binding was created: the key resolves to nothing.
    assert!(c.subscription_keys.get(&"key-m".to_string()).is_none());
}

#[test]
fn register_key_rebinds_on_overwrite() {
    let mut c = setup_with_merchant();
    let alice = "alice.test".to_string();
    let mut make = |c: &mut Contract| {
        c.create_subscription(
            &alice,
            "merchant.test".to_string(),
            100,
            SubscriptionFrequency::Daily,
            PaymentMethod::Near,
            None,
            None,
            T0,
        )
        .unwrap()
    };
    let id1 = make(&mut c);
    let id2 = make(&mut c);
    c.register_subscription_key(&"alice.test".to_string(), "key-a".to_string(), &id1)
        .unwrap();
    c.register_subscription_key(&"alice.test".to_string(), "key-a".to_string(), &id2)
        .unwrap();
    assert_eq!(c.subscription_keys.get(&"key-a".to_string()), Some(&id2));
}

#[test]
fn cancel_by_other_principal_is_unauthorized_and_mutates_nothing() {
    let mut c = setup_with_merchant();
    let id = c
        .create_subscription(
            &"alice.test".to_string(),
            "merchant.test".to_string(),
            100,
            SubscriptionFrequency::Daily,
            PaymentMethod::Near,
            None,
            None,
            T0,
        )
        .unwrap();
    let r = c.cancel_subscription(&"mallory.test".to_string(), &id, T0 + 5);
    assert_eq!(r, Err(Error::Unauthorized));
    let s = c.get_subscription(&id).unwrap();
    assert_eq!(s.status, SubscriptionStatus::Active);
    assert_eq!(s.updated_at, T0);
}

#[test]
fn resume_on_active_subscription_is_invalid_state() {
    let mut c = setup_with_merchant();
    let id = c
        .create_subscription(
            &"alice.test".to_string(),
            "merchant.test".to_string(),
            100,
            SubscriptionFrequency::Daily,
            PaymentMethod::Near,
            None,
            None,
            T0,
        )
        .unwrap();
    let r = c.resume_subscription(&"alice.test".to_string(), &id, T0 + 5);
    assert_eq!(r, Err(Error::InvalidState));
    let s = c.get_subscription(&id).unwrap();
    assert_eq!(s.status, SubscriptionStatus::Active);
}

#[test]
fn pause_resume_cancel_flow() {
    let mut c = setup_with_merchant();
    let alice = "alice.test".to_string();
    let id = c
        .create_subscription(
            &alice,
            "merchant.test".to_string(),
            100,
            SubscriptionFrequency::Daily,
            PaymentMethod::Near,
            None,
            None,
            T0,
        )
        .unwrap();

    assert_eq!(c.pause_subscription(&alice, &id, T0 + 1), Ok(()));
    let s = c.get_subscription(&id).unwrap();
    assert_eq!(s.status, SubscriptionStatus::Paused);
    assert_eq!(s.updated_at, T0 + 1);

    // Pausing a paused subscription is illegal.
    assert_eq!(
        c.pause_subscription(&alice, &id, T0 + 2),
        Err(Error::InvalidState)
    );

    assert_eq!(c.resume_subscription(&alice, &id, T0 + 3), Ok(()));
    assert_eq!(
        c.get_subscription(&id).unwrap().status,
        SubscriptionStatus::Active
    );

    assert_eq!(c.cancel_subscription(&alice, &id, T0 + 4), Ok(()));
    assert_eq!(
        c.get_subscription(&id).unwrap().status,
        SubscriptionStatus::Canceled
    );

    // Canceled is terminal: neither pause nor resume leaves it.
    assert_eq!(
        c.pause_subscription(&alice, &id, T0 + 5),
        Err(Error::InvalidState)
    );
    assert_eq!(
        c.resume_subscription(&alice, &id, T0 + 6),
        Err(Error::InvalidState)
    );
    assert_eq!(
        c.get_subscription(&id).unwrap().status,
        SubscriptionStatus::Canceled
    );

    // Cancel is idempotent and keeps the terminal state.
    assert_eq!(c.cancel_subscription(&alice, &id, T0 + 7), Ok(()));
    assert_eq!(
        c.get_subscription(&id).unwrap().status,
        SubscriptionStatus::Canceled
    );
}

#[test]
fn pause_and_resume_by_other_principal_are_unauthorized() {
    let mut c = setup_with_merchant();
    let alice = "alice.test".to_string();
    let id = c
        .create_subscription(
            &alice,
            "merchant.test".to_string(),
            100,
            SubscriptionFrequency::Daily,
            PaymentMethod::Near,
            None,
            None,
            T0,
        )
        .unwrap();
    let mallory = "mallory.test".to_string();
    assert_eq!(
        c.pause_subscription(&mallory, &id, T0 + 1),
        Err(Error::Unauthorized)
    );
    c.pause_subscription(&alice, &id, T0 + 2).unwrap();
    assert_eq!(
        c.resume_subscription(&mallory, &id, T0 + 3),
        Err(Error::Unauthorized)
    );
    assert_eq!(
        c.get_subscription(&id).unwrap().status,
        SubscriptionStatus::Paused
    );
}

#[test]
fn cancel_missing_subscription_is_not_found() {
    let mut c = setup_with_merchant();
    assert_eq!(
        c.cancel_subscription(&"alice.test".to_string(), &"sub-nope".to_string(), T0),
        Err(Error::NotFound)
    );
    assert_eq!(
        c.pause_subscription(&"alice.test".to_string(), &"sub-nope".to_string(), T0),
        Err(Error::NotFound)
    );
    assert_eq!(
        c.resume_subscription(&"alice.test".to_string(), &"sub-nope".to_string(), T0),
        Err(Error::NotFound)
    );
}

#[test]
fn user_and_merchant_listings_filter_and_keep_order() {
    let mut c = setup_with_merchant();
    c.register_merchant(&owner(), "merchant2.test".to_string())
        .unwrap();
    let mut make = |c: &mut Contract, user: &str, merchant: &str, amount: u128| {
        c.create_subscription(
            &user.to_string(),
            merchant.to_string(),
            amount,
            SubscriptionFrequency::Daily,
            PaymentMethod::Near,
            None,
            None,
            T0,
        )
        .unwrap()
    };
    make(&mut c, "alice.test", "merchant.test", 1);
    make(&mut c, "bob.test", "merchant.test", 2);
    make(&mut c, "alice.test", "merchant2.test", 3);

    let alice_subs = c.get_user_subscriptions(&"alice.test".to_string());
    assert_eq!(alice_subs.len(), 2);
    assert_eq!(alice_subs[0].amount, 1);
    assert_eq!(alice_subs[1].amount, 3);

    let m1 = c.get_merchant_subscriptions(&"merchant.test".to_string());
    assert_eq!(m1.len(), 2);
    assert_eq!(m1[0].amount, 1);
    assert_eq!(m1[1].amount, 2);

    assert!(c.get_user_subscriptions(&"nobody.test".to_string()).is_empty());
}

#[test]
fn get_subscription_absent_is_none() {
    let c = Contract::new(owner());
    assert!(c.get_subscription(&"sub-x".to_string()).is_none());
}
