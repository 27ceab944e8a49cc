//! The subscription ledger: creation, delegated-key registration, lifecycle
//! transitions, and read queries.

use vstd::prelude::*;

use crate::contract::Contract;
use crate::contract::id_counter_bounded;
use crate::contract::lemma_id_counter_bounded_mono;
use crate::contract::lemma_wf_sub_at;
use crate::contract::preserves_canceled;
use crate::contract::sub_view_wf;
use crate::contract::unchanged_but_keys;
use crate::contract::unchanged_but_subs;
use crate::idgen::has_counter_suffix;
use crate::idgen::lemma_counter_suffix_unique;
use crate::idgen::lemma_make_id_has_counter;
use crate::idgen::make_id;
use crate::idgen::spec_make_id;
use crate::models::Error;
use crate::models::MAX_TIME;
use crate::models::PaymentMethod;
use crate::models::PaymentMethodView;
use crate::models::Subscription;
use crate::models::SubscriptionFrequency;
use crate::models::SubscriptionId;
use crate::models::SubscriptionStatus;
use crate::models::SubscriptionView;
use crate::models::interval;
use crate::models::spec_interval;
use crate::store::lemma_map_of_contains;

verus! {

/// The view of a freshly created subscription.
pub open spec fn new_subscription_view(
    id: Seq<char>,
    user_id: Seq<char>,
    merchant_id: Seq<char>,
    amount: u128,
    frequency: SubscriptionFrequency,
    payment_method: PaymentMethodView,
    max_payments: Option<u32>,
    end_date: Option<u64>,
    now: u64,
) -> SubscriptionView {
    SubscriptionView {
        id: id,
        user_id: user_id,
        merchant_id: merchant_id,
        amount: amount,
        frequency: frequency,
        next_payment_date: (now + spec_interval(frequency)) as u64,
        status: SubscriptionStatus::Active,
        created_at: now,
        updated_at: now,
        payment_method: payment_method,
        max_payments: max_payments,
        payments_made: 0,
        end_date: end_date,
    }
}

/// `s` with its lifecycle status replaced and `updated_at` stamped.
pub open spec fn with_status(s: SubscriptionView, st: SubscriptionStatus, now: u64)
    -> SubscriptionView {
    SubscriptionView { status: st, updated_at: now, ..s }
}

/// The subscription entry list of `post` equals that of `pre` with the value
/// at key `id` replaced by `v`, in place.
pub open spec fn subs_seq_updated(
    pre: &Contract,
    post: &Contract,
    id: Seq<char>,
    v: SubscriptionView,
) -> bool {
    &&& post.subs_seq().len() == pre.subs_seq().len()
    &&& forall|j: int|
        0 <= j < pre.subs_seq().len() && (#[trigger] pre.subs_seq()[j]).0 != id
            ==> post.subs_seq()[j] == pre.subs_seq()[j]
    &&& forall|j: int|
        0 <= j < pre.subs_seq().len() && (#[trigger] pre.subs_seq()[j]).0 == id
            ==> post.subs_seq()[j] == (id, v)
}

/// An in-place update of one subscription's value, under its own key and
/// respecting its payment cap, preserves the ledger's well-formedness.
pub proof fn lemma_subs_update_wf(pre: Contract, post: Contract, id: Seq<char>, v: SubscriptionView)
    requires
        pre.wf(),
        post.subscriptions.wf(),
        subs_seq_updated(&pre, &post, id, v),
        v.id == id,
        sub_view_wf(v),
        post.sub_counter == pre.sub_counter,
        post.approved_codehashes == pre.approved_codehashes,
        post.worker_by_account_id == pre.worker_by_account_id,
        post.subscription_keys == pre.subscription_keys,
        post.merchants == pre.merchants,
    ensures
        post.wf(),
{
    assert forall|i: int| 0 <= i < post.subs_seq().len() implies (#[trigger] post.subs_seq()[i]).1.id
        == post.subs_seq()[i].0 && sub_view_wf(post.subs_seq()[i].1) && id_counter_bounded(
        post.subs_seq()[i].0,
        post.sub_counter,
    ) by {
        if pre.subs_seq()[i].0 == id {
            assert(post.subs_seq()[i] == (id, v));
            assert(id_counter_bounded(pre.subs_seq()[i].0, pre.sub_counter));
        } else {
            assert(post.subs_seq()[i] == pre.subs_seq()[i]);
        }
    }
}

/// The stored subscription values of `c`, in ledger order.
pub open spec fn sub_views(c: &Contract) -> Seq<SubscriptionView> {
    c.subs_seq().map_values(|p: (Seq<char>, SubscriptionView)| p.1)
}

/// The views of a vector of subscriptions.
pub open spec fn views_of(v: Seq<Subscription>) -> Seq<SubscriptionView> {
    v.map_values(|s: Subscription| s@)
}

/// The subscriptions among `vs` whose payer is `user`, in order.
pub open spec fn subs_of_user(vs: Seq<SubscriptionView>, user: Seq<char>) -> Seq<SubscriptionView> {
    vs.filter(|s: SubscriptionView| s.user_id == user)
}

/// The subscriptions among `vs` whose merchant is `merchant`, in order.
pub open spec fn subs_of_merchant(vs: Seq<SubscriptionView>, merchant: Seq<char>)
    -> Seq<SubscriptionView> {
    vs.filter(|s: SubscriptionView| s.merchant_id == merchant)
}

impl Contract {
    /// Creates a subscription for the calling payer.
    ///
    /// Fails with `Unauthorized` iff `merchant_id` is not a registered
    /// merchant.  Otherwise mints a fresh identifier from the payer, the
    /// current second and the ledger counter, stores the subscription as
    /// `Active` with its first payment due one interval from now, and
    /// returns the identifier.
    pub fn create_subscription(
        &mut self,
        caller: &String,
        merchant_id: String,
        amount: u128,
        frequency: SubscriptionFrequency,
        payment_method: PaymentMethod,
        max_payments: Option<u32>,
        end_date: Option<u64>,
        now: u64,
    ) -> (r: Result<SubscriptionId, Error>)
        requires
            old(self).wf(),
            now <= MAX_TIME,
            old(self).counter() < u64::MAX,
        ensures
            final(self).wf(),
            preserves_canceled(old(self), final(self)),
            r == Err::<SubscriptionId, Error>(Error::Unauthorized) <==> !old(
                self,
            ).merchant_set().contains(merchant_id@),
            r is Ok <==> old(self).merchant_set().contains(merchant_id@),
            r is Err ==> *final(self) == *old(self),
            r matches Ok(id) ==> {
                &&& id@ == spec_make_id(caller@, now, old(self).counter())
                &&& !old(self).subs().contains_key(id@)
                &&& final(self).subs() =~= old(self).subs().insert(
                    id@,
                    new_subscription_view(
                        id@,
                        caller@,
                        merchant_id@,
                        amount,
                        frequency,
                        payment_method@,
                        max_payments,
                        end_date,
                        now,
                    ),
                )
                &&& final(self).subs_seq() =~= old(self).subs_seq().push(
                    (
                        id@,
                        new_subscription_view(
                            id@,
                            caller@,
                            merchant_id@,
                            amount,
                            frequency,
                            payment_method@,
                            max_payments,
                            end_date,
                            now,
                        ),
                    ),
                )
                &&& final(self).counter() == old(self).counter() + 1
                &&& unchanged_but_subs(old(self), final(self))
            },
    {
        if !self.merchants.contains(&merchant_id) {
            return Err(Error::Unauthorized);
        }
        let id = make_id(caller, now, self.sub_counter);
        let next_payment_date = now + interval(frequency);
        let sub = Subscription {
            id: id.clone(),
            user_id: caller.clone(),
            merchant_id: merchant_id,
            amount: amount,
            frequency: frequency,
            next_payment_date: next_payment_date,
            status: SubscriptionStatus::Active,
            created_at: now,
            updated_at: now,
            payment_method: payment_method,
            max_payments: max_payments,
            payments_made: 0,
            end_date: end_date,
        };
        let ghost pre = *self;
        proof {
            lemma_make_id_has_counter(caller@, now, pre.sub_counter);
            if pre.subs().contains_key(id@) {
                lemma_map_of_contains(pre.subs_seq(), id@);
                let i = choose|i: int|
                    0 <= i < pre.subs_seq().len() && pre.subs_seq()[i].0 == id@;
                assert(id_counter_bounded(pre.subs_seq()[i].0, pre.sub_counter));
                let c = choose|c: u64| c < pre.sub_counter && has_counter_suffix(id@, c);
                lemma_counter_suffix_unique(id@, c, pre.sub_counter);
            }
        }
        self.subscriptions.insert(id.clone(), sub);
        self.sub_counter = self.sub_counter + 1;
        proof {
            let s1 = self.subs_seq();
            let n = pre.subs_seq().len() as int;
            assert(s1 =~= pre.subs_seq().push((id@, sub@)));
            assert forall|i: int| 0 <= i < s1.len() implies (#[trigger] s1[i]).1.id == s1[i].0
                && sub_view_wf(s1[i].1) && id_counter_bounded(s1[i].0, self.sub_counter) by {
                if i < n {
                    assert(s1[i] == pre.subs_seq()[i]);
                    assert(id_counter_bounded(pre.subs_seq()[i].0, pre.sub_counter));
                    lemma_id_counter_bounded_mono(s1[i].0, pre.sub_counter, self.sub_counter);
                } else {
                    assert(s1[i] == (id@, sub@));
                    assert(has_counter_suffix(id@, pre.sub_counter));
                    assert(pre.sub_counter < self.sub_counter);
                }
            }
        }
        Ok(id)
    }

    /// Registers a delegated credential for a subscription.
    ///
    /// Fails with `NotFound` iff the subscription does not exist, and with
    /// `Unauthorized` iff it exists but is not owned by the caller; either
    /// failure changes nothing.  Otherwise binds (insert-or-replace)
    /// `public_key` to the subscription identifier.
    pub fn register_subscription_key(
        &mut self,
        caller: &String,
        public_key: String,
        subscription_id: &SubscriptionId,
    ) -> (r: Result<(), Error>)
        requires
            old(self).wf(),
        ensures
            final(self).wf(),
            preserves_canceled(old(self), final(self)),
            r == Err::<(), Error>(Error::NotFound) <==> !old(self).subs().contains_key(
                subscription_id@,
            ),
            r == Err::<(), Error>(Error::Unauthorized) <==> old(self).subs().contains_key(
                subscription_id@,
            ) && old(self).sub_at(subscription_id@).user_id != caller@,
            r is Err ==> *final(self) == *old(self),
            r is Ok <==> old(self).subs().contains_key(subscription_id@) && old(self).sub_at(subscription_id@).user_id == caller@,
            r is Ok ==> {
                &&& final(self).keys() =~= old(self).keys().insert(public_key@, subscription_id@)
                &&& unchanged_but_keys(old(self), final(self))
            },
    {
        match self.subscriptions.get(subscription_id) {
            Option::Some(s) => {
                if s.user_id != *caller {
                    return Err(Error::Unauthorized);
                }
            },
            Option::None => {
                return Err(Error::NotFound);
            },
        }
        self.subscription_keys.insert(public_key, subscription_id.clone());
        Ok(())
    }

    /// Cancels a subscription; only its payer may do so.
    ///
    /// Fails with `NotFound` iff the subscription does not exist, and with
    /// `Unauthorized` iff it is not owned by the caller; either failure
    /// changes nothing.  Otherwise the status becomes `Canceled` — from any
    /// prior status, `Canceled` included — and `updated_at` is stamped.
    pub fn cancel_subscription(
        &mut self,
        caller: &String,
        subscription_id: &SubscriptionId,
        now: u64,
    ) -> (r: Result<(), Error>)
        requires
            old(self).wf(),
        ensures
            final(self).wf(),
            preserves_canceled(old(self), final(self)),
            r == Err::<(), Error>(Error::NotFound) <==> !old(self).subs().contains_key(
                subscription_id@,
            ),
            r == Err::<(), Error>(Error::Unauthorized) <==> old(self).subs().contains_key(
                subscription_id@,
            ) && old(self).sub_at(subscription_id@).user_id != caller@,
            r is Err ==> *final(self) == *old(self),
            r is Ok <==> old(self).subs().contains_key(subscription_id@) && old(self).sub_at(subscription_id@).user_id == caller@,
            r is Ok ==> {
                &&& final(self).subs() =~= old(self).subs().insert(
                    subscription_id@,
                    with_status(
                        old(self).sub_at(subscription_id@),
                        SubscriptionStatus::Canceled,
                        now,
                    ),
                )
                &&& subs_seq_updated(
                    old(self),
                    final(self),
                    subscription_id@,
                    with_status(
                        old(self).sub_at(subscription_id@),
                        SubscriptionStatus::Canceled,
                        now,
                    ),
                )
                &&& final(self).counter() == old(self).counter()
                &&& unchanged_but_subs(old(self), final(self))
            },
    {
        let sub = match self.subscriptions.get(subscription_id) {
            Option::Some(s) => s.clone(),
            Option::None => {
                return Err(Error::NotFound);
            },
        };
        if sub.user_id != *caller {
            return Err(Error::Unauthorized);
        }
        let mut updated = sub;
        updated.status = SubscriptionStatus::Canceled;
        updated.updated_at = now;
        let ghost pre = *self;
        let ghost v = updated@;
        self.subscriptions.insert(subscription_id.clone(), updated);
        proof {
            lemma_wf_sub_at(&pre, subscription_id@);
            lemma_subs_update_wf(pre, *self, subscription_id@, v);
        }
        Ok(())
    }

    /// Pauses an active subscription; only its payer may do so.
    ///
    /// Fails with `NotFound` iff the subscription does not exist, with
    /// `Unauthorized` iff it is not owned by the caller, and with
    /// `InvalidState` iff it is owned but not `Active`; any failure changes
    /// nothing.  Otherwise the status becomes `Paused` and `updated_at` is
    /// stamped.
    pub fn pause_subscription(
        &mut self,
        caller: &String,
        subscription_id: &SubscriptionId,
        now: u64,
    ) -> (r: Result<(), Error>)
        requires
            old(self).wf(),
        ensures
            final(self).wf(),
            preserves_canceled(old(self), final(self)),
            r == Err::<(), Error>(Error::NotFound) <==> !old(self).subs().contains_key(
                subscription_id@,
            ),
            r == Err::<(), Error>(Error::Unauthorized) <==> old(self).subs().contains_key(
                subscription_id@,
            ) && old(self).sub_at(subscription_id@).user_id != caller@,
            r == Err::<(), Error>(Error::InvalidState) <==> old(self).subs().contains_key(
                subscription_id@,
            ) && old(self).sub_at(subscription_id@).user_id == caller@ && old(self).sub_at(subscription_id@).status != SubscriptionStatus::Active,
            r is Err ==> *final(self) == *old(self),
            r is Ok <==> old(self).subs().contains_key(subscription_id@) && old(self).sub_at(subscription_id@).user_id == caller@ && old(self).sub_at(subscription_id@).status
                == SubscriptionStatus::Active,
            r is Ok ==> {
                &&& final(self).subs() =~= old(self).subs().insert(
                    subscription_id@,
                    with_status(
                        old(self).sub_at(subscription_id@),
                        SubscriptionStatus::Paused,
                        now,
                    ),
                )
                &&& subs_seq_updated(
                    old(self),
                    final(self),
                    subscription_id@,
                    with_status(
                        old(self).sub_at(subscription_id@),
                        SubscriptionStatus::Paused,
                        now,
                    ),
                )
                &&& final(self).counter() == old(self).counter()
                &&& unchanged_but_subs(old(self), final(self))
            },
    {
        let sub = match self.subscriptions.get(subscription_id) {
            Option::Some(s) => s.clone(),
            Option::None => {
                return Err(Error::NotFound);
            },
        };
        if sub.user_id != *caller {
            return Err(Error::Unauthorized);
        }
        if !matches!(sub.status, SubscriptionStatus::Active) {
            return Err(Error::InvalidState);
        }
        let mut updated = sub;
        updated.status = SubscriptionStatus::Paused;
        updated.updated_at = now;
        let ghost pre = *self;
        let ghost v = updated@;
        self.subscriptions.insert(subscription_id.clone(), updated);
        proof {
            lemma_wf_sub_at(&pre, subscription_id@);
            lemma_subs_update_wf(pre, *self, subscription_id@, v);
        }
        Ok(())
    }

    /// Resumes a paused subscription; only its payer may do so.
    ///
    /// Fails with `NotFound` iff the subscription does not exist, with
    /// `Unauthorized` iff it is not owned by the caller, and with
    /// `InvalidState` iff it is owned but not `Paused`; any failure changes
    /// nothing.  Otherwise the status becomes `Active` and `updated_at` is
    /// stamped.
    pub fn resume_subscription(
        &mut self,
        caller: &String,
        subscription_id: &SubscriptionId,
        now: u64,
    ) -> (r: Result<(), Error>)
        requires
            old(self).wf(),
        ensures
            final(self).wf(),
            preserves_canceled(old(self), final(self)),
            r == Err::<(), Error>(Error::NotFound) <==> !old(self).subs().contains_key(
                subscription_id@,
            ),
            r == Err::<(), Error>(Error::Unauthorized) <==> old(self).subs().contains_key(
                subscription_id@,
            ) && old(self).sub_at(subscription_id@).user_id != caller@,
            r == Err::<(), Error>(Error::InvalidState) <==> old(self).subs().contains_key(
                subscription_id@,
            ) && old(self).sub_at(subscription_id@).user_id == caller@ && old(self).sub_at(subscription_id@).status != SubscriptionStatus::Paused,
            r is Err ==> *final(self) == *old(self),
            r is Ok <==> old(self).subs().contains_key(subscription_id@) && old(self).sub_at(subscription_id@).user_id == caller@ && old(self).sub_at(subscription_id@).status
                == SubscriptionStatus::Paused,
            r is Ok ==> {
                &&& final(self).subs() =~= old(self).subs().insert(
                    subscription_id@,
                    with_status(
                        old(self).sub_at(subscription_id@),
                        SubscriptionStatus::Active,
                        now,
                    ),
                )
                &&& subs_seq_updated(
                    old(self),
                    final(self),
                    subscription_id@,
                    with_status(
                        old(self).sub_at(subscription_id@),
                        SubscriptionStatus::Active,
                        now,
                    ),
                )
                &&& final(self).counter() == old(self).counter()
                &&& unchanged_but_subs(old(self), final(self))
            },
    {
        let sub = match self.subscriptions.get(subscription_id) {
            Option::Some(s) => s.clone(),
            Option::None => {
                return Err(Error::NotFound);
            },
        };
        if sub.user_id != *caller {
            return Err(Error::Unauthorized);
        }
        if !matches!(sub.status, SubscriptionStatus::Paused) {
            return Err(Error::InvalidState);
        }
        let mut updated = sub;
        updated.status = SubscriptionStatus::Active;
        updated.updated_at = now;
        let ghost pre = *self;
        let ghost v = updated@;
        self.subscriptions.insert(subscription_id.clone(), updated);
        proof {
            lemma_wf_sub_at(&pre, subscription_id@);
            lemma_subs_update_wf(pre, *self, subscription_id@, v);
        }
        Ok(())
    }

    /// Fetches a subscription by identifier; absence is a valid result.
    pub fn get_subscription(&self, subscription_id: &SubscriptionId) -> (r: Option<Subscription>)
        requires
            self.wf(),
        ensures
            r matches Some(s) ==> self.subs().contains_key(subscription_id@) && s@
                == self.subs()[subscription_id@],
            r is None <==> !self.subs().contains_key(subscription_id@),
    {
        match self.subscriptions.get(subscription_id) {
            Option::Some(s) => Option::Some(s.clone()),
            Option::None => Option::None,
        }
    }

    /// Lists the subscriptions whose payer is `user_id`, in ledger order.
    #[verifier::loop_isolation(false)]
    pub fn get_user_subscriptions(&self, user_id: &String) -> (r: Vec<Subscription>)
        requires
            self.wf(),
        ensures
            views_of(r@) == subs_of_user(sub_views(self), user_id@),
    {
        let ghost vs = sub_views(self);
        let n = self.subscriptions.len();
        let mut r: Vec<Subscription> = Vec::new();
        let mut i: usize = 0;
        proof {
            reveal(Seq::filter);
            assert(views_of(r@) =~= subs_of_user(vs.subrange(0, 0), user_id@));
        }
        while i < n
            invariant
                i <= n,
                views_of(r@) == subs_of_user(vs.subrange(0, i as int), user_id@),
            decreases n - i,
        {
            let sub = self.subscriptions.value_at(i);
            let ghost r0 = r@;
            proof {
                reveal(Seq::filter);
                assert(vs.subrange(0, i + 1).drop_last() =~= vs.subrange(0, i as int));
                assert(vs.subrange(0, i + 1).last() == vs[i as int]);
                assert(vs[i as int] == sub@);
                assert(subs_of_user(vs.subrange(0, i + 1), user_id@) == (
                if vs[i as int].user_id == user_id@ {
                    subs_of_user(vs.subrange(0, i as int), user_id@).push(vs[i as int])
                } else {
                    subs_of_user(vs.subrange(0, i as int), user_id@)
                }));
            }
            if sub.user_id == *user_id {
                r.push(sub.clone());
                proof {
                    assert(views_of(r@) =~= views_of(r0).push(sub@));
                }
            }
            i = i + 1;
        }
        proof {
            assert(vs.subrange(0, n as int) =~= vs);
        }
        r
    }

    /// Lists the subscriptions whose merchant is `merchant_id`, in ledger
    /// order.
    #[verifier::loop_isolation(false)]
    pub fn get_merchant_subscriptions(&self, merchant_id: &String) -> (r: Vec<Subscription>)
        requires
            self.wf(),
        ensures
            views_of(r@) == subs_of_merchant(sub_views(self), merchant_id@),
    {
        let ghost vs = sub_views(self);
        let n = self.subscriptions.len();
        let mut r: Vec<Subscription> = Vec::new();
        let mut i: usize = 0;
        proof {
            reveal(Seq::filter);
            assert(views_of(r@) =~= subs_of_merchant(vs.subrange(0, 0), merchant_id@));
        }
        while i < n
            invariant
                i <= n,
                views_of(r@) == subs_of_merchant(vs.subrange(0, i as int), merchant_id@),
            decreases n - i,
        {
            let sub = self.subscriptions.value_at(i);
            let ghost r0 = r@;
            proof {
                reveal(Seq::filter);
                assert(vs.subrange(0, i + 1).drop_last() =~= vs.subrange(0, i as int));
                assert(vs.subrange(0, i + 1).last() == vs[i as int]);
                assert(vs[i as int] == sub@);
                assert(subs_of_merchant(vs.subrange(0, i + 1), merchant_id@) == (
                if vs[i as int].merchant_id == merchant_id@ {
                    subs_of_merchant(vs.subrange(0, i as int), merchant_id@).push(vs[i as int])
                } else {
                    subs_of_merchant(vs.subrange(0, i as int), merchant_id@)
                }));
            }
            if sub.merchant_id == *merchant_id {
                r.push(sub.clone());
                proof {
                    assert(views_of(r@) =~= views_of(r0).push(sub@));
                }
            }
            i = i + 1;
        }
        proof {
            assert(vs.subrange(0, n as int) =~= vs);
        }
        r
    }
}

} // verus!
