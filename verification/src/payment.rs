//! The payment scheduler and the payment processor.
//!
//! The scheduler selects, in bounded batches and in ledger order, the
//! subscriptions currently due for billing.  The processor validates
//! authorization and lifecycle preconditions, then commits a billing-cycle
//! advance and emits a payment outcome together with the value transfer the
//! host must dispatch.  Conditions found inside processing are recovered
//! into an unsuccessful [`PaymentResult`]; only an unapproved caller or a
//! missing subscription aborts the call.

use vstd::prelude::*;

use crate::contract::Contract;
use crate::contract::lemma_wf_sub_at;
use crate::contract::preserves_canceled;
use crate::contract::sub_view_wf;
use crate::contract::unchanged_but_subs;
use crate::ledger::lemma_subs_update_wf;
use crate::ledger::views_of;
use crate::ledger::subs_seq_updated;
use crate::models::Error;
use crate::models::MAX_TIME;
use crate::models::PaymentResult;
use crate::models::PaymentResultView;
use crate::models::Subscription;
use crate::models::SubscriptionId;
use crate::models::SubscriptionStatus;
use crate::models::SubscriptionView;
use crate::models::TransferAction;
use crate::models::TransferActionView;
use crate::models::interval;
use crate::models::spec_interval;

verus! {

/// What one processing call returns: the recorded outcome, and the value
/// transfer the host must dispatch when the outcome is successful.
pub type ProcessOutcome = (PaymentResult, Option<TransferAction>);

/// A subscription is due: active, with its next payment date reached.
pub open spec fn is_due(s: SubscriptionView, now: u64) -> bool {
    s.status == SubscriptionStatus::Active && s.next_payment_date <= now
}

/// The first `limit` due subscriptions among the entries `s`, in order.
pub open spec fn due_list(s: Seq<(Seq<char>, SubscriptionView)>, now: u64, limit: u64)
    -> Seq<SubscriptionView>
    decreases s.len(),
{
    if s.len() == 0 || limit == 0 {
        Seq::empty()
    } else if is_due(s[0].1, now) {
        seq![s[0].1] + due_list(s.drop_first(), now, (limit - 1) as u64)
    } else {
        due_list(s.drop_first(), now, limit)
    }
}

/// The view of `s` after one successful billing cycle at time `now`: one
/// more payment made, the next payment due one interval from now, and
/// `updated_at` stamped.  A payment that reaches the payment cap cancels
/// the subscription in the same step.
pub open spec fn advanced_view(s: SubscriptionView, now: u64) -> SubscriptionView {
    SubscriptionView {
        payments_made: (s.payments_made + 1) as u32,
        next_payment_date: (now + spec_interval(s.frequency)) as u64,
        updated_at: now,
        status: if s.max_payments matches Option::Some(m) && s.payments_made + 1 >= m {
            SubscriptionStatus::Canceled
        } else {
            s.status
        },
        ..s
    }
}

/// `s` with only its status replaced, as the processor's auto-cancel writes
/// it: `updated_at` is left untouched.
pub open spec fn auto_canceled_view(s: SubscriptionView) -> SubscriptionView {
    SubscriptionView { status: SubscriptionStatus::Canceled, ..s }
}

/// The message returned when a payment is attempted on a subscription whose
/// status is not `Active`.
pub open spec fn spec_inactive_message(st: SubscriptionStatus) -> Seq<char> {
    match st {
        SubscriptionStatus::Active => "Subscription is not active: Active"@,
        SubscriptionStatus::Paused => "Subscription is not active: Paused"@,
        SubscriptionStatus::Canceled => "Subscription is not active: Canceled"@,
        SubscriptionStatus::Failed => "Subscription is not active: Failed"@,
    }
}

/// Builds the message for a payment attempt on a non-`Active` subscription,
/// naming the current status.
pub fn inactive_message(st: SubscriptionStatus) -> (r: String)
    ensures
        r@ == spec_inactive_message(st),
{
    match st {
        SubscriptionStatus::Active => String::from_str("Subscription is not active: Active"),
        SubscriptionStatus::Paused => String::from_str("Subscription is not active: Paused"),
        SubscriptionStatus::Canceled => String::from_str("Subscription is not active: Canceled"),
        SubscriptionStatus::Failed => String::from_str("Subscription is not active: Failed"),
    }
}

/// The presented credential resolves to exactly the requested subscription.
pub open spec fn key_matches(c: &Contract, public_key: Seq<char>, sid: Seq<char>) -> bool {
    c.keys().contains_key(public_key) && c.keys()[public_key] == sid
}

/// The payment counter of the requested subscription has room for one more
/// payment; a machine limit, since the counter is 32 bits wide.
pub open spec fn payment_count_ok(c: &Contract, sid: Seq<char>) -> bool {
    c.subs().contains_key(sid) ==> c.sub_at(sid).payments_made < u32::MAX
}

/// Blocked by policy: the payment cap is reached, or the end date has
/// passed.
pub open spec fn limit_or_expiry_reached(s: SubscriptionView, now: u64) -> bool {
    ||| (s.max_payments matches Option::Some(m) && s.payments_made >= m)
    ||| (s.end_date matches Option::Some(e) && now >= e)
}

/// The view of the optional transfer action.
pub open spec fn opt_action_view(a: Option<TransferAction>) -> Option<TransferActionView> {
    match a {
        Option::Some(x) => Option::Some(x@),
        Option::None => Option::None,
    }
}

/// Payment counters move only on success, and only for the processed
/// subscription.
pub open spec fn payments_counted_correctly(
    pre: &Contract,
    post: &Contract,
    sid: Seq<char>,
    success: bool,
) -> bool {
    forall|k: Seq<char>|
        #[trigger] pre.subs().contains_key(k) ==> post.subs().contains_key(k)
            && post.sub_at(k).payments_made == (
        if success && k == sid {
            (pre.sub_at(k).payments_made + 1) as u32
        } else {
            pre.sub_at(k).payments_made
        })
}

/// Everything the processor guarantees when it returns an outcome rather
/// than aborting: the outcome's fields and the state change, case by case
/// over the state found at entry.
pub open spec fn process_ok_post(
    pre: &Contract,
    post: &Contract,
    res: PaymentResultView,
    act: Option<TransferActionView>,
    public_key: Seq<char>,
    sid: Seq<char>,
    now: u64,
) -> bool {
    &&& res.subscription_id == sid
    &&& res.timestamp == now
    &&& if !key_matches(pre, public_key, sid) {
        &&& !res.success
        &&& res.amount == 0
        &&& res.error == Option::Some("Key is not authorized for this subscription"@)
        &&& act is None
        &&& *post == *pre
    } else {
        &&& pre.subs().contains_key(sid)
        &&& {
            let s = pre.sub_at(sid);
            if s.status != SubscriptionStatus::Active {
                &&& !res.success
                &&& res.amount == s.amount
                &&& res.error == Option::Some(spec_inactive_message(s.status))
                &&& act is None
                &&& *post == *pre
            } else if s.next_payment_date > now {
                &&& !res.success
                &&& res.amount == s.amount
                &&& res.error == Option::Some("Payment is not due yet"@)
                &&& act is None
                &&& *post == *pre
            } else if s.max_payments matches Option::Some(m) && s.payments_made >= m {
                &&& !res.success
                &&& res.amount == s.amount
                &&& res.error == Option::Some("Maximum number of payments reached"@)
                &&& act is None
                &&& post.subs() == pre.subs().insert(sid, auto_canceled_view(s))
                &&& subs_seq_updated(pre, post, sid, auto_canceled_view(s))
                &&& post.counter() == pre.counter()
                &&& unchanged_but_subs(pre, post)
            } else if s.end_date matches Option::Some(e) && now >= e {
                &&& !res.success
                &&& res.amount == s.amount
                &&& res.error == Option::Some("Subscription end date reached"@)
                &&& act is None
                &&& post.subs() == pre.subs().insert(sid, auto_canceled_view(s))
                &&& subs_seq_updated(pre, post, sid, auto_canceled_view(s))
                &&& post.counter() == pre.counter()
                &&& unchanged_but_subs(pre, post)
            } else {
                &&& res.success
                &&& res.amount == s.amount
                &&& res.error is None
                &&& act == Option::Some(
                    TransferActionView {
                        method: s.payment_method,
                        payer: s.user_id,
                        payee: s.merchant_id,
                        amount: s.amount,
                        subscription_id: sid,
                    },
                )
                &&& post.subs() == pre.subs().insert(sid, advanced_view(s, now))
                &&& subs_seq_updated(pre, post, sid, advanced_view(s, now))
                &&& post.counter() == pre.counter()
                &&& unchanged_but_subs(pre, post)
            }
        }
    }
}

impl Contract {
    /// Advances a subscription after a successful payment: one more payment
    /// made, the next payment due one interval from `now`, `updated_at`
    /// stamped.  A payment that reaches the payment cap cancels the
    /// subscription in the same step.  Returns the updated subscription.
    fn update_subscription_after_payment(
        &mut self,
        subscription: &Subscription,
        subscription_id: &SubscriptionId,
        now: u64,
    ) -> (r: Subscription)
        requires
            old(self).wf(),
            old(self).subs().contains_key(subscription_id@),
            subscription@ == old(self).sub_at(subscription_id@),
            subscription.payments_made < u32::MAX,
            match subscription.max_payments {
                Option::Some(m) => subscription.payments_made < m,
                Option::None => true,
            },
            now <= MAX_TIME,
        ensures
            final(self).wf(),
            r@ == advanced_view(old(self).sub_at(subscription_id@), now),
            final(self).subs() =~= old(self).subs().insert(
                subscription_id@,
                advanced_view(old(self).sub_at(subscription_id@), now),
            ),
            subs_seq_updated(
                old(self),
                final(self),
                subscription_id@,
                advanced_view(old(self).sub_at(subscription_id@), now),
            ),
            final(self).counter() == old(self).counter(),
            unchanged_but_subs(old(self), final(self)),
    {
        let next_payment_date = now + interval(subscription.frequency);
        let mut updated = subscription.clone();
        updated.payments_made = updated.payments_made + 1;
        updated.next_payment_date = next_payment_date;
        updated.updated_at = now;
        match updated.max_payments {
            Option::Some(m) => {
                if updated.payments_made >= m {
                    updated.status = SubscriptionStatus::Canceled;
                }
            },
            Option::None => {},
        }
        let ghost pre = *self;
        let ghost v = updated@;
        let result = updated.clone();
        self.subscriptions.insert(subscription_id.clone(), updated);
        proof {
            lemma_wf_sub_at(&pre, subscription_id@);
            lemma_subs_update_wf(pre, *self, subscription_id@, v);
        }
        result
    }

    /// Processes one payment for a subscription, presented with the
    /// caller's delegated credential.
    ///
    /// An unapproved caller has no standing to ask at all: that aborts with
    /// `Unauthorized` (or `NotFound` when the caller never registered).  A
    /// missing subscription behind a matching credential is an internal
    /// inconsistency and aborts with `NotFound`.  Every other condition is
    /// recovered into an unsuccessful [`PaymentResult`]; reaching the
    /// payment cap or the end date auto-cancels the subscription.  On
    /// success the billing cycle advances and the returned
    /// [`TransferAction`] tells the host what to dispatch.
    pub fn process_payment(
        &mut self,
        caller: &String,
        public_key: &String,
        subscription_id: &SubscriptionId,
        now: u64,
    ) -> (r: Result<ProcessOutcome, Error>)
        requires
            old(self).wf(),
            now <= MAX_TIME,
            payment_count_ok(old(self), subscription_id@),
        ensures
            final(self).wf(),
            preserves_canceled(old(self), final(self)),
            r == Err::<ProcessOutcome, Error>(Error::Unauthorized) <==> old(
                self,
            ).workers().contains_key(caller@) && !old(self).codehashes().contains(
                old(self).workers()[caller@].codehash,
            ),
            r == Err::<ProcessOutcome, Error>(Error::NotFound) <==> !old(
                self,
            ).workers().contains_key(caller@) || (old(self).approved_worker(caller@)
                && key_matches(old(self), public_key@, subscription_id@) && !old(
                self,
            ).subs().contains_key(subscription_id@)),
            r is Err ==> *final(self) == *old(self),
            r is Ok <==> old(self).approved_worker(caller@) && (key_matches(
                old(self),
                public_key@,
                subscription_id@,
            ) ==> old(self).subs().contains_key(subscription_id@)),
            r matches Ok(p) ==> process_ok_post(
                old(self),
                final(self),
                p.0@,
                opt_action_view(p.1),
                public_key@,
                subscription_id@,
                now,
            ),
            r matches Ok(p) ==> payments_counted_correctly(
                old(self),
                final(self),
                subscription_id@,
                p.0@.success,
            ),
            r matches Ok(p) ==> ((key_matches(old(self), public_key@, subscription_id@) && old(
                self,
            ).subs().contains_key(subscription_id@) && old(self).sub_at(subscription_id@).status
                == SubscriptionStatus::Active && old(self).sub_at(
                subscription_id@,
            ).next_payment_date <= now && limit_or_expiry_reached(
                old(self).sub_at(subscription_id@),
                now,
            )) ==> (final(self).subs().contains_key(subscription_id@) && final(self).sub_at(
                subscription_id@,
            ).status == SubscriptionStatus::Canceled && !p.0@.success)),
    {
        match self.is_verified_by_approved_codehash(caller) {
            Ok(true) => {},
            Ok(false) => {
                return Err(Error::Unauthorized);
            },
            Err(e) => {
                return Err(e);
            },
        }
        let authorized = match self.subscription_keys.get(public_key) {
            Option::Some(id) => *id == *subscription_id,
            Option::None => false,
        };
        if !authorized {
            let res = PaymentResult {
                success: false,
                subscription_id: subscription_id.clone(),
                amount: 0,
                timestamp: now,
                error: Option::Some(
                    String::from_str("Key is not authorized for this subscription"),
                ),
            };
            return Ok((res, Option::None));
        }
        let sub = match self.subscriptions.get(subscription_id) {
            Option::Some(s) => s.clone(),
            Option::None => {
                return Err(Error::NotFound);
            },
        };
        if !matches!(sub.status, SubscriptionStatus::Active) {
            let res = PaymentResult {
                success: false,
                subscription_id: subscription_id.clone(),
                amount: sub.amount,
                timestamp: now,
                error: Option::Some(inactive_message(sub.status)),
            };
            return Ok((res, Option::None));
        }
        if sub.next_payment_date > now {
            let res = PaymentResult {
                success: false,
                subscription_id: subscription_id.clone(),
                amount: sub.amount,
                timestamp: now,
                error: Option::Some(String::from_str("Payment is not due yet")),
            };
            return Ok((res, Option::None));
        }
        let limit_reached = match sub.max_payments {
            Option::Some(max) => sub.payments_made >= max,
            Option::None => false,
        };
        if limit_reached {
            let mut updated = sub.clone();
            updated.status = SubscriptionStatus::Canceled;
            let ghost pre = *self;
            let ghost v = updated@;
            self.subscriptions.insert(subscription_id.clone(), updated);
            proof {
                lemma_wf_sub_at(&pre, subscription_id@);
                lemma_subs_update_wf(pre, *self, subscription_id@, v);
            }
            let res = PaymentResult {
                success: false,
                subscription_id: subscription_id.clone(),
                amount: sub.amount,
                timestamp: now,
                error: Option::Some(String::from_str("Maximum number of payments reached")),
            };
            return Ok((res, Option::None));
        }
        let expired = match sub.end_date {
            Option::Some(end_date) => now >= end_date,
            Option::None => false,
        };
        if expired {
            let mut updated = sub.clone();
            updated.status = SubscriptionStatus::Canceled;
            let ghost pre = *self;
            let ghost v = updated@;
            self.subscriptions.insert(subscription_id.clone(), updated);
            proof {
                lemma_wf_sub_at(&pre, subscription_id@);
                lemma_subs_update_wf(pre, *self, subscription_id@, v);
            }
            let res = PaymentResult {
                success: false,
                subscription_id: subscription_id.clone(),
                amount: sub.amount,
                timestamp: now,
                error: Option::Some(String::from_str("Subscription end date reached")),
            };
            return Ok((res, Option::None));
        }
        let action = TransferAction {
            method: sub.payment_method.clone(),
            payer: sub.user_id.clone(),
            payee: sub.merchant_id.clone(),
            amount: sub.amount,
            subscription_id: subscription_id.clone(),
        };
        self.update_subscription_after_payment(&sub, subscription_id, now);
        let res = PaymentResult {
            success: true,
            subscription_id: subscription_id.clone(),
            amount: sub.amount,
            timestamp: now,
            error: Option::None,
        };
        Ok((res, Option::Some(action)))
    }

    /// Lists, in ledger order, up to `limit` subscriptions currently due
    /// for billing.  Requires the caller to be an approved worker: an
    /// unapproved caller is rejected before any subscription data is
    /// touched.
    #[verifier::loop_isolation(false)]
    pub fn get_due_subscriptions(&self, caller: &String, limit: u64, now: u64) -> (r: Result<
        Vec<Subscription>,
        Error,
    >)
        requires
            self.wf(),
        ensures
            r == Err::<Vec<Subscription>, Error>(Error::NotFound) <==> !self.workers().contains_key(
                caller@,
            ),
            r == Err::<Vec<Subscription>, Error>(Error::Unauthorized) <==> self.workers(
            ).contains_key(caller@) && !self.codehashes().contains(
                self.workers()[caller@].codehash,
            ),
            r is Ok <==> self.approved_worker(caller@),
            r matches Ok(v) ==> {
                &&& views_of(v@) == due_list(self.subs_seq(), now, limit)
                &&& v@.len() <= limit
                &&& forall|i: int| 0 <= i < v@.len() ==> is_due((#[trigger] v@[i])@, now)
            },
    {
        match self.is_verified_by_approved_codehash(caller) {
            Ok(true) => {},
            Ok(false) => {
                return Err(Error::Unauthorized);
            },
            Err(e) => {
                return Err(e);
            },
        }
        let ghost entries = self.subs_seq();
        let n = self.subscriptions.len();
        let mut due: Vec<Subscription> = Vec::new();
        let mut count: u64 = 0;
        let mut i: usize = 0;
        proof {
            assert(entries.subrange(0, n as int) =~= entries);
        }
        while i < n && count < limit
            invariant
                i <= n,
                count == due@.len(),
                count <= limit,
                views_of(due@) + due_list(
                    entries.subrange(i as int, n as int),
                    now,
                    (limit - count) as u64,
                ) == due_list(entries, now, limit),
                forall|j: int| 0 <= j < due@.len() ==> is_due((#[trigger] due@[j])@, now),
            decreases n - i,
        {
            let ghost rest = entries.subrange(i as int, n as int);
            proof {
                assert(rest.drop_first() =~= entries.subrange(i + 1, n as int));
                assert(rest[0] == entries[i as int]);
            }
            let sub = self.subscriptions.value_at(i);
            let ghost d0 = due@;
            if matches!(sub.status, SubscriptionStatus::Active) && sub.next_payment_date <= now {
                due.push(sub.clone());
                count = count + 1;
                proof {
                    assert(views_of(due@) =~= views_of(d0).push(sub@));
                    assert(seq![sub@] + due_list(
                        entries.subrange(i + 1, n as int),
                        now,
                        (limit - count) as u64,
                    ) =~= due_list(rest, now, (limit - (count - 1)) as u64));
                    assert(views_of(d0).push(sub@) + due_list(
                        entries.subrange(i + 1, n as int),
                        now,
                        (limit - count) as u64,
                    ) =~= views_of(d0) + due_list(
                        rest,
                        now,
                        (limit - (count - 1)) as u64,
                    ));
                }
            }
            i = i + 1;
        }
        proof {
            if count == limit {
                assert(due_list(entries.subrange(i as int, n as int), now, 0) =~= Seq::<
                    SubscriptionView,
                >::empty());
            } else {
                assert(entries.subrange(i as int, n as int) =~= Seq::<
                    (Seq<char>, SubscriptionView),
                >::empty());
            }
            assert(views_of(due@) + Seq::<SubscriptionView>::empty() =~= views_of(due@));
        }
        Ok(due)
    }
}

} // verus!
