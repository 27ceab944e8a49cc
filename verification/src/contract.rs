//! The engine's state object and its administrative and worker-registry
//! operations.
//!
//! Every externally invoked operation takes the authenticated caller
//! principal and, where time matters, the current time in whole seconds, as
//! plain arguments supplied by the host environment.  Fatal preconditions
//! (authorization, absence of a referenced entity, an operation illegal in
//! the current lifecycle state) abort the call through a typed [`Error`]
//! with no mutation.

use vstd::prelude::*;

use crate::idgen::has_counter_suffix;
use crate::models::Error;
use crate::models::SubscriptionStatus;
use crate::models::SubscriptionView;
use crate::models::Worker;
use crate::models::WorkerView;
use crate::models::Subscription;
use crate::store::StrMap;
use crate::store::StrSet;
use crate::store::lemma_map_of_contains;
use crate::store::lemma_map_of_index;

verus! {

/// `id` carries some counter value below `bound` as its final digit run.
pub open spec fn id_counter_bounded(id: Seq<char>, bound: u64) -> bool {
    exists|c: u64| c < bound && has_counter_suffix(id, c)
}

/// The bound of [`id_counter_bounded`] can be raised.
pub proof fn lemma_id_counter_bounded_mono(id: Seq<char>, b1: u64, b2: u64)
    requires
        id_counter_bounded(id, b1),
        b1 <= b2,
    ensures
        id_counter_bounded(id, b2),
{
    let c = choose|c: u64| c < b1 && has_counter_suffix(id, c);
    assert(c < b2 && has_counter_suffix(id, c));
}

/// Per-subscription well-formedness: the payment counter never exceeds the
/// cap when one is set.
pub open spec fn sub_view_wf(s: SubscriptionView) -> bool {
    match s.max_payments {
        Option::Some(m) => s.payments_made <= m,
        Option::None => true,
    }
}

/// The engine's entire state: one explicit object, passed by exclusive
/// reference into every operation.
pub struct Contract {
    pub owner_id: String,
    pub approved_codehashes: StrSet,
    pub worker_by_account_id: StrMap<Worker>,
    pub subscriptions: StrMap<Subscription>,
    pub subscription_keys: StrMap<String>,
    pub merchants: StrSet,
    pub sub_counter: u64,
}

impl Contract {
    /// The operator principal.
    pub open spec fn owner(&self) -> Seq<char> {
        self.owner_id@
    }

    /// The approved codehashes, in insertion order.
    pub open spec fn codehash_seq(&self) -> Seq<Seq<char>> {
        self.approved_codehashes.seq()
    }

    /// The approved codehashes, as a set.
    pub open spec fn codehashes(&self) -> Set<Seq<char>> {
        self.approved_codehashes@
    }

    /// The worker records, in insertion order.
    pub open spec fn worker_seq(&self) -> Seq<(Seq<char>, WorkerView)> {
        self.worker_by_account_id.seq()
    }

    /// The worker records, keyed by principal.
    pub open spec fn workers(&self) -> Map<Seq<char>, WorkerView> {
        self.worker_by_account_id@
    }

    /// The subscriptions, in insertion order.
    pub open spec fn subs_seq(&self) -> Seq<(Seq<char>, SubscriptionView)> {
        self.subscriptions.seq()
    }

    /// The subscriptions, keyed by identifier.
    pub open spec fn subs(&self) -> Map<Seq<char>, SubscriptionView> {
        self.subscriptions@
    }

    /// The stored subscription at identifier `id`.
    pub open spec fn sub_at(&self, id: Seq<char>) -> SubscriptionView {
        self.subs()[id]
    }

    /// The delegated-key bindings, in insertion order.
    pub open spec fn key_seq(&self) -> Seq<(Seq<char>, Seq<char>)> {
        self.subscription_keys.seq()
    }

    /// The delegated-key bindings: public key to subscription identifier.
    pub open spec fn keys(&self) -> Map<Seq<char>, Seq<char>> {
        self.subscription_keys@
    }

    /// The registered merchants, in insertion order.
    pub open spec fn merchant_seq(&self) -> Seq<Seq<char>> {
        self.merchants.seq()
    }

    /// The registered merchants, as a set.
    pub open spec fn merchant_set(&self) -> Set<Seq<char>> {
        self.merchants@
    }

    /// The monotonic counter feeding identifier generation.
    pub open spec fn counter(&self) -> u64 {
        self.sub_counter
    }

    /// Well-formedness: the collections hold distinct keys, every stored
    /// subscription carries its own key as its `id`, respects its payment
    /// cap, and was generated with a counter value below the current one.
    pub open spec fn wf(&self) -> bool {
        &&& self.approved_codehashes.wf()
        &&& self.worker_by_account_id.wf()
        &&& self.subscriptions.wf()
        &&& self.subscription_keys.wf()
        &&& self.merchants.wf()
        &&& forall|i: int|
            0 <= i < self.subs_seq().len() ==> (#[trigger] self.subs_seq()[i]).1.id
                == self.subs_seq()[i].0
        &&& forall|i: int|
            0 <= i < self.subs_seq().len() ==> sub_view_wf((#[trigger] self.subs_seq()[i]).1)
        &&& forall|i: int|
            0 <= i < self.subs_seq().len() ==> id_counter_bounded(
                (#[trigger] self.subs_seq()[i]).0,
                self.sub_counter,
            )
    }

    /// The worker registered for `caller` runs code whose hash the operator
    /// approved.
    pub open spec fn approved_worker(&self, caller: Seq<char>) -> bool {
        &&& self.workers().contains_key(caller)
        &&& self.codehashes().contains(self.workers()[caller].codehash)
    }

    /// Creates an empty engine state owned by `owner_id`.
    pub fn new(owner_id: String) -> (r: Contract)
        ensures
            r.wf(),
            r.owner() == owner_id@,
            r.codehash_seq() =~= Seq::<Seq<char>>::empty(),
            r.worker_seq() =~= Seq::<(Seq<char>, WorkerView)>::empty(),
            r.subs_seq() =~= Seq::<(Seq<char>, SubscriptionView)>::empty(),
            r.key_seq() =~= Seq::<(Seq<char>, Seq<char>)>::empty(),
            r.merchant_seq() =~= Seq::<Seq<char>>::empty(),
            r.counter() == 0,
    {
        Contract {
            owner_id,
            approved_codehashes: StrSet::new(),
            worker_by_account_id: StrMap::new(),
            subscriptions: StrMap::new(),
            subscription_keys: StrMap::new(),
            merchants: StrSet::new(),
            sub_counter: 0,
        }
    }

    /// Checks that `caller` is the operator.
    pub fn require_owner(&self, caller: &String) -> (r: Result<(), Error>)
        ensures
            r == Ok::<(), Error>(()) <==> caller@ == self.owner(),
            r != Ok::<(), Error>(()) ==> r == Err::<(), Error>(Error::Unauthorized),
    {
        if *caller == self.owner_id {
            Ok(())
        } else {
            Err(Error::Unauthorized)
        }
    }

    /// Registers a merchant principal; only the operator may call this.
    pub fn register_merchant(&mut self, caller: &String, merchant_id: String) -> (r: Result<
        (),
        Error,
    >)
        requires
            old(self).wf(),
        ensures
            final(self).wf(),
            preserves_canceled(old(self), final(self)),
            r == Err::<(), Error>(Error::Unauthorized) <==> caller@ != old(self).owner(),
            r is Ok <==> caller@ == old(self).owner(),
            r is Err ==> *final(self) == *old(self),
            r is Ok ==> {
                &&& final(self).merchant_set() =~= old(self).merchant_set().insert(merchant_id@)
                &&& old(self).merchant_set().contains(merchant_id@) ==> final(self).merchant_seq()
                    == old(self).merchant_seq()
                &&& !old(self).merchant_set().contains(merchant_id@) ==> final(self).merchant_seq()
                    =~= old(self).merchant_seq().push(merchant_id@)
                &&& unchanged_but_merchants(old(self), final(self))
            },
    {
        match self.require_owner(caller) {
            Ok(_) => {
                self.merchants.insert(merchant_id);
                Ok(())
            },
            Err(e) => Err(e),
        }
    }

    /// Lists the registered merchants, in registration order.
    #[verifier::loop_isolation(false)]
    pub fn get_merchants(&self) -> (r: Vec<String>)
        ensures
            r@.map_values(|s: String| s@) =~= self.merchant_seq(),
    {
        let n = self.merchants.len();
        let mut r: Vec<String> = Vec::new();
        let mut i: usize = 0;
        while i < n
            invariant
                i <= n,
                r@.len() == i,
                forall|j: int| 0 <= j < i ==> (#[trigger] r@[j])@ == self.merchant_seq()[j],
            decreases n - i,
        {
            let c = self.merchants.at(i).clone();
            assert(c@ == self.merchant_seq()[i as int]);
            r.push(c);
            i = i + 1;
        }
        r
    }

    /// Approves a codehash; only the operator may call this.
    pub fn approve_codehash(&mut self, caller: &String, codehash: String) -> (r: Result<(), Error>)
        requires
            old(self).wf(),
        ensures
            final(self).wf(),
            preserves_canceled(old(self), final(self)),
            r == Err::<(), Error>(Error::Unauthorized) <==> caller@ != old(self).owner(),
            r is Ok <==> caller@ == old(self).owner(),
            r is Err ==> *final(self) == *old(self),
            r is Ok ==> {
                &&& final(self).codehashes() =~= old(self).codehashes().insert(codehash@)
                &&& unchanged_but_codehashes(old(self), final(self))
            },
    {
        match self.require_owner(caller) {
            Ok(_) => {
                self.approved_codehashes.insert(codehash);
                Ok(())
            },
            Err(e) => Err(e),
        }
    }

    /// Fetches the worker record registered for `account_id`.
    pub fn get_worker(&self, account_id: &String) -> (r: Result<Worker, Error>)
        requires
            self.wf(),
        ensures
            r matches Ok(w) ==> self.workers().contains_key(account_id@) && w@
                == self.workers()[account_id@],
            r is Err <==> !self.workers().contains_key(account_id@),
            r is Err ==> r == Err::<Worker, Error>(Error::NotFound),
    {
        match self.worker_by_account_id.get(account_id) {
            Option::Some(w) => Ok(w.clone()),
            Option::None => Err(Error::NotFound),
        }
    }

    /// Checks that `caller` has a worker record whose codehash is exactly
    /// `codehash`.
    pub fn require_worker(&self, caller: &String, codehash: &String) -> (r: Result<(), Error>)
        requires
            self.wf(),
        ensures
            r == Err::<(), Error>(Error::NotFound) <==> !self.workers().contains_key(caller@),
            r == Err::<(), Error>(Error::Unauthorized) <==> self.workers().contains_key(caller@)
                && self.workers()[caller@].codehash != codehash@,
            r == Ok::<(), Error>(()) <==> self.workers().contains_key(caller@)
                && self.workers()[caller@].codehash == codehash@,
    {
        match self.worker_by_account_id.get(caller) {
            Option::Some(w) => {
                if w.codehash == *codehash {
                    Ok(())
                } else {
                    Err(Error::Unauthorized)
                }
            },
            Option::None => Err(Error::NotFound),
        }
    }

    /// Checks that `caller` is a worker verified for `codehash`; an alias of
    /// [`Contract::require_worker`] exposed to the host.
    pub fn is_verified_by_codehash(&self, caller: &String, codehash: &String) -> (r: Result<
        (),
        Error,
    >)
        requires
            self.wf(),
        ensures
            r == Err::<(), Error>(Error::NotFound) <==> !self.workers().contains_key(caller@),
            r == Err::<(), Error>(Error::Unauthorized) <==> self.workers().contains_key(caller@)
                && self.workers()[caller@].codehash != codehash@,
            r == Ok::<(), Error>(()) <==> self.workers().contains_key(caller@)
                && self.workers()[caller@].codehash == codehash@,
    {
        self.require_worker(caller, codehash)
    }

    /// Whether `caller`'s worker record carries a codehash the operator
    /// approved: a pure predicate.  For a registered caller it returns the
    /// membership flag and never fails; only a caller that never registered
    /// fails, with `NotFound`, the same way [`Contract::get_worker`] does.
    pub fn is_verified_by_approved_codehash(&self, caller: &String) -> (r: Result<bool, Error>)
        requires
            self.wf(),
        ensures
            r matches Ok(b) ==> self.workers().contains_key(caller@) && b == self.codehashes(
            ).contains(self.workers()[caller@].codehash),
            r is Err <==> !self.workers().contains_key(caller@),
            r is Err ==> r == Err::<bool, Error>(Error::NotFound),
            r == Ok::<bool, Error>(true) <==> self.approved_worker(caller@),
    {
        match self.worker_by_account_id.get(caller) {
            Option::Some(w) => Ok(self.approved_codehashes.contains(&w.codehash)),
            Option::None => Err(Error::NotFound),
        }
    }
}

/// In a well-formed state, a stored subscription carries its own key as its
/// `id` and respects its payment cap.
pub proof fn lemma_wf_sub_at(c: &Contract, k: Seq<char>)
    requires
        c.wf(),
        c.subs().contains_key(k),
    ensures
        c.sub_at(k).id == k,
        sub_view_wf(c.sub_at(k)),
{
    lemma_map_of_contains(c.subs_seq(), k);
    let i = choose|i: int| 0 <= i < c.subs_seq().len() && c.subs_seq()[i].0 == k;
    lemma_map_of_index(c.subs_seq(), i);
}

/// Terminal-state preservation: a subscription that is `Canceled` in `pre`
/// is still present and `Canceled` in `post`.  Every mutating operation of
/// the engine ensures this.
pub open spec fn preserves_canceled(pre: &Contract, post: &Contract) -> bool {
    forall|k: Seq<char>|
        #[trigger] pre.subs().contains_key(k) && pre.subs()[k].status
            == SubscriptionStatus::Canceled ==> post.subs().contains_key(k) && post.subs()[k].status
            == SubscriptionStatus::Canceled
}

/// Everything except the merchant set is unchanged.
pub open spec fn unchanged_but_merchants(pre: &Contract, post: &Contract) -> bool {
    &&& post.owner() == pre.owner()
    &&& post.codehash_seq() == pre.codehash_seq()
    &&& post.worker_seq() == pre.worker_seq()
    &&& post.subs_seq() == pre.subs_seq()
    &&& post.key_seq() == pre.key_seq()
    &&& post.counter() == pre.counter()
}

/// Everything except the approved-codehash set is unchanged.
pub open spec fn unchanged_but_codehashes(pre: &Contract, post: &Contract) -> bool {
    &&& post.owner() == pre.owner()
    &&& post.worker_seq() == pre.worker_seq()
    &&& post.subs_seq() == pre.subs_seq()
    &&& post.key_seq() == pre.key_seq()
    &&& post.merchant_seq() == pre.merchant_seq()
    &&& post.counter() == pre.counter()
}

/// Everything except the worker registry is unchanged.
pub open spec fn unchanged_but_workers(pre: &Contract, post: &Contract) -> bool {
    &&& post.owner() == pre.owner()
    &&& post.codehash_seq() == pre.codehash_seq()
    &&& post.subs_seq() == pre.subs_seq()
    &&& post.key_seq() == pre.key_seq()
    &&& post.merchant_seq() == pre.merchant_seq()
    &&& post.counter() == pre.counter()
}

/// Everything except the subscription ledger and the identifier counter is
/// unchanged.
pub open spec fn unchanged_but_subs(pre: &Contract, post: &Contract) -> bool {
    &&& post.owner() == pre.owner()
    &&& post.codehash_seq() == pre.codehash_seq()
    &&& post.worker_seq() == pre.worker_seq()
    &&& post.key_seq() == pre.key_seq()
    &&& post.merchant_seq() == pre.merchant_seq()
}

/// Everything except the delegated-key map is unchanged.
pub open spec fn unchanged_but_keys(pre: &Contract, post: &Contract) -> bool {
    &&& post.owner() == pre.owner()
    &&& post.codehash_seq() == pre.codehash_seq()
    &&& post.worker_seq() == pre.worker_seq()
    &&& post.subs_seq() == pre.subs_seq()
    &&& post.merchant_seq() == pre.merchant_seq()
    &&& post.counter() == pre.counter()
}

} // verus!
