//! Data model: subscriptions, workers, payment outcomes, and their
//! mathematical views.

use vstd::prelude::*;

verus! {

/// Seconds in one day.
pub const DAILY_SECS: u64 = 86400;

/// Seconds in one week.
pub const WEEKLY_SECS: u64 = 604800;

/// Seconds in thirty days.
pub const MONTHLY_SECS: u64 = 2592000;

/// Seconds in ninety days.
pub const QUARTERLY_SECS: u64 = 7776000;

/// Seconds in 365 days.
pub const YEARLY_SECS: u64 = 31536000;

/// Latest time instant the engine accepts: adding one yearly interval to a
/// timestamp below this bound cannot overflow `u64`.
pub const MAX_TIME: u64 = u64::MAX - 31536000;

/// A subscription identifier, generated by the ledger at creation.
pub type SubscriptionId = String;

/// Lifecycle state of a subscription.  `Canceled` is terminal; `Failed` is
/// reserved and never assigned by any operation of this engine.
#[derive(Clone, Copy, PartialEq, Eq, Structural, Debug)]
pub enum SubscriptionStatus {
    Active,
    Paused,
    Canceled,
    Failed,
}

/// Billing interval of a subscription.
#[derive(Clone, Copy, PartialEq, Eq, Structural, Debug)]
pub enum SubscriptionFrequency {
    Daily,
    Weekly,
    Monthly,
    Quarterly,
    Yearly,
}

/// The fixed length, in seconds, of one billing interval.
pub open spec fn spec_interval(f: SubscriptionFrequency) -> u64 {
    match f {
        SubscriptionFrequency::Daily => DAILY_SECS,
        SubscriptionFrequency::Weekly => WEEKLY_SECS,
        SubscriptionFrequency::Monthly => MONTHLY_SECS,
        SubscriptionFrequency::Quarterly => QUARTERLY_SECS,
        SubscriptionFrequency::Yearly => YEARLY_SECS,
    }
}

/// Computes the billing interval of a frequency, in seconds.
#[verifier::when_used_as_spec(spec_interval)]
pub fn interval(f: SubscriptionFrequency) -> (r: u64)
    ensures
        r == spec_interval(f),
{
    match f {
        SubscriptionFrequency::Daily => DAILY_SECS,
        SubscriptionFrequency::Weekly => WEEKLY_SECS,
        SubscriptionFrequency::Monthly => MONTHLY_SECS,
        SubscriptionFrequency::Quarterly => QUARTERLY_SECS,
        SubscriptionFrequency::Yearly => YEARLY_SECS,
    }
}

/// How a payment is executed by the host: a native-currency transfer, or a
/// call into a fungible-token contract identified by `token_id`.
#[derive(Debug)]
pub enum PaymentMethod {
    Near,
    Ft { token_id: String },
}

/// Mathematical view of a [`PaymentMethod`].
#[verifier::ext_equal]
pub enum PaymentMethodView {
    Near,
    Ft { token_id: Seq<char> },
}

impl View for PaymentMethod {
    type V = PaymentMethodView;

    open spec fn view(&self) -> PaymentMethodView {
        match self {
            PaymentMethod::Near => PaymentMethodView::Near,
            PaymentMethod::Ft { token_id } => PaymentMethodView::Ft { token_id: token_id@ },
        }
    }
}

/// An admitted autonomous agent: the build checksum it attested to and the
/// codehash of the code it runs.
#[derive(Debug)]
pub struct Worker {
    pub checksum: String,
    pub codehash: String,
}

/// Mathematical view of a [`Worker`].
#[verifier::ext_equal]
pub struct WorkerView {
    pub checksum: Seq<char>,
    pub codehash: Seq<char>,
}

impl View for Worker {
    type V = WorkerView;

    open spec fn view(&self) -> WorkerView {
        WorkerView { checksum: self.checksum@, codehash: self.codehash@ }
    }
}

/// The central entity: a recurring-payment agreement between a payer
/// (`user_id`) and a merchant (`merchant_id`).
#[derive(Debug)]
pub struct Subscription {
    pub id: SubscriptionId,
    pub user_id: String,
    pub merchant_id: String,
    pub amount: u128,
    pub frequency: SubscriptionFrequency,
    pub next_payment_date: u64,
    pub status: SubscriptionStatus,
    pub created_at: u64,
    pub updated_at: u64,
    pub payment_method: PaymentMethod,
    pub max_payments: Option<u32>,
    pub payments_made: u32,
    pub end_date: Option<u64>,
}

/// Mathematical view of a [`Subscription`].
#[verifier::ext_equal]
pub struct SubscriptionView {
    pub id: Seq<char>,
    pub user_id: Seq<char>,
    pub merchant_id: Seq<char>,
    pub amount: u128,
    pub frequency: SubscriptionFrequency,
    pub next_payment_date: u64,
    pub status: SubscriptionStatus,
    pub created_at: u64,
    pub updated_at: u64,
    pub payment_method: PaymentMethodView,
    pub max_payments: Option<u32>,
    pub payments_made: u32,
    pub end_date: Option<u64>,
}

impl View for Subscription {
    type V = SubscriptionView;

    open spec fn view(&self) -> SubscriptionView {
        SubscriptionView {
            id: self.id@,
            user_id: self.user_id@,
            merchant_id: self.merchant_id@,
            amount: self.amount,
            frequency: self.frequency,
            next_payment_date: self.next_payment_date,
            status: self.status,
            created_at: self.created_at,
            updated_at: self.updated_at,
            payment_method: self.payment_method@,
            max_payments: self.max_payments,
            payments_made: self.payments_made,
            end_date: self.end_date,
        }
    }
}

/// Outcome of one payment-processing attempt.  Transient: returned to the
/// caller and never stored.
#[derive(Debug)]
pub struct PaymentResult {
    pub success: bool,
    pub subscription_id: SubscriptionId,
    pub amount: u128,
    pub timestamp: u64,
    pub error: Option<String>,
}

/// Mathematical view of a [`PaymentResult`].
#[verifier::ext_equal]
pub struct PaymentResultView {
    pub success: bool,
    pub subscription_id: Seq<char>,
    pub amount: u128,
    pub timestamp: u64,
    pub error: Option<Seq<char>>,
}

impl View for PaymentResult {
    type V = PaymentResultView;

    open spec fn view(&self) -> PaymentResultView {
        PaymentResultView {
            success: self.success,
            subscription_id: self.subscription_id@,
            amount: self.amount,
            timestamp: self.timestamp,
            error: match self.error {
                Option::Some(ref e) => Option::Some(e@),
                Option::None => Option::None,
            },
        }
    }
}

/// A value transfer the host must dispatch after a successful processing
/// step: pay `amount` to `payee` by `method`, on behalf of `payer`.
#[derive(Debug)]
pub struct TransferAction {
    pub method: PaymentMethod,
    pub payer: String,
    pub payee: String,
    pub amount: u128,
    pub subscription_id: SubscriptionId,
}

/// Mathematical view of a [`TransferAction`].
#[verifier::ext_equal]
pub struct TransferActionView {
    pub method: PaymentMethodView,
    pub payer: Seq<char>,
    pub payee: Seq<char>,
    pub amount: u128,
    pub subscription_id: Seq<char>,
}

impl View for TransferAction {
    type V = TransferActionView;

    open spec fn view(&self) -> TransferActionView {
        TransferActionView {
            method: self.payment_method_view(),
            payer: self.payer@,
            payee: self.payee@,
            amount: self.amount,
            subscription_id: self.subscription_id@,
        }
    }
}

impl TransferAction {
    /// The view of this action's payment method.
    pub open spec fn payment_method_view(&self) -> PaymentMethodView {
        self.method@
    }
}

impl Clone for PaymentMethod {
    /// Clones the payment method; the copy equals the original.
    fn clone(&self) -> (r: Self)
        ensures
            r == *self,
    {
        match self {
            PaymentMethod::Near => PaymentMethod::Near,
            PaymentMethod::Ft { token_id } => PaymentMethod::Ft { token_id: token_id.clone() },
        }
    }
}

impl Clone for Worker {
    /// Clones the worker record; the copy equals the original.
    fn clone(&self) -> (r: Self)
        ensures
            r == *self,
    {
        Worker { checksum: self.checksum.clone(), codehash: self.codehash.clone() }
    }
}

impl Clone for Subscription {
    /// Clones the subscription; the copy equals the original.
    fn clone(&self) -> (r: Self)
        ensures
            r == *self,
    {
        Subscription {
            id: self.id.clone(),
            user_id: self.user_id.clone(),
            merchant_id: self.merchant_id.clone(),
            amount: self.amount,
            frequency: self.frequency,
            next_payment_date: self.next_payment_date,
            status: self.status,
            created_at: self.created_at,
            updated_at: self.updated_at,
            payment_method: self.payment_method.clone(),
            max_payments: self.max_payments,
            payments_made: self.payments_made,
            end_date: self.end_date,
        }
    }
}

impl Clone for PaymentResult {
    /// Clones the payment result; the copy equals the original.
    fn clone(&self) -> (r: Self)
        ensures
            r == *self,
    {
        PaymentResult {
            success: self.success,
            subscription_id: self.subscription_id.clone(),
            amount: self.amount,
            timestamp: self.timestamp,
            error: match &self.error {
                Option::Some(e) => Option::Some(e.clone()),
                Option::None => Option::None,
            },
        }
    }
}

impl Clone for TransferAction {
    /// Clones the transfer action; the copy equals the original.
    fn clone(&self) -> (r: Self)
        ensures
            r == *self,
    {
        TransferAction {
            method: self.method.clone(),
            payer: self.payer.clone(),
            payee: self.payee.clone(),
            amount: self.amount,
            subscription_id: self.subscription_id.clone(),
        }
    }
}

/// A fatal error: the caller lacks standing, a referenced entity is absent,
/// or the operation is illegal in the current lifecycle state.  These abort
/// the call with no mutation.
#[derive(Clone, Copy, PartialEq, Eq, Structural, Debug)]
pub enum Error {
    Unauthorized,
    NotFound,
    InvalidState,
}

} // verus!
