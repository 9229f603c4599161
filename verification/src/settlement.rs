//! The settlement worker's decision: one gateway outcome becomes one
//! status event.
//!
//! The worker consumes `TransactionCreatedEvent`s, hands each to the
//! payment gateway, and publishes a `PaymentStatusUpdatedEvent` keyed
//! by the same transaction id: `Completed` with the gateway's
//! reference on success, `Failed` with the gateway's reason and an
//! empty reference otherwise.  The gateway call itself is I/O and
//! stays outside; this module fixes what every outcome turns into.

use vstd::prelude::*;
use crate::clock::now_seconds;
use crate::events::{
    status_updated_tag, PaymentStatusUpdatedEvent, PaymentStatusUpdatedEventV,
    TransactionCreatedEvent, TransactionCreatedEventV,
};
use crate::ids::fresh_uuid;
use crate::models::{TransactionStatus, TransactionStatusV};

verus! {

/// Configuration of the payment gateway client.
pub struct StripeService {
    secret_key: String,
}

impl StripeService {
    /// The gateway credential this service was built over.
    pub closed spec fn spec_secret_key(&self) -> Seq<char> {
        self.secret_key@
    }

    /// Builds the service over the given gateway credential.
    pub fn new(stripe_secret_key: &str) -> (s: Self)
        ensures
            s.spec_secret_key() == stripe_secret_key@,
    {
        StripeService { secret_key: stripe_secret_key.to_owned() }
    }
}

/// A gateway outcome, each side taken to its image: the payment
/// reference on success, the failure reason otherwise.
pub open spec fn outcome_view(outcome: Result<String, String>) -> Result<Seq<char>, Seq<char>> {
    match outcome {
        Ok(gateway_ref) => Ok(gateway_ref@),
        Err(reason) => Err(reason@),
    }
}

/// The status event one settlement outcome earns.
pub open spec fn spec_settlement_event(
    created: TransactionCreatedEventV,
    outcome: Result<Seq<char>, Seq<char>>,
    event_id: u128,
    timestamp: i64,
) -> PaymentStatusUpdatedEventV {
    match outcome {
        Ok(gateway_ref) => PaymentStatusUpdatedEventV {
            event_id,
            event_type: status_updated_tag(),
            timestamp,
            transaction_id: created.transaction_id,
            status: TransactionStatusV::Completed,
            stripe_payment_id: gateway_ref,
        },
        Err(reason) => PaymentStatusUpdatedEventV {
            event_id,
            event_type: status_updated_tag(),
            timestamp,
            transaction_id: created.transaction_id,
            status: TransactionStatusV::Failed { reason },
            stripe_payment_id: Seq::empty(),
        },
    }
}

/// Turns one settlement outcome into the status event to publish,
/// deterministically.
pub fn settlement_event_at(
    created: &TransactionCreatedEvent,
    outcome: Result<String, String>,
    event_id: u128,
    timestamp: i64,
) -> (r: PaymentStatusUpdatedEvent)
    ensures
        r@ == spec_settlement_event(created@, outcome_view(outcome), event_id, timestamp),
{
    match outcome {
        Ok(gateway_ref) => PaymentStatusUpdatedEvent::new_at(
            event_id,
            timestamp,
            created.transaction_id,
            TransactionStatus::Completed,
            gateway_ref,
        ),
        Err(reason) => PaymentStatusUpdatedEvent::new_at(
            event_id,
            timestamp,
            created.transaction_id,
            TransactionStatus::Failed { reason },
            String::new(),
        ),
    }
}

/// Turns one settlement outcome into the status event to publish,
/// under a fresh event identifier and the current time.
pub fn settle(created: &TransactionCreatedEvent, outcome: Result<String, String>) -> (r:
    PaymentStatusUpdatedEvent)
    ensures
        r@.transaction_id == created@.transaction_id,
        r@.event_type == status_updated_tag(),
        outcome matches Ok(gateway_ref) ==> (r@.status is Completed && r@.stripe_payment_id
            == gateway_ref@),
        outcome matches Err(reason) ==> (r@.status == (TransactionStatusV::Failed {
            reason: reason@,
        }) && r@.stripe_payment_id == Seq::<char>::empty()),
{
    let event_id = fresh_uuid();
    let timestamp = now_seconds();
    settlement_event_at(created, outcome, event_id, timestamp)
}

} // verus!
