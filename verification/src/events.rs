//! The immutable facts published on the event bus.
//!
//! Every event carries a stable envelope: its own identifier, a type
//! tag, and the time it was produced.  The `new_at` constructors pin
//! every field and are what the verified pipeline reasons about; the
//! `new` constructors match them after drawing a fresh identifier and
//! reading the clock.

use vstd::prelude::*;
use crate::clock::now_seconds;
use crate::ids::fresh_uuid;
use crate::models::{TransactionStatus, TransactionStatusV};

verus! {

/// Type tag of a `TransactionCreatedEvent`.
pub open spec fn transaction_created_tag() -> Seq<char> {
    "TRANSACTION.CREATED"@
}

/// Type tag of a `PaymentStatusUpdatedEvent`.
pub open spec fn status_updated_tag() -> Seq<char> {
    "STATUS_UPDATED"@
}

/// Type tag of a `PaymentStatusRequestEvent`.
pub open spec fn status_request_tag() -> Seq<char> {
    "STATUS_REQUEST"@
}

/// Reply topic named by a `PaymentStatusRequestEvent`.
pub open spec fn status_reply_topic() -> Seq<char> {
    "payment-status-response"@
}

/// Fact: a transaction was accepted by the command handler.
#[derive(Debug, Clone)]
pub struct TransactionCreatedEvent {
    pub event_id: u128,
    pub event_type: String,
    pub timestamp: i64,
    pub transaction_id: u128,
    pub amount: u64,
    pub currency: String,
    pub merchant_id: String,
    pub customer_id: String,
}

/// Mathematical image of a `TransactionCreatedEvent`.
pub ghost struct TransactionCreatedEventV {
    pub event_id: u128,
    pub event_type: Seq<char>,
    pub timestamp: i64,
    pub transaction_id: u128,
    pub amount: u64,
    pub currency: Seq<char>,
    pub merchant_id: Seq<char>,
    pub customer_id: Seq<char>,
}

impl View for TransactionCreatedEvent {
    type V = TransactionCreatedEventV;

    open spec fn view(&self) -> TransactionCreatedEventV {
        TransactionCreatedEventV {
            event_id: self.event_id,
            event_type: self.event_type@,
            timestamp: self.timestamp,
            transaction_id: self.transaction_id,
            amount: self.amount,
            currency: self.currency@,
            merchant_id: self.merchant_id@,
            customer_id: self.customer_id@,
        }
    }
}

impl TransactionCreatedEvent {
    /// Builds the event with every field given.
    pub fn new_at(
        event_id: u128,
        timestamp: i64,
        transaction_id: u128,
        amount: u64,
        currency: String,
        merchant_id: String,
        customer_id: String,
    ) -> (e: Self)
        ensures
            e@ == (TransactionCreatedEventV {
                event_id,
                event_type: transaction_created_tag(),
                timestamp,
                transaction_id,
                amount,
                currency: currency@,
                merchant_id: merchant_id@,
                customer_id: customer_id@,
            }),
    {
        TransactionCreatedEvent {
            event_id,
            event_type: String::from_str("TRANSACTION.CREATED"),
            timestamp,
            transaction_id,
            amount,
            currency,
            merchant_id,
            customer_id,
        }
    }

    /// Builds the event under a fresh event identifier, stamped with the
    /// current time.
    pub fn new(
        transaction_id: u128,
        amount: u64,
        currency: String,
        merchant_id: String,
        customer_id: String,
    ) -> (e: Self)
        ensures
            e@.event_type == transaction_created_tag(),
            e@.transaction_id == transaction_id,
            e@.amount == amount,
            e@.currency == currency@,
            e@.merchant_id == merchant_id@,
            e@.customer_id == customer_id@,
    {
        let event_id = fresh_uuid();
        let timestamp = now_seconds();
        Self::new_at(event_id, timestamp, transaction_id, amount, currency, merchant_id,
            customer_id)
    }
}

/// Fact: a settlement attempt finished and the transaction has a new
/// status.
#[derive(Debug, Clone)]
pub struct PaymentStatusUpdatedEvent {
    pub event_id: u128,
    pub event_type: String,
    pub timestamp: i64,
    pub transaction_id: u128,
    pub status: TransactionStatus,
    pub stripe_payment_id: String,
}

/// Mathematical image of a `PaymentStatusUpdatedEvent`.
pub ghost struct PaymentStatusUpdatedEventV {
    pub event_id: u128,
    pub event_type: Seq<char>,
    pub timestamp: i64,
    pub transaction_id: u128,
    pub status: TransactionStatusV,
    pub stripe_payment_id: Seq<char>,
}

impl View for PaymentStatusUpdatedEvent {
    type V = PaymentStatusUpdatedEventV;

    open spec fn view(&self) -> PaymentStatusUpdatedEventV {
        PaymentStatusUpdatedEventV {
            event_id: self.event_id,
            event_type: self.event_type@,
            timestamp: self.timestamp,
            transaction_id: self.transaction_id,
            status: self.status@,
            stripe_payment_id: self.stripe_payment_id@,
        }
    }
}

impl PaymentStatusUpdatedEvent {
    /// Builds the event with every field given.
    pub fn new_at(
        event_id: u128,
        timestamp: i64,
        transaction_id: u128,
        status: TransactionStatus,
        stripe_payment_id: String,
    ) -> (e: Self)
        ensures
            e@ == (PaymentStatusUpdatedEventV {
                event_id,
                event_type: status_updated_tag(),
                timestamp,
                transaction_id,
                status: status@,
                stripe_payment_id: stripe_payment_id@,
            }),
    {
        PaymentStatusUpdatedEvent {
            event_id,
            event_type: String::from_str("STATUS_UPDATED"),
            timestamp,
            transaction_id,
            status,
            stripe_payment_id,
        }
    }

    /// Builds the event under a fresh event identifier, stamped with the
    /// current time.
    pub fn new(transaction_id: u128, status: TransactionStatus, stripe_payment_id: String) -> (e:
        Self)
        ensures
            e@.event_type == status_updated_tag(),
            e@.transaction_id == transaction_id,
            e@.status == status@,
            e@.stripe_payment_id == stripe_payment_id@,
    {
        let event_id = fresh_uuid();
        let timestamp = now_seconds();
        Self::new_at(event_id, timestamp, transaction_id, status, stripe_payment_id)
    }
}

/// Fact: a caller asked for the status of a transaction over the bus
/// (reserved path; the core flow answers queries from the read model).
#[derive(Debug, Clone)]
pub struct PaymentStatusRequestEvent {
    pub event_id: u128,
    pub event_type: String,
    pub timestamp: i64,
    pub transaction_id: u128,
    pub reply_topic: String,
}

impl PaymentStatusRequestEvent {
    /// Builds the request under a fresh event identifier, stamped with
    /// the current time.
    pub fn new(transaction_id: u128) -> (e: Self)
        ensures
            e.event_type@ == status_request_tag(),
            e.transaction_id == transaction_id,
            e.reply_topic@ == status_reply_topic(),
    {
        PaymentStatusRequestEvent {
            event_id: fresh_uuid(),
            event_type: String::from_str("STATUS_REQUEST"),
            timestamp: now_seconds(),
            transaction_id,
            reply_topic: String::from_str("payment-status-response"),
        }
    }
}

} // verus!
