//! Core data model: transactions, their status, and command-side records.

use vstd::prelude::*;
use crate::clock::now_seconds;
use crate::ids::fresh_uuid;

verus! {

/// Settlement state of a transaction.
#[derive(Debug, Clone, PartialEq, Eq)]
pub enum TransactionStatus {
    Pending,
    Completed,
    Failed { reason: String },
    Refunded,
}

/// Mathematical image of a `TransactionStatus`.
pub ghost enum TransactionStatusV {
    Pending,
    Completed,
    Failed { reason: Seq<char> },
    Refunded,
}

impl View for TransactionStatus {
    type V = TransactionStatusV;

    open spec fn view(&self) -> TransactionStatusV {
        match self {
            TransactionStatus::Pending => TransactionStatusV::Pending,
            TransactionStatus::Completed => TransactionStatusV::Completed,
            TransactionStatus::Failed { reason } => TransactionStatusV::Failed {
                reason: reason@,
            },
            TransactionStatus::Refunded => TransactionStatusV::Refunded,
        }
    }
}

impl TransactionStatus {
    /// A deep copy whose image equals this one's.
    pub fn duplicate(&self) -> (r: Self)
        ensures
            r@ == self@,
    {
        match self {
            TransactionStatus::Pending => TransactionStatus::Pending,
            TransactionStatus::Completed => TransactionStatus::Completed,
            TransactionStatus::Failed { reason } => TransactionStatus::Failed {
                reason: reason.clone(),
            },
            TransactionStatus::Refunded => TransactionStatus::Refunded,
        }
    }
}

/// Currency code of a transaction, in minor units.
#[derive(Debug, Clone, Copy, PartialEq, Eq)]
pub enum Currency {
    USD,
    EURO,
    INR,
}

/// A payment transaction as the read side sees it.
#[derive(Debug, Clone)]
pub struct Transaction {
    pub id: u128,
    pub amount: i64,
    pub currency: Currency,
    pub status: TransactionStatus,
    pub created_at: i64,
    pub update_at: i64,
}

impl Default for Transaction {
    /// A fresh pending zero-amount transaction, stamped with the current
    /// time and a fresh identifier.
    fn default() -> (t: Self)
        ensures
            t.amount == 0,
            t.currency == Currency::USD,
            t.status is Pending,
            t.created_at == t.update_at,
    {
        let now = now_seconds();
        Transaction {
            id: fresh_uuid(),
            amount: 0,
            currency: Currency::USD,
            status: TransactionStatus::Pending,
            created_at: now,
            update_at: now,
        }
    }
}

/// Command-side request to take a payment.
pub struct PaymentCommand {
    pub customer_id: String,
    pub amount: i64,
    pub currency: Currency,
}

/// Kinds of facts the command pipeline can record.
#[derive(Debug, Clone, PartialEq, Eq)]
pub enum PaymentEventType {
    TransactionCreated,
    TransactionValidated,
    TransactionFailed,
}

/// A recorded fact about a transaction, with its free-form body.
pub struct PaymentEvent {
    pub transaction_id: u128,
    pub event_type: PaymentEventType,
    pub data: String,
    pub timestamp: i64,
}

} // verus!
