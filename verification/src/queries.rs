//! The query side: reading a transaction's current status.
//!
//! The query handler owns the projected read model and answers from it
//! alone.  A transaction the projection has not seen yet reads as
//! `Pending` with no gateway reference: "not yet projected" is an
//! observable state, not an error.

use vstd::prelude::*;
use crate::events::PaymentStatusUpdatedEvent;
use crate::models::{TransactionStatus, TransactionStatusV};
use crate::read_model::{apply_update_spec, ReadModelStore, StatusRecordV};

verus! {

/// Body of a status query response.
#[derive(Debug, Clone)]
pub struct StatusResponse {
    pub transaction_id: u128,
    pub status: TransactionStatus,
    pub gateway_ref: String,
}

/// Mathematical image of a `StatusResponse`.
pub ghost struct StatusResponseV {
    pub transaction_id: u128,
    pub status: TransactionStatusV,
    pub gateway_ref: Seq<char>,
}

impl View for StatusResponse {
    type V = StatusResponseV;

    open spec fn view(&self) -> StatusResponseV {
        StatusResponseV {
            transaction_id: self.transaction_id,
            status: self.status@,
            gateway_ref: self.gateway_ref@,
        }
    }
}

/// The read side: the projected model and the lookups against it.
pub struct Query {
    pub read_model: ReadModelStore,
}

impl Query {
    /// The model must be well formed.
    pub open spec fn wf(&self) -> bool {
        self.read_model.wf()
    }

    /// A query handler over an empty projection.
    pub fn new() -> (q: Self)
        ensures
            q.wf(),
            q.read_model@ == Map::<u128, StatusRecordV>::empty(),
    {
        Query { read_model: ReadModelStore::new() }
    }

    /// Merges one delivered status event into the projection.
    pub fn apply_status_update(&mut self, event: &PaymentStatusUpdatedEvent)
        requires
            old(self).wf(),
        ensures
            final(self).wf(),
            final(self).read_model@ == apply_update_spec(old(self).read_model@, event@),
    {
        self.read_model.apply_status_update(event);
    }

    /// The current status of `transaction_id`: the projected record if
    /// one exists, and `Pending` with an empty gateway reference
    /// otherwise.
    pub fn get_payment_status(&self, transaction_id: u128) -> (r: StatusResponse)
        requires
            self.wf(),
        ensures
            r.transaction_id == transaction_id,
            self.read_model@.contains_key(transaction_id) ==> r@.status
                == self.read_model@[transaction_id].status && r@.gateway_ref
                == self.read_model@[transaction_id].stripe_payment_id,
            !self.read_model@.contains_key(transaction_id) ==> r@.status
                == TransactionStatusV::Pending && r@.gateway_ref == Seq::<char>::empty(),
    {
        match self.read_model.get(transaction_id) {
            Some(record) => StatusResponse {
                transaction_id,
                status: record.status.duplicate(),
                gateway_ref: record.stripe_payment_id.clone(),
            },
            None => StatusResponse {
                transaction_id,
                status: TransactionStatus::Pending,
                gateway_ref: String::new(),
            },
        }
    }
}

} // verus!
