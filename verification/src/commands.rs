//! The command side: accepting transaction-creation requests.
//!
//! `handle_create_transaction` is the deterministic heart of the
//! command handler; it takes the fresh identifiers and the current time
//! as arguments, so its contract pins the response, the published
//! event, and the idempotency store's next state exactly.  The public
//! `create_transaction` draws those values and delegates, and
//! `handle_authorized_create_transaction` places the auth gate in
//! front, the way the HTTP route composes the two.

use vstd::prelude::*;
use crate::auth::{
    validate_spec, AuthenticationError, AuthenticationService, Claims,
};
use crate::auth_gate::{bearer_token_of, has_bearer_scheme};
use crate::clock::now_seconds;
use crate::events::{
    transaction_created_tag, TransactionCreatedEvent, TransactionCreatedEventV,
};
use crate::idempotency::{
    IdempotencyRecord, IdempotencyRecordV, IdempotencyStore, IDEMPOTENCY_TTL_SECONDS,
};
use crate::ids::fresh_uuid;
use crate::models::{TransactionStatus, TransactionStatusV};

verus! {

/// Body of a transaction-creation request.
#[derive(Debug, Clone)]
pub struct CreateTransactionRequest {
    pub amount: u64,
    pub currency: String,
    pub merchant_id: String,
    pub customer_id: String,
    pub idempotency_key: String,
}

/// Mathematical image of a `CreateTransactionRequest`.
pub ghost struct CreateTransactionRequestV {
    pub amount: u64,
    pub currency: Seq<char>,
    pub merchant_id: Seq<char>,
    pub customer_id: Seq<char>,
    pub idempotency_key: Seq<char>,
}

impl View for CreateTransactionRequest {
    type V = CreateTransactionRequestV;

    open spec fn view(&self) -> CreateTransactionRequestV {
        CreateTransactionRequestV {
            amount: self.amount,
            currency: self.currency@,
            merchant_id: self.merchant_id@,
            customer_id: self.customer_id@,
            idempotency_key: self.idempotency_key@,
        }
    }
}

/// Body of a transaction-creation response.
#[derive(Debug, Clone, PartialEq)]
pub struct CreateTransactionResponse {
    pub id: u128,
    pub status: TransactionStatus,
}

/// Mathematical image of a `CreateTransactionResponse`.
pub ghost struct CreateTransactionResponseV {
    pub id: u128,
    pub status: TransactionStatusV,
}

impl View for CreateTransactionResponse {
    type V = CreateTransactionResponseV;

    open spec fn view(&self) -> CreateTransactionResponseV {
        CreateTransactionResponseV { id: self.id, status: self.status@ }
    }
}

impl CreateTransactionResponse {
    /// A deep copy whose image equals this one's.
    pub fn duplicate(&self) -> (r: Self)
        ensures
            r@ == self@,
    {
        CreateTransactionResponse { id: self.id, status: self.status.duplicate() }
    }
}

/// Rejections of a command before any work is done.
#[derive(Debug, Clone, Copy, PartialEq, Eq, Structural)]
pub enum ValidationError {
    MissingIdempotencyKey,
}

/// Everything a guarded command route can answer instead of a
/// response.
#[derive(Debug, Clone, Copy, PartialEq, Eq, Structural)]
pub enum RequestError {
    Auth(AuthenticationError),
    Validation(ValidationError),
}

/// The event a freshly accepted command publishes.
pub open spec fn spec_created_event(
    req: CreateTransactionRequestV,
    transaction_id: u128,
    event_id: u128,
    now: i64,
) -> TransactionCreatedEventV {
    TransactionCreatedEventV {
        event_id,
        event_type: transaction_created_tag(),
        timestamp: now,
        transaction_id,
        amount: req.amount,
        currency: req.currency,
        merchant_id: req.merchant_id,
        customer_id: req.customer_id,
    }
}

/// The provisional response a freshly accepted command earns.
pub open spec fn fresh_response(transaction_id: u128) -> CreateTransactionResponseV {
    CreateTransactionResponseV { id: transaction_id, status: TransactionStatusV::Pending }
}

/// Whether `key` has a live (unexpired) cached response in `store` at
/// the moment `now`.
pub open spec fn cache_hit(
    store: Map<Seq<char>, IdempotencyRecordV>,
    key: Seq<char>,
    now: i64,
) -> bool {
    store.contains_key(key) && now < store[key].expires_at
}

/// A repeated command under the same key within its TTL is a cache
/// hit on exactly the stored response: once a fresh command has cached
/// its response at `now`, every later moment before `now` plus one TTL
/// reads that response back, so the second and all further calls of
/// `handle_create_transaction` return it verbatim and publish nothing.
pub proof fn lemma_repeat_within_ttl(
    store: Map<Seq<char>, IdempotencyRecordV>,
    key: Seq<char>,
    response: CreateTransactionResponseV,
    now: i64,
    later: i64,
)
    requires
        now <= later,
        later < now + IDEMPOTENCY_TTL_SECONDS,
        now + IDEMPOTENCY_TTL_SECONDS <= i64::MAX,
    ensures
        ({
            let stored = store.insert(
                key,
                (IdempotencyRecordV {
                    response,
                    expires_at: (now + IDEMPOTENCY_TTL_SECONDS) as i64,
                }),
            );
            cache_hit(stored, key, later) && stored[key].response == response
        }),
{
}

/// Accepts one command deterministically.  On a live cached key the
/// stored response comes back verbatim and nothing is published; on a
/// fresh key the command earns a pending response, exactly one
/// `TransactionCreatedEvent` carrying the same transaction id, and a
/// cache entry that lives one TTL from `now`.
pub fn handle_create_transaction(
    store: &mut IdempotencyStore,
    key: &String,
    request: &CreateTransactionRequest,
    transaction_id: u128,
    event_id: u128,
    now: i64,
) -> (r: (CreateTransactionResponse, Option<TransactionCreatedEvent>))
    requires
        old(store).wf(),
        now + IDEMPOTENCY_TTL_SECONDS <= i64::MAX,
    ensures
        final(store).wf(),
        cache_hit(old(store)@, key@, now) ==> ({
            &&& r.0@ == old(store)@[key@].response
            &&& r.1 is None
            &&& final(store)@ == old(store)@
        }),
        !cache_hit(old(store)@, key@, now) ==> ({
            &&& r.0@ == fresh_response(transaction_id)
            &&& r.1 matches Some(e) && e@ == spec_created_event(
                request@,
                transaction_id,
                event_id,
                now,
            )
            &&& final(store)@ == old(store)@.insert(
                key@,
                (IdempotencyRecordV {
                    response: fresh_response(transaction_id),
                    expires_at: (now + IDEMPOTENCY_TTL_SECONDS) as i64,
                }),
            )
        }),
{
    match store.get(key, now) {
        Some(cached) => {
            let response = cached.duplicate();
            (response, None)
        },
        None => {
            let response = CreateTransactionResponse {
                id: transaction_id,
                status: TransactionStatus::Pending,
            };
            let event = TransactionCreatedEvent::new_at(
                event_id,
                now,
                transaction_id,
                request.amount,
                request.currency.clone(),
                request.merchant_id.clone(),
                request.customer_id.clone(),
            );
            store.put(
                key.clone(),
                IdempotencyRecord {
                    response: response.duplicate(),
                    expires_at: now + IDEMPOTENCY_TTL_SECONDS,
                },
            );
            (response, Some(event))
        },
    }
}

/// Accepts one command as the HTTP route sees it: the idempotency key
/// is checked first, and a missing key rejects the request before the
/// store is consulted and before any event exists.  The fresh
/// identifiers and the clock reading are drawn here, so the contract
/// pins everything except their values.
pub fn create_transaction(
    store: &mut IdempotencyStore,
    idempotency_key: Option<&String>,
    request: &CreateTransactionRequest,
) -> (r: Result<(CreateTransactionResponse, Option<TransactionCreatedEvent>), ValidationError>)
    requires
        old(store).wf(),
    ensures
        final(store).wf(),
        idempotency_key is None ==> r == Err::<
            (CreateTransactionResponse, Option<TransactionCreatedEvent>),
            ValidationError,
        >(ValidationError::MissingIdempotencyKey) && final(store)@ == old(store)@,
        idempotency_key matches Some(k) ==> (r matches Ok(out) && ({
            ||| ({
                &&& out.1 is None
                &&& old(store)@.contains_key(k@)
                &&& out.0@ == old(store)@[k@].response
                &&& final(store)@ == old(store)@
            })
            ||| ({
                &&& out.1 matches Some(e)
                &&& e@.transaction_id == out.0@.id
                &&& e@.event_type == transaction_created_tag()
                &&& e@.amount == request@.amount
                &&& e@.currency == request@.currency
                &&& e@.merchant_id == request@.merchant_id
                &&& e@.customer_id == request@.customer_id
                &&& out.0@.status is Pending
                &&& exists|expires: i64|
                    final(store)@ == old(store)@.insert(
                        k@,
                        (IdempotencyRecordV { response: out.0@, expires_at: expires }),
                    )
            })
        })),
{
    let key = match idempotency_key {
        None => {
            return Err(ValidationError::MissingIdempotencyKey);
        },
        Some(k) => k,
    };
    let transaction_id = fresh_uuid();
    let event_id = fresh_uuid();
    let drawn = now_seconds();
    // A clock reading this close to the end of the representable range
    // has no expiry one TTL later; pin it just below the edge.
    let now = if drawn > i64::MAX - IDEMPOTENCY_TTL_SECONDS {
        i64::MAX - IDEMPOTENCY_TTL_SECONDS
    } else {
        drawn
    };
    let r = handle_create_transaction(store, key, request, transaction_id, event_id, now);
    proof {
        if !cache_hit(old(store)@, key@, now) {
            assert(final(store)@ == old(store)@.insert(
                key@,
                (IdempotencyRecordV {
                    response: r.0@,
                    expires_at: (now + IDEMPOTENCY_TTL_SECONDS) as i64,
                }),
            ));
        }
    }
    Ok(r)
}

/// Accepts one command behind the auth gate, deterministically.  A
/// request without a valid bearer token is turned away before the
/// command handler runs: the store is untouched and no event exists.
pub fn handle_authorized_create_transaction(
    service: &AuthenticationService,
    auth_header: Option<&String>,
    store: &mut IdempotencyStore,
    idempotency_key: Option<&String>,
    request: &CreateTransactionRequest,
    transaction_id: u128,
    event_id: u128,
    now: i64,
) -> (r: Result<(CreateTransactionResponse, Option<TransactionCreatedEvent>), RequestError>)
    requires
        old(store).wf(),
        now + IDEMPOTENCY_TTL_SECONDS <= i64::MAX,
    ensures
        final(store).wf(),
        auth_header is None ==> r == Err::<
            (CreateTransactionResponse, Option<TransactionCreatedEvent>),
            RequestError,
        >(RequestError::Auth(AuthenticationError::MissingToken)) && final(store)@ == old(
            store,
        )@,
        r matches Err(e) ==> final(store)@ == old(store)@,
        auth_header matches Some(h) && has_bearer_scheme(h@) && validate_spec(
            bearer_token_of(h@),
            service.spec_secret(),
            now,
        ) is Ok && idempotency_key is None ==> r == Err::<
            (CreateTransactionResponse, Option<TransactionCreatedEvent>),
            RequestError,
        >(RequestError::Validation(ValidationError::MissingIdempotencyKey)),
        auth_header matches Some(h) && has_bearer_scheme(h@) && validate_spec(
            bearer_token_of(h@),
            service.spec_secret(),
            now,
        ) is Ok && idempotency_key is Some ==> r is Ok,
        r matches Ok(out) ==> ({
            &&& auth_header matches Some(h) && has_bearer_scheme(h@) && validate_spec(
                bearer_token_of(h@),
                service.spec_secret(),
                now,
            ) is Ok
            &&& idempotency_key matches Some(k) && ({
                if cache_hit(old(store)@, k@, now) {
                    &&& out.0@ == old(store)@[k@].response
                    &&& out.1 is None
                    &&& final(store)@ == old(store)@
                } else {
                    &&& out.0@ == fresh_response(transaction_id)
                    &&& out.1 matches Some(e) && e@ == spec_created_event(
                        request@,
                        transaction_id,
                        event_id,
                        now,
                    )
                    &&& final(store)@ == old(store)@.insert(
                        k@,
                        (IdempotencyRecordV {
                            response: fresh_response(transaction_id),
                            expires_at: (now + IDEMPOTENCY_TTL_SECONDS) as i64,
                        }),
                    )
                }
            })
        }),
{
    let _claims: Claims = match crate::auth_gate::authorize_at(service, auth_header, now) {
        Ok(c) => c,
        Err(e) => {
            return Err(RequestError::Auth(e));
        },
    };
    let key = match idempotency_key {
        None => {
            return Err(RequestError::Validation(ValidationError::MissingIdempotencyKey));
        },
        Some(k) => k,
    };
    let out = handle_create_transaction(store, key, request, transaction_id, event_id, now);
    Ok(out)
}

} // verus!
