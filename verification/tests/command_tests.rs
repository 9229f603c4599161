//! The command handler: acceptance, idempotency, and validation.

use payme::commands::{
    create_transaction, handle_authorized_create_transaction, handle_create_transaction,
    CreateTransactionRequest, RequestError, ValidationError,
};
use payme::auth::{AuthenticationError, AuthenticationService};
use payme::commands::CreateTransactionResponse;
use payme::idempotency::{IdempotencyRecord, IdempotencyStore};
use payme::models::TransactionStatus;

fn sample_request(key: &str) -> CreateTransactionRequest {
    CreateTransactionRequest {
        amount: 1000,
        currency: "USD".to_string(),
        merchant_id: "merch_123".to_string(),
        customer_id: "cust_123".to_string(),
        idempotency_key: key.to_string(),
    }
}

#[test]
fn test_create_transaction_success() {
    let mut store = IdempotencyStore::new();
    let key = "test_key_1".to_string();
    let request = sample_request("test_key_1");

    let (response, event) = create_transaction(&mut store, Some(&key), &request)
        .expect("a keyed command is accepted");

    assert!(response.id.to_string().len() > 0);
    assert_eq!(response.status, TransactionStatus::Pending);
    let event = event.expect("a fresh key publishes an event");
    assert_eq!(event.transaction_id, response.id);
}

#[test]
fn test_create_transaction_idempotency() {
    let mut store = IdempotencyStore::new();
    let key = "test_key_2".to_string();
    let request = sample_request("test_key_2");

    let (body1, _) = create_transaction(&mut store, Some(&key), &request).unwrap();
    let (body2, _) = create_transaction(&mut store, Some(&key), &request).unwrap();

    assert_eq!(body1.id, body2.id);
}

#[test]
fn test_create_transaction_missing_idempotency() {
    let mut store = IdempotencyStore::new();
    let request = sample_request("");

    let result = create_transaction(&mut store, None, &request);

    assert_eq!(result.unwrap_err(), ValidationError::MissingIdempotencyKey);
}

#[test]
fn fresh_key_publishes_exactly_one_matching_event() {
    let mut store = IdempotencyStore::new();
    let key = "k-fresh".to_string();
    let request = sample_request("k-fresh");

    let (response, event) =
        handle_create_transaction(&mut store, &key, &request, 42, 7, 1_000);

    assert_eq!(response.id, 42);
    assert_eq!(response.status, TransactionStatus::Pending);
    let event = event.expect("the first acceptance publishes");
    assert_eq!(event.event_id, 7);
    assert_eq!(event.transaction_id, 42);
    assert_eq!(event.event_type, "TRANSACTION.CREATED");
    assert_eq!(event.timestamp, 1_000);
    assert_eq!(event.amount, 1000);
    assert_eq!(event.currency, "USD");
    assert_eq!(event.merchant_id, "merch_123");
    assert_eq!(event.customer_id, "cust_123");
}

#[test]
fn repeated_key_returns_first_response_and_publishes_nothing() {
    let mut store = IdempotencyStore::new();
    let key = "k-repeat".to_string();
    let request = sample_request("k-repeat");

    let (first, _) = handle_create_transaction(&mut store, &key, &request, 42, 7, 1_000);
    let (second, event2) =
        handle_create_transaction(&mut store, &key, &request, 43, 8, 2_000);
    let (third, event3) =
        handle_create_transaction(&mut store, &key, &request, 44, 9, 1_000 + 86_399);

    assert_eq!(second, first);
    assert!(event2.is_none());
    assert_eq!(third, first);
    assert!(event3.is_none());
}

#[test]
fn expired_key_is_accepted_afresh() {
    let mut store = IdempotencyStore::new();
    let key = "k-expiry".to_string();
    let request = sample_request("k-expiry");

    let (first, _) = handle_create_transaction(&mut store, &key, &request, 42, 7, 1_000);
    // One second before the expiry the cache still answers ...
    let (hit, hit_event) =
        handle_create_transaction(&mut store, &key, &request, 43, 8, 1_000 + 86_399);
    assert_eq!(hit, first);
    assert!(hit_event.is_none());
    // ... and at the expiry the command counts as new again.
    let (fresh, fresh_event) =
        handle_create_transaction(&mut store, &key, &request, 44, 9, 1_000 + 86_400);
    assert_eq!(fresh.id, 44);
    assert!(fresh_event.is_some());
}

#[test]
fn the_store_honours_expiry_and_replacement() {
    let mut store = IdempotencyStore::new();
    let key = "k-store".to_string();
    assert!(store.get(&key, 0).is_none());

    let cached = CreateTransactionResponse { id: 1, status: TransactionStatus::Pending };
    store.put(key.clone(), IdempotencyRecord { response: cached, expires_at: 100 });
    assert_eq!(store.get(&key, 99).unwrap().id, 1);
    assert!(store.get(&key, 100).is_none());

    let replaced =
        CreateTransactionResponse { id: 2, status: TransactionStatus::Completed };
    store.put(key.clone(), IdempotencyRecord { response: replaced, expires_at: 200 });
    assert_eq!(store.get(&key, 150).unwrap().id, 2);
}

#[test]
fn unauthorized_request_never_reaches_the_handler() {
    let service = AuthenticationService::new(b"gate-secret".to_vec());
    let mut store = IdempotencyStore::new();
    let key = "k-auth".to_string();
    let request = sample_request("k-auth");

    let denied = handle_authorized_create_transaction(
        &service, None, &mut store, Some(&key), &request, 42, 7, 1_000,
    );
    assert_eq!(
        denied.unwrap_err(),
        RequestError::Auth(AuthenticationError::MissingToken)
    );

    // The store was left untouched: the same key is still fresh.
    let (response, event) =
        handle_create_transaction(&mut store, &key, &request, 42, 7, 1_000);
    assert_eq!(response.id, 42);
    assert!(event.is_some());
}

#[test]
fn wrong_scheme_is_rejected_and_valid_bearer_is_accepted() {
    let service = AuthenticationService::new(b"gate-secret".to_vec());
    let mut store = IdempotencyStore::new();
    let key = "k-bearer".to_string();
    let request = sample_request("k-bearer");

    let basic = "Basic dXNlcjpwdw==".to_string();
    let denied = handle_authorized_create_transaction(
        &service, Some(&basic), &mut store, Some(&key), &request, 42, 7, 1_000,
    );
    assert_eq!(
        denied.unwrap_err(),
        RequestError::Auth(AuthenticationError::InvalidToken)
    );

    let token = service
        .create_token_at("user123".to_string(), "admin".to_string(), 1_000)
        .unwrap();
    let header = format!("Bearer {token}");
    let (response, event) = handle_authorized_create_transaction(
        &service, Some(&header), &mut store, Some(&key), &request, 42, 7, 1_000,
    )
    .expect("a valid bearer token is accepted");
    assert_eq!(response.status, TransactionStatus::Pending);
    assert_eq!(event.unwrap().transaction_id, 42);
}

#[test]
fn missing_key_behind_the_gate_is_a_validation_error() {
    let service = AuthenticationService::new(b"gate-secret".to_vec());
    let mut store = IdempotencyStore::new();
    let request = sample_request("");

    let token = service
        .create_token_at("user123".to_string(), "admin".to_string(), 1_000)
        .unwrap();
    let header = format!("Bearer {token}");
    let denied = handle_authorized_create_transaction(
        &service, Some(&header), &mut store, None, &request, 42, 7, 1_000,
    );
    assert_eq!(
        denied.unwrap_err(),
        RequestError::Validation(ValidationError::MissingIdempotencyKey)
    );
}
