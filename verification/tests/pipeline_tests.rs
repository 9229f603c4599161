//! Settlement and projection: end-to-end outcomes and the monotonic
//! merge.

use payme::commands::{handle_create_transaction, CreateTransactionRequest};
use payme::events::PaymentStatusUpdatedEvent;
use payme::idempotency::IdempotencyStore;
use payme::models::TransactionStatus;
use payme::queries::Query;
use payme::settlement::{settlement_event_at, StripeService};

fn sample_request() -> CreateTransactionRequest {
    CreateTransactionRequest {
        amount: 1000,
        currency: "USD".to_string(),
        merchant_id: "m1".to_string(),
        customer_id: "c1".to_string(),
        idempotency_key: "k1".to_string(),
    }
}

#[test]
fn gateway_success_ends_in_a_completed_status() {
    let mut store = IdempotencyStore::new();
    let key = "k1".to_string();
    let request = sample_request();

    let (response, event) =
        handle_create_transaction(&mut store, &key, &request, 42, 7, 1_000);
    assert_eq!(response.status, TransactionStatus::Pending);
    let created = event.unwrap();

    let status_event =
        settlement_event_at(&created, Ok("pi_123".to_string()), 8, 1_005);
    assert_eq!(status_event.transaction_id, 42);
    assert_eq!(status_event.event_type, "STATUS_UPDATED");

    let mut query = Query::new();
    query.apply_status_update(&status_event);
    let answer = query.get_payment_status(42);
    assert_eq!(answer.status, TransactionStatus::Completed);
    assert_eq!(answer.gateway_ref, "pi_123");
}

#[test]
fn gateway_failure_ends_in_a_failed_status_with_the_reason() {
    let mut store = IdempotencyStore::new();
    let key = "k1".to_string();
    let request = sample_request();

    let (response, event) =
        handle_create_transaction(&mut store, &key, &request, 42, 7, 1_000);
    assert_eq!(response.status, TransactionStatus::Pending);
    let created = event.unwrap();

    let status_event =
        settlement_event_at(&created, Err("card_declined".to_string()), 8, 1_005);

    let mut query = Query::new();
    query.apply_status_update(&status_event);
    let answer = query.get_payment_status(42);
    assert_eq!(
        answer.status,
        TransactionStatus::Failed { reason: "card_declined".to_string() }
    );
    assert_eq!(answer.gateway_ref, "");
}

#[test]
fn stale_redelivery_does_not_regress_the_read_model() {
    let completed = PaymentStatusUpdatedEvent::new_at(
        8,
        1_005,
        42,
        TransactionStatus::Completed,
        "pi_123".to_string(),
    );
    let stale_pending = PaymentStatusUpdatedEvent::new_at(
        6,
        900,
        42,
        TransactionStatus::Pending,
        String::new(),
    );

    let mut query = Query::new();
    query.apply_status_update(&completed);
    query.apply_status_update(&stale_pending);

    let answer = query.get_payment_status(42);
    assert_eq!(answer.status, TransactionStatus::Completed);
    assert_eq!(answer.gateway_ref, "pi_123");
}

#[test]
fn redelivering_the_same_event_is_a_no_op() {
    let completed = PaymentStatusUpdatedEvent::new_at(
        8,
        1_005,
        42,
        TransactionStatus::Completed,
        "pi_123".to_string(),
    );

    let mut query = Query::new();
    query.apply_status_update(&completed);
    query.apply_status_update(&completed);
    query.apply_status_update(&completed);

    let answer = query.get_payment_status(42);
    assert_eq!(answer.status, TransactionStatus::Completed);
    assert_eq!(answer.gateway_ref, "pi_123");
}

#[test]
fn a_newer_update_overwrites_an_older_one() {
    let pending = PaymentStatusUpdatedEvent::new_at(6, 900, 42, TransactionStatus::Pending,
        String::new());
    let completed = PaymentStatusUpdatedEvent::new_at(
        8,
        1_005,
        42,
        TransactionStatus::Completed,
        "pi_123".to_string(),
    );

    let mut query = Query::new();
    query.apply_status_update(&pending);
    query.apply_status_update(&completed);

    let answer = query.get_payment_status(42);
    assert_eq!(answer.status, TransactionStatus::Completed);
}

#[test]
fn an_unprojected_transaction_reads_as_pending() {
    let query = Query::new();
    let answer = query.get_payment_status(12345);
    assert_eq!(answer.transaction_id, 12345);
    assert_eq!(answer.status, TransactionStatus::Pending);
    assert_eq!(answer.gateway_ref, "");
}

#[test]
fn updates_to_different_transactions_do_not_interfere() {
    let first = PaymentStatusUpdatedEvent::new_at(
        8,
        1_005,
        42,
        TransactionStatus::Completed,
        "pi_123".to_string(),
    );
    let second = PaymentStatusUpdatedEvent::new_at(
        9,
        1_006,
        43,
        TransactionStatus::Failed { reason: "card_declined".to_string() },
        String::new(),
    );

    let mut query = Query::new();
    query.apply_status_update(&first);
    query.apply_status_update(&second);

    assert_eq!(query.get_payment_status(42).status, TransactionStatus::Completed);
    assert_eq!(
        query.get_payment_status(43).status,
        TransactionStatus::Failed { reason: "card_declined".to_string() }
    );
}

#[test]
fn the_gateway_service_keeps_its_credential() {
    // The constructor is the verified half of the gateway client; the
    // call itself is I/O and lives outside the library.
    let _service = StripeService::new("sk_test_123");
}
