//! The fixed-width hexadecimal codec and the remaining model types.

use payme::events::{PaymentStatusRequestEvent, TransactionCreatedEvent};
use payme::hexcode::{hex16_encode, hex16_parse};
use payme::models::{Currency, Transaction, TransactionStatus};

#[test]
fn hex16_renders_exact_digits() {
    assert_eq!(hex16_encode(0), "0000000000000000");
    assert_eq!(hex16_encode(1), "0000000000000001");
    assert_eq!(hex16_encode(0xdead_beef), "00000000deadbeef");
    assert_eq!(hex16_encode(u64::MAX), "ffffffffffffffff");
}

#[test]
fn hex16_parses_back_what_it_rendered() {
    for v in [0u64, 1, 15, 16, 0xdead_beef, 86_400, u64::MAX] {
        let s = hex16_encode(v);
        assert_eq!(hex16_parse(&s, 0), Some(v));
    }
}

#[test]
fn hex16_parses_at_an_offset() {
    let s = format!("zz{}", hex16_encode(0xcafe));
    assert_eq!(hex16_parse(&s, 2), Some(0xcafe));
}

#[test]
fn hex16_rejects_non_digits() {
    assert_eq!(hex16_parse("000000000000000g", 0), None);
    assert_eq!(hex16_parse("zzzzzzzzzzzzzzzz", 0), None);
}

#[test]
fn created_events_carry_the_envelope_and_the_command_fields() {
    let e = TransactionCreatedEvent::new(
        42,
        1000,
        "USD".to_string(),
        "m1".to_string(),
        "c1".to_string(),
    );
    assert_eq!(e.event_type, "TRANSACTION.CREATED");
    assert_eq!(e.transaction_id, 42);
    assert_eq!(e.amount, 1000);
    assert_eq!(e.currency, "USD");
    assert_eq!(e.merchant_id, "m1");
    assert_eq!(e.customer_id, "c1");
}

#[test]
fn status_request_events_name_their_reply_topic() {
    let e = PaymentStatusRequestEvent::new(42);
    assert_eq!(e.event_type, "STATUS_REQUEST");
    assert_eq!(e.transaction_id, 42);
    assert_eq!(e.reply_topic, "payment-status-response");
}

#[test]
fn default_transaction_is_a_fresh_pending_zero() {
    let t = Transaction::default();
    assert_eq!(t.amount, 0);
    assert!(matches!(t.currency, Currency::USD));
    assert_eq!(t.status, TransactionStatus::Pending);
    assert_eq!(t.created_at, t.update_at);
}
