//! Event-driven payment processing: idempotent command ingestion, a
//! token service in front of it, asynchronous settlement, and an
//! eventually consistent status projection.
//!
//! The command side accepts transaction-creation requests, deduplicates
//! them by a client-supplied idempotency key, and records each accepted
//! command as a `TransactionCreatedEvent`.  The settlement worker turns
//! each gateway outcome into a `PaymentStatusUpdatedEvent`, and the
//! status projection merges those events, delivered at least once and
//! in no guaranteed order, into the read model the query side answers
//! from.  The broker, the HTTP server, and the payment gateway's own
//! client live outside this crate; every decision between them is
//! specified and verified here.

pub mod assoc;
pub mod auth;
pub mod auth_gate;
mod clock;
pub mod commands;
pub mod events;
pub mod hexcode;
pub mod idempotency;
mod ids;
pub mod models;
pub mod queries;
pub mod read_model;
pub mod settlement;
