//! Ingestion core for a live chat feed: every upstream event is filtered and
//! normalised into a [`Question`], each question becomes one idempotent upsert
//! keyed by the message identifier, and a two-state driver decides what the
//! hosting task does next.
//!
//! The crate holds the decisions only. Receiving events and talking to the
//! document store are left to the program that embeds it.

pub mod driver;
pub mod event;
pub mod question;
pub mod run;
pub mod sink;
pub mod timestamp;

pub use driver::{report, Action, Driver, DriverState, Input, LogEntry};
pub use event::RawEvent;
pub use question::{chat_question, get_question, Question};
pub use sink::{upsert_request, PersistError, PersistResult, UpsertRequest, COLLECTION};
pub use timestamp::Timestamp;
