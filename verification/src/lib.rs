//! Performance monitoring: transactions, spans and the distributed trace that connects them.
//!
//! A transaction is started from a [`TransactionContext`](context::TransactionContext), which
//! either starts a trace of its own or goes on with one that came in through a header. Spans are
//! started below transactions and spans, and join their transaction when they finish. When the
//! transaction finishes in its turn, it is handed out, with its spans, to be sent.
//!
//! Transactions and spans are plain values here. Where several owners share one, the value stands
//! behind a lock, and a span is handed the transaction in which it was started.
pub mod context;
pub mod hub;
pub mod ids;
pub mod json;
pub mod laws;
pub mod operations;
pub mod record;
pub mod sampling;
pub mod span;
pub mod string_map;
pub mod text;
pub mod trace;
pub mod transaction;
pub mod transaction_or_span;
