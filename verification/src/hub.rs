//! Where transactions are started.
use vstd::prelude::*;

use std::time::SystemTime;

use crate::context::TransactionContext;
use crate::record::{self, Client};
use crate::transaction::{self, Transaction};

verus! {

/// The place that a client is bound to.
#[derive(Debug)]
pub struct Hub {
    /// The client that is bound, if there is one.
    pub client: Option<Client>,
}

/// Start a new Performance Monitoring Transaction.
///
/// `active` is the hub that is active. Its client, if it has one, decides with `client_samples`
/// whether the transaction is sampled.
///
/// The transaction needs to be explicitly finished via [`Transaction::finish`],
/// otherwise it will be discarded.
/// The transaction itself also represents the root span in the span hierarchy.
/// Child spans can be started with the [`Transaction::start_child`] method.
pub fn start_transaction<D: Fn(&TransactionContext) -> bool>(
    active: &Hub,
    ctx: TransactionContext,
    client_samples: &D,
) -> (started: Transaction)
    requires
        active.client is Some ==> call_requires(*client_samples, (&ctx,)),
    ensures
        started@ == transaction::TransactionState::started(
            record::client_of(active.client),
            ctx@,
            started@.sampled,
            started@.start(),
        ),
        active.client is Some ==> call_ensures(*client_samples, (&ctx,), started@.sampled),
{
    active.start_transaction(ctx, client_samples)
}

/// Start a new Performance Monitoring Transaction with the provided start timestamp.
///
/// `active` is the hub that is active. Its client, if it has one, decides with `client_samples`
/// whether the transaction is sampled.
///
/// The transaction needs to be explicitly finished via [`Transaction::finish`],
/// otherwise it will be discarded.
/// The transaction itself also represents the root span in the span hierarchy.
/// Child spans can be started with the [`Transaction::start_child`] method.
pub fn start_transaction_with_timestamp<D: Fn(&TransactionContext) -> bool>(
    active: &Hub,
    ctx: TransactionContext,
    timestamp: SystemTime,
    client_samples: &D,
) -> (started: Transaction)
    requires
        active.client is Some ==> call_requires(*client_samples, (&ctx,)),
    ensures
        started@ == transaction::TransactionState::started(
            record::client_of(active.client),
            ctx@,
            started@.sampled,
            timestamp,
        ),
        active.client is Some ==> call_ensures(*client_samples, (&ctx,), started@.sampled),
{
    let mut started = start_transaction(active, ctx, client_samples);
    started.set_start_timestamp(timestamp);
    started
}

impl Hub {
    /// The client that is bound, if there is one.
    pub fn client(&self) -> (client: Option<Client>)
        ensures
            record::client_of(client) == record::client_of(self.client),
    {
        match &self.client {
            Some(client) => Some(client.clone()),
            None => None,
        }
    }

    /// Start a new Performance Monitoring Transaction.
    ///
    /// See the global [`start_transaction`] for more documentation.
    pub fn start_transaction<D: Fn(&TransactionContext) -> bool>(
        &self,
        ctx: TransactionContext,
        client_samples: &D,
    ) -> (started: Transaction)
        requires
            self.client is Some ==> call_requires(*client_samples, (&ctx,)),
        ensures
            started@ == transaction::TransactionState::started(
                record::client_of(self.client),
                ctx@,
                started@.sampled,
                started@.start(),
            ),
            self.client is Some ==> call_ensures(*client_samples, (&ctx,), started@.sampled),
    {
        match self.client() {
            Some(client) => {
                let sampled = client_samples(&ctx);
                Transaction::new(Some(client), ctx, sampled)
            },
            None => Transaction::new(None, ctx, false),
        }
    }

    /// Start a new Performance Monitoring Transaction with the provided start timestamp.
    ///
    /// It is sent through the client of the hub that is active, `active`, which also decides
    /// whether it is sampled.
    ///
    /// See the global [`start_transaction_with_timestamp`] for more documentation.
    pub fn start_transaction_with_timestamp<D: Fn(&TransactionContext) -> bool>(
        &self,
        active: &Hub,
        ctx: TransactionContext,
        timestamp: SystemTime,
        client_samples: &D,
    ) -> (started: Transaction)
        requires
            active.client is Some ==> call_requires(*client_samples, (&ctx,)),
        ensures
            started@ == transaction::TransactionState::started(
                record::client_of(active.client),
                ctx@,
                started@.sampled,
                timestamp,
            ),
            active.client is Some ==> call_ensures(*client_samples, (&ctx,), started@.sampled),
    {
        let mut started = start_transaction(active, ctx, client_samples);
        started.set_start_timestamp(timestamp);
        started
    }
}

} // verus!
