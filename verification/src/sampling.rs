//! How it is decided whether a transaction is sampled.
use vstd::prelude::*;

use crate::context::TransactionContext;

verus! {

/// Functional implementation of how a new transaction's sample rate is chosen.
///
/// `always` and `never` are the rates at which everything and nothing is sampled.
pub fn transaction_sample_rate<R, S: Fn(&TransactionContext) -> R>(
    traces_sampler: Option<&S>,
    ctx: &TransactionContext,
    traces_sample_rate: R,
    always: R,
    never: R,
) -> (rate: R)
    requires
        traces_sampler matches Some(sampler) ==> call_requires(*sampler, (ctx,)),
    ensures
        match traces_sampler {
            Some(sampler) => call_ensures(*sampler, (ctx,), rate),
            None => rate == (match ctx@.sampled {
                Some(true) => always,
                Some(false) => never,
                None => traces_sample_rate,
            }),
        },
{
    match traces_sampler {
        Some(traces_sampler) => traces_sampler(ctx),
        None => match ctx.sampled {
            Some(sampled) => if sampled {
                always
            } else {
                never
            },
            None => traces_sample_rate,
        },
    }
}

/// Determine whether the new transaction should be sampled: `sample_should_send` decides on the
/// sample rate that was chosen for it.
pub fn is_transaction_sampled<R, S: Fn(&TransactionContext) -> R, D: Fn(R) -> bool>(
    traces_sampler: Option<&S>,
    ctx: &TransactionContext,
    traces_sample_rate: R,
    always: R,
    never: R,
    sample_should_send: &D,
) -> (sampled: bool)
    requires
        traces_sampler matches Some(sampler) ==> call_requires(*sampler, (ctx,)),
        forall|rate: R| #[trigger] call_requires(*sample_should_send, (rate,)),
    ensures
        match traces_sampler {
            Some(sampler) => exists|rate: R| #[trigger]
                call_ensures(*sampler, (ctx,), rate) && call_ensures(
                    *sample_should_send,
                    (rate,),
                    sampled,
                ),
            None => call_ensures(
                *sample_should_send,
                (match ctx@.sampled {
                    Some(true) => always,
                    Some(false) => never,
                    None => traces_sample_rate,
                },),
                sampled,
            ),
        },
{
    let rate = transaction_sample_rate(traces_sampler, ctx, traces_sample_rate, always, never);
    sample_should_send(rate)
}

} // verus!
