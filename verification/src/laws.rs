use vstd::prelude::*;

use crate::errors::ConditionalError;
use crate::guard::{
    initialize_outcome, send_outcome, transfer_outcome, update_addresses_outcome,
    update_threshold_outcome, Initialize, SendIfOverThreshold, Update,
};
use crate::identity::Pubkey;
use crate::state::{Config, ConfigStore};

verus! {

/// An amount below the stored threshold is always rejected with
/// `BelowThreshold`, whatever the balances are: no value moves, and the
/// operation never touches the record in the first place.
pub proof fn lemma_below_threshold_rejected(
    store: ConfigStore,
    cfg: Config,
    ctx: SendIfOverThreshold,
    lamports: u64,
    from_balance: u64,
    to_balance: u64,
)
    requires
        store.spec_load() == Ok::<Config, ConditionalError>(cfg),
        ctx.from == cfg.from,
        lamports < cfg.threshold_lamports,
    ensures
        send_outcome(store, ctx, lamports, from_balance, to_balance) == Err::<
            (u64, u64),
            ConditionalError,
        >(ConditionalError::BelowThreshold),
{
}

/// An authorized request for at least the threshold, against a source
/// balance that covers it and a destination balance the credit still fits
/// in, succeeds and moves exactly the requested amount: the source is
/// debited by it and the destination credited by it, nothing else.
pub proof fn lemma_sufficient_amount_moves_exactly(
    store: ConfigStore,
    cfg: Config,
    ctx: SendIfOverThreshold,
    lamports: u64,
    from_balance: u64,
    to_balance: u64,
)
    requires
        store.spec_load() == Ok::<Config, ConditionalError>(cfg),
        ctx.from == cfg.from,
        ctx.to == cfg.to,
        lamports >= cfg.threshold_lamports,
        lamports <= from_balance,
        to_balance + lamports <= u64::MAX,
    ensures
        send_outcome(store, ctx, lamports, from_balance, to_balance) == Ok::<
            (u64, u64),
            ConditionalError,
        >(((from_balance - lamports) as u64, (to_balance + lamports) as u64)),
{
}

/// A caller whose identity is not the stored `from` is rejected with
/// `Unauthorized`, regardless of the amount and of every balance.
pub proof fn lemma_wrong_source_unauthorized(
    store: ConfigStore,
    cfg: Config,
    ctx: SendIfOverThreshold,
    lamports: u64,
    from_balance: u64,
    to_balance: u64,
)
    requires
        store.spec_load() == Ok::<Config, ConditionalError>(cfg),
        ctx.from != cfg.from,
    ensures
        send_outcome(store, ctx, lamports, from_balance, to_balance) == Err::<
            (u64, u64),
            ConditionalError,
        >(ConditionalError::Unauthorized),
{
}

/// A request whose named recipient is not the stored `to` is rejected with
/// `Unauthorized` even when the source signed it and the amount reaches the
/// threshold: funds cannot be redirected to a caller-chosen account.
pub proof fn lemma_wrong_recipient_unauthorized(
    store: ConfigStore,
    cfg: Config,
    ctx: SendIfOverThreshold,
    lamports: u64,
    from_balance: u64,
    to_balance: u64,
)
    requires
        store.spec_load() == Ok::<Config, ConditionalError>(cfg),
        ctx.from == cfg.from,
        ctx.to != cfg.to,
        lamports >= cfg.threshold_lamports,
    ensures
        send_outcome(store, ctx, lamports, from_balance, to_balance) == Err::<
            (u64, u64),
            ConditionalError,
        >(ConditionalError::Unauthorized),
{
}

/// A caller whose identity is not the stored `authority` can change
/// nothing: both update operations fail with `Unauthorized` and leave the
/// record exactly as it was.
pub proof fn lemma_update_requires_authority(
    store: ConfigStore,
    cfg: Config,
    ctx: Update,
    new_threshold_lamports: u64,
    new_from: Pubkey,
    new_to: Pubkey,
)
    requires
        store.spec_load() == Ok::<Config, ConditionalError>(cfg),
        ctx.authority != cfg.authority,
    ensures
        update_threshold_outcome(store, ctx, new_threshold_lamports) == (
            store,
            Err::<Config, ConditionalError>(ConditionalError::Unauthorized),
        ),
        update_addresses_outcome(store, ctx, new_from, new_to) == (
            store,
            Err::<Config, ConditionalError>(ConditionalError::Unauthorized),
        ),
{
}

/// Creation is not idempotent: once any record exists in the slot, a second
/// `initialize` fails with `AlreadyExists` and leaves the first record
/// untouched, whatever the second caller supplies.
pub proof fn lemma_initialize_is_single_shot(
    store: ConfigStore,
    ctx: Initialize,
    from: Pubkey,
    to: Pubkey,
    threshold_lamports: u64,
)
    requires
        store.record is Some,
    ensures
        initialize_outcome(store, ctx, from, to, threshold_lamports) == (
            store,
            Err::<Config, ConditionalError>(ConditionalError::AlreadyExists),
        ),
{
}

/// The threshold comparison is inclusive: a request for exactly the stored
/// threshold succeeds (balances permitting), while one unit less is
/// rejected with `BelowThreshold`.
pub proof fn lemma_threshold_boundary_inclusive(
    store: ConfigStore,
    cfg: Config,
    ctx: SendIfOverThreshold,
    from_balance: u64,
    to_balance: u64,
)
    requires
        store.spec_load() == Ok::<Config, ConditionalError>(cfg),
        ctx.from == cfg.from,
        ctx.to == cfg.to,
        cfg.threshold_lamports <= from_balance,
        to_balance + cfg.threshold_lamports <= u64::MAX,
    ensures
        send_outcome(store, ctx, cfg.threshold_lamports, from_balance, to_balance)
            == transfer_outcome(from_balance, to_balance, cfg.threshold_lamports),
        send_outcome(store, ctx, cfg.threshold_lamports, from_balance, to_balance) is Ok,
        cfg.threshold_lamports > 0 ==> send_outcome(
            store,
            ctx,
            (cfg.threshold_lamports - 1) as u64,
            from_balance,
            to_balance,
        ) == Err::<(u64, u64), ConditionalError>(ConditionalError::BelowThreshold),
{
}

/// Transfers are judged against the record as currently stored: after the
/// authority replaces the source/destination pair, a request co-signed by
/// the old source is rejected with `Unauthorized`, while one co-signed by
/// the new source and naming the new destination succeeds under the
/// unchanged threshold (balances permitting).
pub proof fn lemma_new_pair_governs_transfers(
    store: ConfigStore,
    cfg: Config,
    ctx: Update,
    new_from: Pubkey,
    new_to: Pubkey,
    lamports: u64,
    from_balance: u64,
    to_balance: u64,
)
    requires
        store.spec_load() == Ok::<Config, ConditionalError>(cfg),
        ctx.authority == cfg.authority,
        new_from != cfg.from,
        lamports >= cfg.threshold_lamports,
        lamports <= from_balance,
        to_balance + lamports <= u64::MAX,
    ensures
        ({
            let (updated_store, r) = update_addresses_outcome(store, ctx, new_from, new_to);
            &&& r is Ok
            &&& send_outcome(
                updated_store,
                (SendIfOverThreshold { from: cfg.from, to: new_to }),
                lamports,
                from_balance,
                to_balance,
            ) == Err::<(u64, u64), ConditionalError>(ConditionalError::Unauthorized)
            &&& send_outcome(
                updated_store,
                (SendIfOverThreshold { from: new_from, to: new_to }),
                lamports,
                from_balance,
                to_balance,
            ) == Ok::<(u64, u64), ConditionalError>(
                ((from_balance - lamports) as u64, (to_balance + lamports) as u64),
            )
        }),
{
}

} // verus!
