use vstd::prelude::*;

use crate::errors::ConditionalError;
use crate::identity::Pubkey;
use crate::state::{Config, ConfigStore};

verus! {

/// Request context for [`initialize`]: the co-signing caller who pays for
/// the new record and becomes its `authority`.
#[derive(Clone, Copy, PartialEq, Eq, Structural, Debug)]
pub struct Initialize {
    /// The caller's proved identity.
    pub authority: Pubkey,
}

/// Request context for [`send_if_over_threshold`]: the co-signing caller
/// claiming to be the stored `from`, and the nominal recipient account the
/// request names. The recipient does not co-sign.
#[derive(Clone, Copy, PartialEq, Eq, Structural, Debug)]
pub struct SendIfOverThreshold {
    /// The caller's proved identity; must equal the stored `from`.
    pub from: Pubkey,
    /// The recipient the request names; must equal the stored `to`.
    pub to: Pubkey,
}

/// Request context for [`update_threshold`] and [`update_addresses`]: the
/// co-signing caller claiming to be the stored `authority`.
#[derive(Clone, Copy, PartialEq, Eq, Structural, Debug)]
pub struct Update {
    /// The caller's proved identity.
    pub authority: Pubkey,
}

/// What the value-movement primitive does with a debit of `lamports` against
/// `from_balance` and a matching credit to `to_balance`: both move or
/// neither does, and a source balance below the amount, or a credit that
/// would not fit in 64 bits, rejects the whole request.
pub open spec fn transfer_outcome(from_balance: u64, to_balance: u64, lamports: u64) -> Result<
    (u64, u64),
    ConditionalError,
> {
    if lamports > from_balance || to_balance + lamports > u64::MAX {
        Err(ConditionalError::TransferFailed)
    } else {
        Ok(((from_balance - lamports) as u64, (to_balance + lamports) as u64))
    }
}

/// The value-movement primitive over plain balances: debits the source and
/// credits the destination atomically, or fails with `TransferFailed` and
/// moves nothing.
pub fn transfer(from_balance: u64, to_balance: u64, lamports: u64) -> (r: Result<
    (u64, u64),
    ConditionalError,
>)
    ensures
        r == transfer_outcome(from_balance, to_balance, lamports),
        r matches Ok(b) ==> b.0 + lamports == from_balance && b.1 == to_balance + lamports,
{
    if lamports > from_balance {
        return Err(ConditionalError::TransferFailed);
    }
    match to_balance.checked_add(lamports) {
        None => Err(ConditionalError::TransferFailed),
        Some(credited) => Ok((from_balance - lamports, credited)),
    }
}

/// What [`initialize`] does to the slot and returns: a fresh record carrying
/// the caller as `authority`, the supplied `from`, `to` and threshold, and
/// the namespace's canonical tag — unless a record already exists, which
/// fails with `AlreadyExists` and leaves the slot untouched.
pub open spec fn initialize_outcome(
    store: ConfigStore,
    ctx: Initialize,
    from: Pubkey,
    to: Pubkey,
    threshold_lamports: u64,
) -> (ConfigStore, Result<Config, ConditionalError>) {
    match store.record {
        Some(_) => (store, Err(ConditionalError::AlreadyExists)),
        None => {
            let cfg = Config {
                authority: ctx.authority,
                from,
                to,
                threshold_lamports,
                bump: store.canonical_tag,
            };
            (ConfigStore { canonical_tag: store.canonical_tag, record: Some(cfg) }, Ok(cfg))
        },
    }
}

/// Creates the one configuration record of the namespace. The caller
/// becomes `authority`; `from`, `to` and the threshold are stored as given;
/// no funds move. A second call on the same namespace fails with
/// `AlreadyExists` and leaves the first record untouched.
///
/// No participant may be named by the zero identity, so the stored record
/// starts well-formed.
pub fn initialize(
    store: &mut ConfigStore,
    ctx: &Initialize,
    from: Pubkey,
    to: Pubkey,
    threshold_lamports: u64,
) -> (r: Result<Config, ConditionalError>)
    requires
        ctx.authority != Pubkey::zero(),
        from != Pubkey::zero(),
        to != Pubkey::zero(),
    ensures
        (*final(store), r) == initialize_outcome(*old(store), *ctx, from, to, threshold_lamports),
        r is Ok <==> old(store).record is None,
        r is Ok ==> final(store).wf(),
        old(store).wf() ==> final(store).wf(),
{
    let cfg = Config {
        authority: ctx.authority,
        from,
        to,
        threshold_lamports,
        bump: store.canonical_tag,
    };
    match store.create(cfg) {
        Ok(()) => Ok(cfg),
        Err(e) => Err(e),
    }
}

/// What [`send_if_over_threshold`] returns. The checks run in order: the
/// record is loaded and address-verified; the caller must be the stored
/// `from`; the amount must reach the threshold, inclusively; the named
/// recipient must be the stored `to`; and only then is the value movement
/// attempted.
pub open spec fn send_outcome(
    store: ConfigStore,
    ctx: SendIfOverThreshold,
    lamports: u64,
    from_balance: u64,
    to_balance: u64,
) -> Result<(u64, u64), ConditionalError> {
    match store.spec_load() {
        Err(e) => Err(e),
        Ok(cfg) => if ctx.from != cfg.from {
            Err(ConditionalError::Unauthorized)
        } else if lamports < cfg.threshold_lamports {
            Err(ConditionalError::BelowThreshold)
        } else if ctx.to != cfg.to {
            Err(ConditionalError::Unauthorized)
        } else {
            transfer_outcome(from_balance, to_balance, lamports)
        },
    }
}

/// Moves exactly `lamports` from the stored `from` to the stored `to`, but
/// only when the co-signing caller is the current `from`, the amount is at
/// least the current threshold, and the named recipient is the current
/// `to` — all judged against the stored record at execution time. On any
/// failure nothing moves; the record is read, never changed.
///
/// `from_balance` and `to_balance` are the two accounts' balances as the
/// hosting environment presents them; on success the result carries the
/// debited source balance and the credited destination balance.
pub fn send_if_over_threshold(
    store: &ConfigStore,
    ctx: &SendIfOverThreshold,
    lamports: u64,
    from_balance: u64,
    to_balance: u64,
) -> (r: Result<(u64, u64), ConditionalError>)
    ensures
        r == send_outcome(*store, *ctx, lamports, from_balance, to_balance),
        r matches Ok(b) ==> b.0 + lamports == from_balance && b.1 == to_balance + lamports,
{
    let cfg = match store.load() {
        Ok(cfg) => cfg,
        Err(e) => {
            return Err(e);
        },
    };
    if ctx.from != cfg.from {
        return Err(ConditionalError::Unauthorized);
    }
    if lamports < cfg.threshold_lamports {
        return Err(ConditionalError::BelowThreshold);
    }
    if ctx.to != cfg.to {
        return Err(ConditionalError::Unauthorized);
    }
    transfer(from_balance, to_balance, lamports)
}

/// What [`update_threshold`] does to the slot and returns: the threshold is
/// replaced, every other field kept, when the caller is the stored
/// `authority`; otherwise the slot is untouched and the operation fails.
pub open spec fn update_threshold_outcome(
    store: ConfigStore,
    ctx: Update,
    new_threshold_lamports: u64,
) -> (ConfigStore, Result<Config, ConditionalError>) {
    match store.spec_load() {
        Err(e) => (store, Err(e)),
        Ok(cfg) => if ctx.authority != cfg.authority {
            (store, Err(ConditionalError::Unauthorized))
        } else {
            let updated = Config {
                authority: cfg.authority,
                from: cfg.from,
                to: cfg.to,
                threshold_lamports: new_threshold_lamports,
                bump: cfg.bump,
            };
            (ConfigStore { canonical_tag: store.canonical_tag, record: Some(updated) }, Ok(updated))
        },
    }
}

/// Replaces the threshold atomically. Only the current `authority` may do
/// so; any other caller fails with `Unauthorized` and changes nothing. No
/// bound is imposed on the new threshold — zero is legal and would let
/// every transfer pass the amount check.
pub fn update_threshold(
    store: &mut ConfigStore,
    ctx: &Update,
    new_threshold_lamports: u64,
) -> (r: Result<Config, ConditionalError>)
    ensures
        (*final(store), r) == update_threshold_outcome(*old(store), *ctx, new_threshold_lamports),
        old(store).wf() ==> final(store).wf(),
{
    let cfg = match store.load() {
        Ok(cfg) => cfg,
        Err(e) => {
            return Err(e);
        },
    };
    if ctx.authority != cfg.authority {
        return Err(ConditionalError::Unauthorized);
    }
    let updated = Config {
        authority: cfg.authority,
        from: cfg.from,
        to: cfg.to,
        threshold_lamports: new_threshold_lamports,
        bump: cfg.bump,
    };
    store.save(updated);
    Ok(updated)
}

/// What [`update_addresses`] does to the slot and returns: `from` and `to`
/// are replaced together, every other field kept, when the caller is the
/// stored `authority`; otherwise the slot is untouched and the operation
/// fails.
pub open spec fn update_addresses_outcome(
    store: ConfigStore,
    ctx: Update,
    new_from: Pubkey,
    new_to: Pubkey,
) -> (ConfigStore, Result<Config, ConditionalError>) {
    match store.spec_load() {
        Err(e) => (store, Err(e)),
        Ok(cfg) => if ctx.authority != cfg.authority {
            (store, Err(ConditionalError::Unauthorized))
        } else {
            let updated = Config {
                authority: cfg.authority,
                from: new_from,
                to: new_to,
                threshold_lamports: cfg.threshold_lamports,
                bump: cfg.bump,
            };
            (ConfigStore { canonical_tag: store.canonical_tag, record: Some(updated) }, Ok(updated))
        },
    }
}

/// Replaces `from` and `to` atomically together — never one without the
/// other. Only the current `authority` may do so; any other caller fails
/// with `Unauthorized` and changes nothing. The new pair need not differ;
/// a configuration whose source equals its destination is legal and inert.
///
/// No participant may be named by the zero identity, so a well-formed
/// record stays well-formed.
pub fn update_addresses(
    store: &mut ConfigStore,
    ctx: &Update,
    new_from: Pubkey,
    new_to: Pubkey,
) -> (r: Result<Config, ConditionalError>)
    requires
        new_from != Pubkey::zero(),
        new_to != Pubkey::zero(),
    ensures
        (*final(store), r) == update_addresses_outcome(*old(store), *ctx, new_from, new_to),
        old(store).wf() ==> final(store).wf(),
{
    let cfg = match store.load() {
        Ok(cfg) => cfg,
        Err(e) => {
            return Err(e);
        },
    };
    if ctx.authority != cfg.authority {
        return Err(ConditionalError::Unauthorized);
    }
    let updated = Config {
        authority: cfg.authority,
        from: new_from,
        to: new_to,
        threshold_lamports: cfg.threshold_lamports,
        bump: cfg.bump,
    };
    store.save(updated);
    Ok(updated)
}

} // verus!
