use vstd::prelude::*;

verus! {

/// Every way a guarded operation can fail. Each failure is an atomic
/// rollback: no partial mutation of the configuration and no partial value
/// movement is ever observable.
#[derive(Clone, Copy, PartialEq, Eq, Structural, Debug)]
pub enum ConditionalError {
    /// `initialize` was called while a record already exists for the
    /// namespace. The first record is left untouched.
    AlreadyExists,
    /// The operation targets a namespace whose record was never created.
    NotFound,
    /// The stored derivation tag does not match the canonical tag of the
    /// namespace, i.e. a forged or aliased record was substituted.
    AddressMismatch,
    /// The caller's proved identity does not match the required stored field
    /// (`authority` for configuration changes, `from` for transfers), or the
    /// nominal recipient does not match the stored `to`.
    Unauthorized,
    /// The requested amount is below the configured threshold.
    BelowThreshold,
    /// The value-movement primitive rejected the request, e.g. for an
    /// insufficient source balance.
    TransferFailed,
}

} // verus!
