use vstd::prelude::*;

verus! {

/// Every way a request can be rejected. Each failure aborts the whole request:
/// a function that returns one of these leaves its record arguments unchanged.
#[derive(Clone, Copy, Debug, PartialEq, Eq, Structural)]
pub enum DiceError {
    /// The asset is not in the whitelist, and the operation requires it to be.
    NotRegisteredToken,
    /// A withdrawal at least as large as the claimed prior balance.
    ExceedAmount,
    /// The caller is not the administrator of the registry.
    CannotAccess,
    /// The whitelist already holds `MAX_TOKEN` assets and the asset is new.
    CapacityExceeded,
    /// A deposit would push a balance past the representable range.
    AmountOverflow,
    /// The fund-movement collaborator reported a failure; recorded by the host,
    /// never returned by the ledger itself.
    TransferFailed,
}

} // verus!
