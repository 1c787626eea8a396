use vstd::prelude::*;

verus! {

/// Why a vault request was refused.
///
/// Every failure aborts the requested operation with no partial effect;
/// the caller decides whether to retry.
#[derive(Clone, Copy, Debug, PartialEq, Eq, Structural)]
pub enum TimelockError {
    /// The unlock time has not been reached yet; correctable by waiting.
    VaultLocked,
    /// The signer does not match the record's owner; not retryable.
    Unauthorized,
    /// The supplied account address is not the one derived for the owner.
    AddressMismatch,
    /// The requested amount exceeds the vault's holdings.
    InsufficientBalance,
}

} // verus!
