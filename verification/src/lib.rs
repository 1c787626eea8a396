//! A timelocked custodial vault: one record per owner, addressed
//! deterministically from the owner's authority key, holding a balance that
//! may move only after a caller-chosen unlock time and only at the owner's
//! request.

pub mod addressing;
pub mod errors;
pub mod guards;
pub mod keys;
pub mod laws;
pub mod record;
pub mod transfer;
pub mod vault;

pub use errors::TimelockError;
pub use keys::AuthorityKey;
pub use keys::VaultAddress;
pub use record::VaultAccount;
pub use vault::close_vault;
pub use vault::initialize_vault;
pub use vault::withdraw;
pub use vault::CloseVault;
pub use vault::InitializeVault;
pub use vault::VaultState;
pub use vault::WithdrawVault;
