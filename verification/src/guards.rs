use vstd::prelude::*;

use crate::errors::TimelockError;
use crate::keys::AuthorityKey;
use crate::record::VaultAccount;

verus! {

/// The authorization guard: passes exactly when the signer is the record's
/// owner, and otherwise refuses with `Unauthorized`.
pub fn check_authorized(record: &VaultAccount, signer: &AuthorityKey) -> (r: Result<
    (),
    TimelockError,
>)
    ensures
        r is Ok <==> signer@ == record.owner@,
        r is Err ==> r->Err_0 == TimelockError::Unauthorized,
{
    if signer.key_eq(&record.owner) {
        Ok(())
    } else {
        Err(TimelockError::Unauthorized)
    }
}

/// The timelock guard: passes exactly when the clock has reached the
/// record's unlock time, and otherwise refuses with `VaultLocked`.
pub fn check_unlocked(record: &VaultAccount, now: i64) -> (r: Result<(), TimelockError>)
    ensures
        r is Ok <==> now >= record.unlock_time,
        r is Err ==> r->Err_0 == TimelockError::VaultLocked,
{
    if now >= record.unlock_time {
        Ok(())
    } else {
        Err(TimelockError::VaultLocked)
    }
}

} // verus!
