use vstd::prelude::*;

use crate::addressing::addr_matches;
use crate::addressing::vault_address_of;
use crate::errors::TimelockError;
use crate::vault::close_transition;
use crate::vault::init_transition;
use crate::vault::withdraw_transition;
use crate::vault::VaultModel;

verus! {

/// Derivation is deterministic: the canonical vault address is a function
/// of the owner key alone, so equal owners always derive equal addresses,
/// and distinct derived addresses can only come from distinct owners.
pub proof fn lemma_derivation_deterministic(o1: Seq<u8>, o2: Seq<u8>)
    ensures
        o1 == o2 ==> vault_address_of(o1) == vault_address_of(o2),
        vault_address_of(o1) != vault_address_of(o2) ==> o1 != o2,
{
}

/// Re-initializing an existing record never changes its owner, whoever
/// signed the request and whatever unlock time was supplied; on a fresh
/// record the signer becomes the owner; the stored unlock time is the
/// supplied one; and initialization never moves the balance.
pub proof fn lemma_reinit_preserves_owner(
    pre: VaultModel,
    user: Seq<u8>,
    supplied: Seq<u8>,
    unlock_time: int,
)
    ensures
        ({
            let (post, res) = init_transition(pre, user, supplied, unlock_time);
            &&& pre.record matches Some(rec) ==> (post.record matches Some(rec2) && rec2.owner
                == rec.owner)
            &&& res is Ok && pre.record is None ==> (post.record matches Some(rec2) && rec2.owner
                == user)
            &&& res is Ok ==> (post.record matches Some(rec2) && rec2.unlock_time == unlock_time)
            &&& post.balance == pre.balance
        }),
{
}

/// For an initialized vault reached through its canonical address and
/// signed by its owner: withdraw and close fail with `VaultLocked` exactly
/// when the clock has not reached the unlock time; once it has, close
/// succeeds, and withdraw succeeds exactly when the balance covers the
/// requested amount.
pub proof fn lemma_timelock_gates(
    pre: VaultModel,
    signer: Seq<u8>,
    supplied: Seq<u8>,
    now: int,
    amount: int,
    recipient: int,
)
    requires
        pre.record is Some,
        0 <= amount,
    ensures
        ({
            let rec = pre.record->Some_0;
            let (_, _, wres) = withdraw_transition(pre, signer, supplied, now, amount, recipient);
            let (_, _, cres) = close_transition(pre, signer, supplied, now, recipient);
            addr_matches(rec.owner, supplied) && signer == rec.owner ==> {
                &&& (now < rec.unlock_time <==> wres == Err::<(), TimelockError>(
                    TimelockError::VaultLocked,
                ))
                &&& (now < rec.unlock_time <==> cres == Err::<(), TimelockError>(
                    TimelockError::VaultLocked,
                ))
                &&& now >= rec.unlock_time ==> cres is Ok
                &&& now >= rec.unlock_time ==> (wres is Ok <==> amount <= pre.balance)
            }
        }),
{
}

/// A withdraw never deletes or alters the record, whatever its outcome.
/// A close deletes the record exactly when it succeeds, and on failure
/// leaves the vault and the recipient untouched.
pub proof fn lemma_withdraw_keeps_record_close_deletes(
    pre: VaultModel,
    signer: Seq<u8>,
    supplied: Seq<u8>,
    now: int,
    amount: int,
    recipient: int,
)
    requires
        pre.record is Some,
    ensures
        ({
            let (post, _, _) = withdraw_transition(pre, signer, supplied, now, amount, recipient);
            post.record == pre.record
        }),
        ({
            let (post, rcp, res) = close_transition(pre, signer, supplied, now, recipient);
            &&& res is Ok ==> post.record is None && post.balance == 0
            &&& res is Err ==> post == pre && rcp == recipient
        }),
{
}

/// Any signer other than the owner is rejected by withdraw and by close,
/// for every balance, amount and time, and nothing changes hands; when the
/// canonical address was supplied, the rejection is `Unauthorized`.
pub proof fn lemma_non_owner_rejected(
    pre: VaultModel,
    signer: Seq<u8>,
    supplied: Seq<u8>,
    now: int,
    amount: int,
    recipient: int,
)
    requires
        pre.record is Some,
    ensures
        ({
            let rec = pre.record->Some_0;
            let (wpost, wrcp, wres) = withdraw_transition(
                pre,
                signer,
                supplied,
                now,
                amount,
                recipient,
            );
            let (cpost, crcp, cres) = close_transition(pre, signer, supplied, now, recipient);
            signer != rec.owner ==> {
                &&& wres is Err && wpost == pre && wrcp == recipient
                &&& cres is Err && cpost == pre && crcp == recipient
                &&& addr_matches(rec.owner, supplied) ==> wres == Err::<(), TimelockError>(
                    TimelockError::Unauthorized,
                ) && cres == Err::<(), TimelockError>(TimelockError::Unauthorized)
            }
        }),
{
}

} // verus!
