use vstd::prelude::*;

use crate::addressing::addr_matches;
use crate::addressing::derive_vault_address;
use crate::errors::TimelockError;
use crate::guards::check_authorized;
use crate::guards::check_unlocked;
use crate::keys::AuthorityKey;
use crate::keys::VaultAddress;
use crate::record::RecordModel;
use crate::record::VaultAccount;
use crate::transfer::transfer;

verus! {

/// Mathematical model of everything held at one vault address: the record,
/// if the vault is initialized, and the native balance the address holds.
#[verifier::ext_equal]
pub struct VaultModel {
    pub record: Option<RecordModel>,
    pub balance: int,
}

/// The full state at one vault address. The balance is the address's
/// externally tracked holdings, not a field of the persisted record.
#[derive(Clone, Copy, Debug, PartialEq, Eq)]
pub struct VaultState {
    pub record: Option<VaultAccount>,
    pub balance: u64,
}

impl View for VaultState {
    type V = VaultModel;

    open spec fn view(&self) -> VaultModel {
        VaultModel {
            record: match self.record {
                Some(rec) => Some(rec@),
                None => None,
            },
            balance: self.balance as int,
        }
    }
}

impl VaultState {
    /// An initialized vault never carries the unset owner key.
    pub open spec fn wf(&self) -> bool {
        self.record matches Some(rec) ==> rec.wf()
    }

    /// A never-initialized vault state with no holdings.
    pub fn empty() -> (r: VaultState)
        ensures
            r@.record is None,
            r@.balance == 0,
            r.wf(),
    {
        VaultState { record: None, balance: 0 }
    }
}

/// The authenticated inputs of an initialize request: the vault address the
/// caller supplied and the signing user, who funds and owns a fresh record.
#[derive(Clone, Copy, Debug)]
pub struct InitializeVault {
    pub vault_address: VaultAddress,
    pub user: AuthorityKey,
}

/// The authenticated inputs of a withdraw request: the vault address the
/// caller supplied and the signer claiming to be the owner.
#[derive(Clone, Copy, Debug)]
pub struct WithdrawVault {
    pub vault_address: VaultAddress,
    pub owner: AuthorityKey,
}

/// The authenticated inputs of a close request: the vault address the
/// caller supplied and the signer claiming to be the owner.
#[derive(Clone, Copy, Debug)]
pub struct CloseVault {
    pub vault_address: VaultAddress,
    pub owner: AuthorityKey,
}

/// What an initialize request does: refuse a non-canonical address, then
/// create the record or re-arm its unlock time. An existing owner is never
/// overwritten, whoever signed; the balance never moves.
pub open spec fn init_transition(
    pre: VaultModel,
    user: Seq<u8>,
    supplied: Seq<u8>,
    unlock_time: int,
) -> (VaultModel, Result<(), TimelockError>) {
    if !addr_matches(user, supplied) {
        (pre, Err(TimelockError::AddressMismatch))
    } else {
        let owner = match pre.record {
            Some(rec) => rec.owner,
            None => user,
        };
        (
            VaultModel { record: Some(RecordModel { owner, unlock_time }), balance: pre.balance },
            Ok(()),
        )
    }
}

/// The guard chain every owner-restricted request passes, in order: the
/// supplied address must be the owner's canonical one, the signer must be
/// the owner, and the clock must have reached the unlock time.
pub open spec fn guard_outcome(
    rec: RecordModel,
    signer: Seq<u8>,
    supplied: Seq<u8>,
    now: int,
) -> Option<TimelockError> {
    if !addr_matches(rec.owner, supplied) {
        Some(TimelockError::AddressMismatch)
    } else if signer != rec.owner {
        Some(TimelockError::Unauthorized)
    } else if now < rec.unlock_time {
        Some(TimelockError::VaultLocked)
    } else {
        None
    }
}

/// What a withdraw request does: run the guards, then move exactly `amount`
/// to the recipient, or refuse with `InsufficientBalance`. The record is
/// never altered or deleted. Returns the vault state, the recipient balance
/// and the result.
pub open spec fn withdraw_transition(
    pre: VaultModel,
    signer: Seq<u8>,
    supplied: Seq<u8>,
    now: int,
    amount: int,
    recipient: int,
) -> (VaultModel, int, Result<(), TimelockError>)
    recommends
        pre.record is Some,
{
    match guard_outcome(pre.record->Some_0, signer, supplied, now) {
        Some(e) => (pre, recipient, Err(e)),
        None => if amount <= pre.balance {
            (
                VaultModel { record: pre.record, balance: pre.balance - amount },
                recipient + amount,
                Ok(()),
            )
        } else {
            (pre, recipient, Err(TimelockError::InsufficientBalance))
        },
    }
}

/// What a close request does: run the guards, then sweep the entire balance
/// to the recipient and delete the record. Returns the vault state, the
/// recipient balance and the result.
pub open spec fn close_transition(
    pre: VaultModel,
    signer: Seq<u8>,
    supplied: Seq<u8>,
    now: int,
    recipient: int,
) -> (VaultModel, int, Result<(), TimelockError>)
    recommends
        pre.record is Some,
{
    match guard_outcome(pre.record->Some_0, signer, supplied, now) {
        Some(e) => (pre, recipient, Err(e)),
        None => (VaultModel { record: None, balance: 0 }, recipient + pre.balance, Ok(())),
    }
}

/// Creates or re-arms the vault record for the signing user. A fresh record
/// takes the user as its owner; an existing record keeps its owner, whoever
/// signed. The unlock time is stored unconditionally, so the owner may
/// tighten or loosen the lock at will, even to a time already past.
pub fn initialize_vault(
    state: &mut VaultState,
    ctx: &InitializeVault,
    unlock_time: i64,
) -> (r: Result<(), TimelockError>)
    requires
        old(state).wf(),
        !ctx.user.is_zero(),
    ensures
        final(state).wf(),
        ({
            let (post, res) = init_transition(
                old(state)@,
                ctx.user@,
                ctx.vault_address@,
                unlock_time as int,
            );
            final(state)@ == post && r == res
        }),
{
    let derived = derive_vault_address(&ctx.user);
    let addr_ok = match &derived {
        Some((addr, _bump)) => addr.addr_eq(&ctx.vault_address),
        None => false,
    };
    if !addr_ok {
        return Err(TimelockError::AddressMismatch);
    }
    match state.record {
        Some(rec) => {
            state.record = Some(VaultAccount { owner: rec.owner, unlock_time });
        }
        None => {
            state.record = Some(VaultAccount { owner: ctx.user, unlock_time });
        }
    }
    Ok(())
}

/// Moves `amount` out of the vault to the recipient, under the owner's
/// signature and only once the unlock time has passed. The record is left
/// intact: the vault lives on with its balance reduced, possibly to zero.
pub fn withdraw(
    state: &mut VaultState,
    ctx: &WithdrawVault,
    now: i64,
    amount: u64,
    recipient_balance: &mut u64,
) -> (r: Result<(), TimelockError>)
    requires
        old(state).wf(),
        old(state).record is Some,
        old(state).balance + *old(recipient_balance) <= u64::MAX,
    ensures
        final(state).wf(),
        ({
            let (post, rcp, res) = withdraw_transition(
                old(state)@,
                ctx.owner@,
                ctx.vault_address@,
                now as int,
                amount as int,
                *old(recipient_balance) as int,
            );
            final(state)@ == post && *final(recipient_balance) == rcp && r == res
        }),
{
    let rec = state.record.unwrap();
    let derived = derive_vault_address(&rec.owner);
    let addr_ok = match &derived {
        Some((addr, _bump)) => addr.addr_eq(&ctx.vault_address),
        None => false,
    };
    if !addr_ok {
        return Err(TimelockError::AddressMismatch);
    }
    if let Err(e) = check_authorized(&rec, &ctx.owner) {
        return Err(e);
    }
    if let Err(e) = check_unlocked(&rec, now) {
        return Err(e);
    }
    match transfer(&mut state.balance, recipient_balance, amount) {
        Ok(()) => Ok(()),
        Err(e) => Err(e),
    }
}

/// Sweeps the vault's entire remaining balance to the recipient and deletes
/// the record, under the owner's signature and only once the unlock time
/// has passed. Closure is terminal: the address may later be initialized
/// afresh, with its owner decided by whoever calls first.
pub fn close_vault(
    state: &mut VaultState,
    ctx: &CloseVault,
    now: i64,
    recipient_balance: &mut u64,
) -> (r: Result<(), TimelockError>)
    requires
        old(state).wf(),
        old(state).record is Some,
        old(state).balance + *old(recipient_balance) <= u64::MAX,
    ensures
        final(state).wf(),
        ({
            let (post, rcp, res) = close_transition(
                old(state)@,
                ctx.owner@,
                ctx.vault_address@,
                now as int,
                *old(recipient_balance) as int,
            );
            final(state)@ == post && *final(recipient_balance) == rcp && r == res
        }),
{
    let rec = state.record.unwrap();
    let derived = derive_vault_address(&rec.owner);
    let addr_ok = match &derived {
        Some((addr, _bump)) => addr.addr_eq(&ctx.vault_address),
        None => false,
    };
    if !addr_ok {
        return Err(TimelockError::AddressMismatch);
    }
    if let Err(e) = check_authorized(&rec, &ctx.owner) {
        return Err(e);
    }
    if let Err(e) = check_unlocked(&rec, now) {
        return Err(e);
    }
    let amount = state.balance;
    match transfer(&mut state.balance, recipient_balance, amount) {
        Ok(()) => {}
        Err(e) => {
            return Err(e);
        }
    }
    state.record = None;
    Ok(())
}

} // verus!
