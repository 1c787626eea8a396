use vstd::prelude::*;

use crate::errors::TimelockError;

verus! {

/// The transfer executor: moves exactly `amount` from one tracked balance to
/// another, or refuses with `InsufficientBalance` when the source does not
/// hold that much. The two balances are assumed to come from one ledger
/// whose total value fits the balance type.
pub fn transfer(from: &mut u64, to: &mut u64, amount: u64) -> (r: Result<(), TimelockError>)
    requires
        *old(from) + *old(to) <= u64::MAX,
    ensures
        amount <= *old(from) ==> r is Ok && *final(from) == *old(from) - amount && *final(to)
            == *old(to) + amount,
        amount > *old(from) ==> r == Err::<(), TimelockError>(TimelockError::InsufficientBalance)
            && *final(from) == *old(from) && *final(to) == *old(to),
{
    if amount > *from {
        return Err(TimelockError::InsufficientBalance);
    }
    *from = *from - amount;
    *to = *to + amount;
    Ok(())
}

} // verus!
