use vstd::prelude::*;
use crate::error::ErrorCode;

verus! {

/// Whether `amount` units can move from a balance of `from` to a balance of
/// `to`: the payer holds at least that much, and the receiver's new balance
/// still fits in 64 bits.
pub open spec fn transfer_allowed(from: nat, to: nat, amount: nat) -> bool {
    amount <= from && to + amount <= u64::MAX
}

/// Moves `amount` units from one balance to another, or moves nothing.
///
/// This is the single primitive through which every balance in the crate
/// changes. It fails with `TransferFailed` exactly when the move is not
/// allowed, and then leaves both balances as they were.
pub fn transfer(from: &mut u64, to: &mut u64, amount: u64) -> (res: Result<(), ErrorCode>)
    ensures
        res == (if transfer_allowed(*old(from) as nat, *old(to) as nat, amount as nat) {
            Ok::<(), ErrorCode>(())
        } else {
            Err::<(), ErrorCode>(ErrorCode::TransferFailed)
        }),
        res is Ok ==> *final(from) == *old(from) - amount && *final(to) == *old(to) + amount,
        res is Err ==> *final(from) == *old(from) && *final(to) == *old(to),
{
    if *from < amount || *to > u64::MAX - amount {
        return Err(ErrorCode::TransferFailed);
    }
    *from = *from - amount;
    *to = *to + amount;
    Ok(())
}

} // verus!
