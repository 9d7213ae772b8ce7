use vstd::prelude::*;

verus! {

/// Every failure an escrow operation can report. All of them are local,
/// recoverable-by-caller conditions: no operation leaves the state partially
/// mutated when it returns one of these.
#[derive(Clone, Copy, Debug, PartialEq, Eq, Structural)]
pub enum Errors {
    /// The caller of an admin-only operation is not the current admin.
    NotAdmin,
    /// The participant slot named by a registration call is already occupied.
    AlreadyRegistered,
    /// The winner argument names neither of the two participant slots.
    InvalidWinner,
    /// The payout could not be made: the winning slot is empty so there is
    /// nobody to pay, the instance's free balance does not cover the
    /// custody, or the fund-transfer primitive itself reported failure.
    /// Either way custody is unchanged.
    TransferFailed,
}

} // verus!
