use vstd::prelude::*;

verus! {

/// The opaque account identifier of the hosting environment
/// (`ink::primitives::AccountId`): a comparable identity value. The escrow
/// never looks inside one; it only stores them and compares them.
#[verifier::external_type_specification]
#[verifier::external_body]
pub struct ExAccountId(ink::primitives::AccountId);

/// The error type that the hosting environment's calls report
/// (`ink::env::Error`). The escrow only notes that a call failed; it maps
/// every such value to its own error taxonomy.
#[verifier::external_type_specification]
#[verifier::external_body]
pub struct ExInkError(ink::env::Error);

/// Relies on `AccountId`'s derived `PartialEq`: it compares the underlying
/// 32 bytes, which is exactly value equality of the identifiers.
#[verifier::external_body]
pub(crate) fn account_eq(a: &ink::primitives::AccountId, b: &ink::primitives::AccountId) -> (r: bool)
    ensures
        r == (*a == *b),
{
    a == b
}

/// Relies on `ink::env::transfer` and `ink::env::balance`: on `Ok` the
/// whole `value` has moved from the instance's own account to `dest`; on
/// `Err` nothing has moved. ink documents that a transfer the instance's
/// free funds do not cover fails with an error, but the engine of this
/// build performs the deduction as bare ledger arithmetic, so the body
/// makes that documented check itself, as part of the host-call protocol,
/// and reports the host's `TransferFailed` without touching the ledger
/// when `value` is not covered. Like every environment call, this assumes
/// the host is executing a call of the instance with the instance's
/// account on its ledger, and that the ledger's totals are the host's to
/// keep consistent. Whether a covered transfer succeeds is the ledger's
/// alone; nothing is promised of the outcome, and the caller handles both.
#[verifier::external_body]
pub(crate) fn host_transfer(dest: ink::primitives::AccountId, value: u128) -> (r: Result<(), ink::env::Error>)
{
    if value > ink::env::balance::<ink::env::DefaultEnvironment>() {
        return Err(ink::env::Error::TransferFailed);
    }
    ink::env::transfer::<ink::env::DefaultEnvironment>(dest, value)
}

} // verus!
