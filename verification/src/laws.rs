use vstd::prelude::*;

use crate::errors::Errors;
use crate::state::initial_snapshot;
use crate::state::payout_target;
use crate::state::snapshot_of;
use crate::state::spec_change_admin;
use crate::state::spec_register_chelsea;
use crate::state::spec_register_manchester;
use crate::state::spec_restart;
use crate::state::spec_set_winner;
use crate::state::winner_of;
use crate::state::GameData;
use ink::primitives::AccountId;

verus! {

/// Registration is exactly-once per slot per cycle: once a registration of a
/// slot has succeeded, every further registration of the same slot fails
/// with `AlreadyRegistered` and changes nothing, whoever calls and whatever
/// deposit they offer.
pub proof fn lemma_register_exactly_once(
    s: GameData,
    caller1: AccountId,
    deposit1: u128,
    caller2: AccountId,
    deposit2: u128,
)
    ensures
        spec_register_chelsea(s, caller1, deposit1).1 is Ok ==> spec_register_chelsea(
            spec_register_chelsea(s, caller1, deposit1).0,
            caller2,
            deposit2,
        ) == (
            spec_register_chelsea(s, caller1, deposit1).0,
            Err::<(), Errors>(Errors::AlreadyRegistered),
        ),
        spec_register_manchester(s, caller1, deposit1).1 is Ok ==> spec_register_manchester(
            spec_register_manchester(s, caller1, deposit1).0,
            caller2,
            deposit2,
        ) == (
            spec_register_manchester(s, caller1, deposit1).0,
            Err::<(), Errors>(Errors::AlreadyRegistered),
        ),
{
}

/// Only the current admin may succeed at declaring a winner, changing the
/// admin, or restarting: any other caller receives `NotAdmin` and the state
/// is unchanged, whatever the other arguments are and whatever the host's
/// transfer primitive would have reported.
pub proof fn lemma_only_admin(
    s: GameData,
    caller: AccountId,
    number: u8,
    transferred: bool,
    new_admin: AccountId,
)
    requires
        caller != s.admin,
    ensures
        spec_set_winner(s, caller, number, transferred) == (s, Err::<(), Errors>(Errors::NotAdmin)),
        spec_change_admin(s, caller, new_admin) == (s, Err::<(), Errors>(Errors::NotAdmin)),
        spec_restart(s, caller) == (s, Err::<(), Errors>(Errors::NotAdmin)),
{
}

/// A winner declaration whose argument names neither slot always fails with
/// `InvalidWinner` and mutates nothing, even for the admin (a non-admin
/// caller is turned away with `NotAdmin` before the argument is looked at).
pub proof fn lemma_invalid_winner_rejected(
    s: GameData,
    caller: AccountId,
    number: u8,
    transferred: bool,
)
    requires
        caller == s.admin,
        number != 1,
        number != 2,
    ensures
        spec_set_winner(s, caller, number, transferred) == (
            s,
            Err::<(), Errors>(Errors::InvalidWinner),
        ),
{
}

/// A successful winner declaration records the named slot as the winner and
/// empties custody; it can only succeed when the named slot is occupied, so
/// there was somebody for the host to pay the whole pre-call balance to.
pub proof fn lemma_payout_empties_custody(s: GameData, caller: AccountId, number: u8)
    requires
        spec_set_winner(s, caller, number, true).1 is Ok,
    ensures
        spec_set_winner(s, caller, number, true).0.winning_team == winner_of(number),
        spec_set_winner(s, caller, number, true).0.balance == 0,
        payout_target(s, number) is Some,
        spec_set_winner(s, caller, number, true).0.particpant_chelsea == s.particpant_chelsea,
        spec_set_winner(s, caller, number, true).0.particpant_manchester
            == s.particpant_manchester,
        spec_set_winner(s, caller, number, true).0.admin == s.admin,
{
}

/// A restart by the admin succeeds, restores the initial observable
/// snapshot (no winner, both slots unregistered), and leaves the admin
/// exactly as it was before the restart.
pub proof fn lemma_restart_restores_initial_snapshot(s: GameData, caller: AccountId)
    requires
        caller == s.admin,
    ensures
        spec_restart(s, caller).1 == Ok::<(), Errors>(()),
        snapshot_of(spec_restart(s, caller).0) == initial_snapshot(),
        spec_restart(s, caller).0.admin == s.admin,
{
}

} // verus!
