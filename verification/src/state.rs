use vstd::prelude::*;

use crate::errors::Errors;
use crate::host::account_eq;
use crate::host::host_transfer;
use ink::primitives::AccountId;

verus! {

/// The outcome marker of one wager cycle: nobody has been declared yet, or
/// one of the two fixed participant slots has won.
#[derive(Clone, Copy, Debug, PartialEq, Eq, Structural)]
pub enum Winner {
    Unset,
    Chelsea,
    Manchester,
}

/// The whole state of one escrow instance.
///
/// A participant slot is `None` while unregistered and `Some(identity)` once
/// its one registration of the cycle has happened, so "unregistered" and
/// "registered" are structurally exclusive and no sentinel identity exists.
/// `balance` is the custody the instance holds: the sum of the deposits of
/// the current cycle, released in full by a successful winner declaration.
pub struct GameData {
    pub winning_team: Winner,
    pub admin: AccountId,
    pub particpant_chelsea: Option<AccountId>,
    pub particpant_manchester: Option<AccountId>,
    pub balance: u128,
}

/// The observable snapshot of an instance that `get_game` reports and the
/// host forwards to its notification channel.
#[derive(Clone, Copy, Debug, PartialEq, Eq, Structural)]
pub struct GameState {
    pub particpant_chelsea_is_set: bool,
    pub particpant_manchester_is_set: bool,
    pub winning_team: Winner,
}

/// Which outcome marker a declaration argument names: `1` is the chelsea
/// slot, `2` the manchester slot, anything else names nobody.
pub open spec fn winner_of(number: u8) -> Winner {
    if number == 1 {
        Winner::Chelsea
    } else if number == 2 {
        Winner::Manchester
    } else {
        Winner::Unset
    }
}

/// The occupant of the slot a declaration argument names.
pub open spec fn payout_target(s: GameData, number: u8) -> Option<AccountId> {
    if number == 1 {
        s.particpant_chelsea
    } else if number == 2 {
        s.particpant_manchester
    } else {
        None
    }
}

/// The snapshot that an instance in state `s` reports.
pub open spec fn snapshot_of(s: GameData) -> GameState {
    GameState {
        particpant_chelsea_is_set: s.particpant_chelsea is Some,
        particpant_manchester_is_set: s.particpant_manchester is Some,
        winning_team: s.winning_team,
    }
}

/// The snapshot of a freshly created (or just restarted) instance.
pub open spec fn initial_snapshot() -> GameState {
    GameState {
        particpant_chelsea_is_set: false,
        particpant_manchester_is_set: false,
        winning_team: Winner::Unset,
    }
}

/// The registration transition for the chelsea slot: next state and result.
pub open spec fn spec_register_chelsea(s: GameData, caller: AccountId, deposit: u128) -> (GameData,
    Result<(), Errors>) {
    if s.particpant_chelsea is Some {
        (s, Err(Errors::AlreadyRegistered))
    } else {
        (
            GameData {
                particpant_chelsea: Some(caller),
                balance: (s.balance + deposit) as u128,
                ..s
            },
            Ok(()),
        )
    }
}

/// The registration transition for the manchester slot: next state and result.
pub open spec fn spec_register_manchester(s: GameData, caller: AccountId, deposit: u128) -> (
    GameData, Result<(), Errors>) {
    if s.particpant_manchester is Some {
        (s, Err(Errors::AlreadyRegistered))
    } else {
        (
            GameData {
                particpant_manchester: Some(caller),
                balance: (s.balance + deposit) as u128,
                ..s
            },
            Ok(()),
        )
    }
}

/// The winner-declaration transition: next state and result, given whether
/// the host's transfer of the custody to the winning occupant went through.
pub open spec fn spec_set_winner(s: GameData, caller: AccountId, number: u8, transferred: bool) -> (
    GameData, Result<(), Errors>) {
    if caller != s.admin {
        (s, Err(Errors::NotAdmin))
    } else if number != 1 && number != 2 {
        (s, Err(Errors::InvalidWinner))
    } else if payout_target(s, number) is None {
        (s, Err(Errors::TransferFailed))
    } else if !transferred {
        (s, Err(Errors::TransferFailed))
    } else {
        (GameData { winning_team: winner_of(number), balance: 0, ..s }, Ok(()))
    }
}

/// The admin-change transition: next state and result.
pub open spec fn spec_change_admin(s: GameData, caller: AccountId, new_admin: AccountId) -> (
    GameData, Result<(), Errors>) {
    if caller != s.admin {
        (s, Err(Errors::NotAdmin))
    } else {
        (GameData { admin: new_admin, ..s }, Ok(()))
    }
}

/// The restart transition: next state and result. The admin is kept, and so
/// is any residual custody: funds of an aborted cycle are carried forward
/// into the next one, never silently dropped.
pub open spec fn spec_restart(s: GameData, caller: AccountId) -> (GameData, Result<(), Errors>) {
    if caller != s.admin {
        (s, Err(Errors::NotAdmin))
    } else {
        (
            GameData {
                winning_team: Winner::Unset,
                particpant_chelsea: None,
                particpant_manchester: None,
                ..s
            },
            Ok(()),
        )
    }
}

impl GameData {
    /// Creates a fresh instance owned by `creator`: no winner, both slots
    /// unregistered, empty custody, and `creator` as admin.
    pub fn new(creator: AccountId) -> (s: Self)
        ensures
            s.winning_team == Winner::Unset,
            s.admin == creator,
            s.particpant_chelsea is None,
            s.particpant_manchester is None,
            s.balance == 0,
            snapshot_of(s) == initial_snapshot(),
    {
        GameData {
            winning_team: Winner::Unset,
            admin: creator,
            particpant_chelsea: None,
            particpant_manchester: None,
            balance: 0,
        }
    }

    /// Reports the observable snapshot of the instance. Read-only and never
    /// failing; the host forwards the snapshot to its notification channel.
    pub fn get_game(&self) -> (g: GameState)
        ensures
            g == snapshot_of(*self),
    {
        GameState {
            particpant_chelsea_is_set: self.particpant_chelsea.is_some(),
            particpant_manchester_is_set: self.particpant_manchester.is_some(),
            winning_team: self.winning_team,
        }
    }

    /// Registers `caller` in the chelsea slot with `deposit` attached:
    /// succeeds exactly when the slot is still unregistered, and then adds
    /// the deposit to custody; a second call of a cycle always fails with
    /// `AlreadyRegistered` and changes nothing.
    pub fn set_particpant_chelsea(&mut self, caller: AccountId, deposit: u128) -> (r: Result<
        (),
        Errors,
    >)
        requires
            old(self).particpant_chelsea is None ==> old(self).balance + deposit <= u128::MAX,
        ensures
            (*final(self), r) == spec_register_chelsea(*old(self), caller, deposit),
            r is Err <==> old(self).particpant_chelsea is Some,
            r is Err ==> r == Err::<(), Errors>(Errors::AlreadyRegistered) && *final(self) == *old(self),
            r is Ok ==> final(self).particpant_chelsea == Some(caller) && final(self).balance
                == old(self).balance + deposit,
    {
        if self.particpant_chelsea.is_some() {
            return Err(Errors::AlreadyRegistered);
        }
        self.particpant_chelsea = Some(caller);
        self.balance = self.balance + deposit;
        Ok(())
    }

    /// Registers `caller` in the manchester slot with `deposit` attached:
    /// succeeds exactly when the slot is still unregistered, and then adds
    /// the deposit to custody; a second call of a cycle always fails with
    /// `AlreadyRegistered` and changes nothing.
    pub fn set_particpant_manchester(&mut self, caller: AccountId, deposit: u128) -> (r: Result<
        (),
        Errors,
    >)
        requires
            old(self).particpant_manchester is None ==> old(self).balance + deposit <= u128::MAX,
        ensures
            (*final(self), r) == spec_register_manchester(*old(self), caller, deposit),
            r is Err <==> old(self).particpant_manchester is Some,
            r is Err ==> r == Err::<(), Errors>(Errors::AlreadyRegistered) && *final(self) == *old(self),
            r is Ok ==> final(self).particpant_manchester == Some(caller) && final(self).balance
                == old(self).balance + deposit,
    {
        if self.particpant_manchester.is_some() {
            return Err(Errors::AlreadyRegistered);
        }
        self.particpant_manchester = Some(caller);
        self.balance = self.balance + deposit;
        Ok(())
    }

    /// The arguments of the payout the declaration of `number` owes: the
    /// occupant of the named slot as destination, and the whole custody as
    /// amount. This is the only thing ever handed to the host's transfer
    /// primitive.
    pub fn payout_args(&self, number: u8) -> (r: (AccountId, u128))
        requires
            number == 1 || number == 2,
            payout_target(*self, number) is Some,
        ensures
            Some(r.0) == payout_target(*self, number),
            r.1 == self.balance,
    {
        let dest = if number == 1 {
            self.particpant_chelsea.unwrap()
        } else {
            self.particpant_manchester.unwrap()
        };
        (dest, self.balance)
    }

    /// Declares the slot named by `number` (`1` chelsea, `2` manchester) the
    /// winner and pays the whole custody to its occupant through the host's
    /// transfer primitive; `payout_args` fixes what is handed to it. The
    /// transition is atomic: either the outcome is recorded and custody
    /// emptied, or the state is exactly as before and the precise failure
    /// is reported.
    pub fn set_winner(&mut self, caller: AccountId, number: u8) -> (r: Result<(), Errors>)
        ensures
            r is Ok ==> (*final(self), r) == spec_set_winner(*old(self), caller, number, true),
            r is Err ==> (*final(self), r) == spec_set_winner(*old(self), caller, number, false),
            r == Err::<(), Errors>(Errors::NotAdmin) <==> caller != old(self).admin,
            r == Err::<(), Errors>(Errors::InvalidWinner) <==> caller == old(self).admin && number
                != 1 && number != 2,
            caller == old(self).admin && (number == 1 || number == 2) && payout_target(
                *old(self),
                number,
            ) is None ==> r == Err::<(), Errors>(Errors::TransferFailed),
            r is Err ==> *final(self) == *old(self),
            r is Ok ==> final(self).winning_team == winner_of(number) && final(self).balance == 0,
    {
        if !account_eq(&caller, &self.admin) {
            return Err(Errors::NotAdmin);
        }
        if number != 1 && number != 2 {
            return Err(Errors::InvalidWinner);
        }
        let occupied = if number == 1 {
            self.particpant_chelsea.is_some()
        } else {
            self.particpant_manchester.is_some()
        };
        if !occupied {
            return Err(Errors::TransferFailed);
        }
        let args = self.payout_args(number);
        let outcome = host_transfer(args.0, args.1);
        self.finish_payout(number, outcome)
    }

    /// Commits or rolls back the payout transition, given the outcome the
    /// host's transfer primitive reported: on `Ok` the winner is recorded
    /// and custody emptied, on `Err` nothing changes and the failure is
    /// reported as `TransferFailed`.
    pub fn finish_payout(&mut self, number: u8, outcome: Result<(), ink::env::Error>) -> (r: Result<
        (),
        Errors,
    >)
        requires
            number == 1 || number == 2,
        ensures
            outcome is Ok ==> r == Ok::<(), Errors>(()) && final(self).winning_team == winner_of(
                number,
            ) && final(self).balance == 0 && final(self).admin == old(self).admin && final(self).particpant_chelsea == old(self).particpant_chelsea && final(self).particpant_manchester == old(self).particpant_manchester,
            outcome is Err ==> r == Err::<(), Errors>(Errors::TransferFailed) && *final(self)
                == *old(self),
    {
        match outcome {
            Ok(()) => {
                self.winning_team = if number == 1 {
                    Winner::Chelsea
                } else {
                    Winner::Manchester
                };
                self.balance = 0;
                Ok(())
            },
            Err(_) => Err(Errors::TransferFailed),
        }
    }

    /// Hands the admin role to `new_admin`; only the current admin may do
    /// so, and any other caller gets `NotAdmin` with the state unchanged.
    pub fn change_admin(&mut self, caller: AccountId, new_admin: AccountId) -> (r: Result<
        (),
        Errors,
    >)
        ensures
            (*final(self), r) == spec_change_admin(*old(self), caller, new_admin),
            r is Ok <==> caller == old(self).admin,
            r is Err ==> r == Err::<(), Errors>(Errors::NotAdmin) && *final(self) == *old(self),
            r is Ok ==> final(self).admin == new_admin && final(self).winning_team == old(self).winning_team && final(self).particpant_chelsea == old(self).particpant_chelsea
                && final(self).particpant_manchester == old(self).particpant_manchester && final(self).balance == old(self).balance,
    {
        if !account_eq(&caller, &self.admin) {
            return Err(Errors::NotAdmin);
        }
        self.admin = new_admin;
        Ok(())
    }

    /// Begins a new cycle: clears the winner marker and both slots while
    /// keeping the admin. Residual custody is carried forward into the new
    /// cycle, never silently dropped. Only the current admin may restart.
    pub fn restart_match(&mut self, caller: AccountId) -> (r: Result<(), Errors>)
        ensures
            (*final(self), r) == spec_restart(*old(self), caller),
            r is Ok <==> caller == old(self).admin,
            r is Err ==> r == Err::<(), Errors>(Errors::NotAdmin) && *final(self) == *old(self),
            r is Ok ==> snapshot_of(*final(self)) == initial_snapshot() && final(self).admin == old(self).admin && final(self).balance == old(self).balance,
    {
        if !account_eq(&caller, &self.admin) {
            return Err(Errors::NotAdmin);
        }
        self.winning_team = Winner::Unset;
        self.particpant_chelsea = None;
        self.particpant_manchester = None;
        Ok(())
    }
}

} // verus!
