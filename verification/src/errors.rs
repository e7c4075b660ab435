//! The errors that the duel engine reports.  Every failure rejects the whole
//! operation: no record is mutated on an `Err`.

use vstd::prelude::*;

verus! {

/// Why an operation was rejected.
#[derive(Clone, Copy, PartialEq, Eq, Structural, Debug)]
pub enum CustomError {
    /// Not enough experience to pay an upgrade's cost.
    NotEnoughXP,
    /// The ability index is out of range.
    InvalidAbility,
    /// The caller is neither the challenger nor the opponent.
    NotInBattle,
    /// The revealed move and salt do not hash to the stored commitment.
    InvalidReveal,
    /// The caller already committed in this battle.
    AlreadyCommitted,
    /// The caller already revealed in this battle.
    AlreadyRevealed,
    /// The commit deadline has passed.
    DeadlinePassed,
    /// The reveal deadline has passed.
    RevealDeadlinePassed,
    /// Neither both reveals nor the reveal deadline permit resolution yet,
    /// or the battle is not in the state the operation needs.
    NotReadyToResolve,
    /// The battle has already been resolved; it is terminal.
    AlreadyResolved,
    /// No balance configuration record exists yet.
    NotConfigured,
    /// The ability is already at the configured maximum level.
    MaxLevel,
    /// The revealed move belongs to another class than the fighter's.
    InvalidClassMove,
    /// The caller does not own the record it tries to change.
    Unauthorized,
}

impl CustomError {
    /// A short description of the error.
    pub fn message(&self) -> (m: &'static str) {
        match self {
            CustomError::NotEnoughXP => "Not enough XP to upgrade",
            CustomError::InvalidAbility => "Invalid ability index",
            CustomError::NotInBattle => "Player not in this battle",
            CustomError::InvalidReveal => "Reveal does not match commitment",
            CustomError::AlreadyCommitted => "Already committed",
            CustomError::AlreadyRevealed => "Already revealed",
            CustomError::DeadlinePassed => "Commit deadline passed",
            CustomError::RevealDeadlinePassed => "Reveal deadline passed",
            CustomError::NotReadyToResolve => "Too early to resolve",
            CustomError::AlreadyResolved => "Battle already resolved",
            CustomError::NotConfigured => "Config not found",
            CustomError::MaxLevel => "Ability exceeds max level",
            CustomError::InvalidClassMove => "Move does not match player class",
            CustomError::Unauthorized => "Caller does not own this record",
        }
    }
}

} // verus!
