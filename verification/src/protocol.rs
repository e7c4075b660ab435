//! The commit-reveal protocol: each participant submits one opaque
//! commitment while commits are open, then reveals the move and salt that
//! hash to it while reveals are open.

use vstd::prelude::*;
use crate::battle::{Battle, BattleState};
use crate::errors::CustomError;
use crate::events::{MoveCommitted, MoveRevealed};
use crate::identity::{bytes32_eq, Identity};
use crate::player::{MoveChoice, Player};
use crate::vrf::{commitment_hash, spec_commitment_hash};

verus! {

/// Whether a commitment from `who` is acceptable on `battle` at `now_slot`.
pub open spec fn spec_commit_accepts(battle: Battle, who: Identity, now_slot: u64) -> bool {
    &&& battle.state == BattleState::WaitingForCommits
    &&& now_slot <= battle.commit_deadline_slot
    &&& if who == battle.challenger {
            battle.commit_challenger is None
        } else if who == battle.opponent {
            battle.commit_opponent is None
        } else {
            false
        }
}

/// The error a rejected commitment reports, matching the order in which
/// the conditions are checked.
pub open spec fn spec_commit_error(battle: Battle, who: Identity, now_slot: u64) -> CustomError {
    if battle.state != BattleState::WaitingForCommits {
        CustomError::NotReadyToResolve
    } else if now_slot > battle.commit_deadline_slot {
        CustomError::DeadlinePassed
    } else if who == battle.challenger || who == battle.opponent {
        CustomError::AlreadyCommitted
    } else {
        CustomError::NotInBattle
    }
}

/// The battle after a commitment from `who` is accepted: the commitment
/// is stored, and once both sides have committed the battle moves on to
/// the reveal phase.
pub open spec fn spec_after_commit(battle: Battle, who: Identity, commitment: [u8; 32]) -> Battle {
    let committed = if who == battle.challenger {
        Battle { commit_challenger: Some(commitment), ..battle }
    } else {
        Battle { commit_opponent: Some(commitment), ..battle }
    };
    if committed.commit_challenger is Some && committed.commit_opponent is Some {
        Battle { state: BattleState::WaitingForReveals, ..committed }
    } else {
        committed
    }
}

/// Accepts one 32-byte commitment from a named participant while the
/// battle is waiting for commits and the commit deadline has not passed.
/// A second commitment from the same participant, or any commitment from
/// a third party, is rejected without effect.
pub fn commit_move(
    battle: &mut Battle,
    battle_key: &Identity,
    player: &Identity,
    now_slot: u64,
    commitment: [u8; 32],
) -> (r: Result<MoveCommitted, CustomError>)
    ensures
        r is Ok <==> spec_commit_accepts(*old(battle), *player, now_slot),
        r matches Ok(ev) ==> {
            &&& *final(battle) == spec_after_commit(*old(battle), *player, commitment)
            &&& ev == (MoveCommitted { battle: *battle_key, player: *player })
        },
        r matches Err(e) ==> {
            &&& *final(battle) == *old(battle)
            &&& e == spec_commit_error(*old(battle), *player, now_slot)
        },
{
    if !matches!(battle.state, BattleState::WaitingForCommits) {
        return Err(CustomError::NotReadyToResolve);
    }
    if now_slot > battle.commit_deadline_slot {
        return Err(CustomError::DeadlinePassed);
    }
    if *player == battle.challenger {
        if battle.commit_challenger.is_some() {
            return Err(CustomError::AlreadyCommitted);
        }
        battle.commit_challenger = Some(commitment);
    } else if *player == battle.opponent {
        if battle.commit_opponent.is_some() {
            return Err(CustomError::AlreadyCommitted);
        }
        battle.commit_opponent = Some(commitment);
    } else {
        return Err(CustomError::NotInBattle);
    }

    if battle.commit_challenger.is_some() && battle.commit_opponent.is_some() {
        battle.state = BattleState::WaitingForReveals;
    }
    Ok(MoveCommitted { battle: *battle_key, player: *player })
}

/// Whether a reveal of `move_choice` with `salt` from `who` (owner of the
/// fighter record `account`) is acceptable on `battle` at `now_slot`: the
/// battle is waiting for reveals before its deadline, the move matches the
/// fighter's class, and the recomputed hash equals the stored commitment
/// of that participant, which has not been revealed yet.
pub open spec fn spec_reveal_accepts(
    battle: Battle,
    battle_key: Identity,
    who: Identity,
    account: Player,
    now_slot: u64,
    move_choice: MoveChoice,
    salt: [u8; 32],
) -> bool {
    &&& account.authority == who
    &&& battle.state == BattleState::WaitingForReveals
    &&& now_slot <= battle.reveal_deadline_slot
    &&& move_choice.spec_class() == account.class
    &&& {
            let expected = spec_commitment_hash(move_choice, salt@, who, battle_key);
            if who == battle.challenger {
                &&& battle.commit_challenger matches Some(c) && c@ == expected
                &&& battle.reveal_challenger is None
            } else if who == battle.opponent {
                &&& battle.commit_opponent matches Some(c) && c@ == expected
                &&& battle.reveal_opponent is None
            } else {
                false
            }
        }
}

/// The error a rejected reveal reports, matching the order in which the
/// conditions are checked.
pub open spec fn spec_reveal_error(
    battle: Battle,
    battle_key: Identity,
    who: Identity,
    account: Player,
    now_slot: u64,
    move_choice: MoveChoice,
    salt: [u8; 32],
) -> CustomError {
    if account.authority != who {
        CustomError::NotInBattle
    } else if battle.state != BattleState::WaitingForReveals {
        CustomError::NotReadyToResolve
    } else if now_slot > battle.reveal_deadline_slot {
        CustomError::RevealDeadlinePassed
    } else if move_choice.spec_class() != account.class {
        CustomError::InvalidClassMove
    } else {
        let expected = spec_commitment_hash(move_choice, salt@, who, battle_key);
        if who == battle.challenger {
            if !(battle.commit_challenger matches Some(c) && c@ == expected) {
                CustomError::InvalidReveal
            } else {
                CustomError::AlreadyRevealed
            }
        } else if who == battle.opponent {
            if !(battle.commit_opponent matches Some(c) && c@ == expected) {
                CustomError::InvalidReveal
            } else {
                CustomError::AlreadyRevealed
            }
        } else {
            CustomError::NotInBattle
        }
    }
}

/// The commit-reveal round trip: with every other protocol condition
/// met (right phase, deadline not passed, owned fighter, matching class,
/// not yet revealed), a participant's reveal is accepted exactly when
/// the hash recomputed from the move, salt, participant identity and
/// battle identity equals that participant's stored commitment.
pub proof fn lemma_reveal_round_trip(
    battle: Battle,
    battle_key: Identity,
    who: Identity,
    account: Player,
    now_slot: u64,
    move_choice: MoveChoice,
    salt: [u8; 32],
)
    requires
        account.authority == who,
        battle.state == BattleState::WaitingForReveals,
        now_slot <= battle.reveal_deadline_slot,
        move_choice.spec_class() == account.class,
        who == battle.challenger || who == battle.opponent,
        who == battle.challenger ==> battle.reveal_challenger is None,
        who != battle.challenger ==> battle.reveal_opponent is None,
    ensures
        spec_reveal_accepts(battle, battle_key, who, account, now_slot, move_choice, salt)
            <==> {
                let stored = if who == battle.challenger {
                    battle.commit_challenger
                } else {
                    battle.commit_opponent
                };
                stored matches Some(c)
                    && c@ == spec_commitment_hash(move_choice, salt@, who, battle_key)
            },
{
}

/// The battle after a reveal of `move_choice` from `who` is accepted.
pub open spec fn spec_after_reveal(battle: Battle, who: Identity, move_choice: MoveChoice) -> Battle {
    if who == battle.challenger {
        Battle { reveal_challenger: Some(move_choice), ..battle }
    } else {
        Battle { reveal_opponent: Some(move_choice), ..battle }
    }
}

/// Accepts a revealed move and salt from a named participant: recomputes
/// the commitment hash over the move byte, the salt and the participant
/// and battle identities, and requires it to equal the stored commitment.
/// The move must belong to the revealing fighter's class.  A reveal does
/// not wait for the counterpart: either side may reveal first.
pub fn reveal_move(
    battle: &mut Battle,
    battle_key: &Identity,
    player: &Identity,
    player_account: &Player,
    now_slot: u64,
    move_choice: MoveChoice,
    salt: &[u8; 32],
) -> (r: Result<MoveRevealed, CustomError>)
    ensures
        r is Ok <==> spec_reveal_accepts(
            *old(battle), *battle_key, *player, *player_account, now_slot, move_choice, *salt),
        r matches Ok(ev) ==> {
            &&& *final(battle) == spec_after_reveal(*old(battle), *player, move_choice)
            &&& ev == (MoveRevealed {
                battle: *battle_key,
                player: *player,
                move_choice,
            })
        },
        r matches Err(e) ==> {
            &&& *final(battle) == *old(battle)
            &&& e == spec_reveal_error(
                *old(battle), *battle_key, *player, *player_account, now_slot, move_choice, *salt)
        },
{
    if !(player_account.authority == *player) {
        return Err(CustomError::NotInBattle);
    }
    if !matches!(battle.state, BattleState::WaitingForReveals) {
        return Err(CustomError::NotReadyToResolve);
    }
    if now_slot > battle.reveal_deadline_slot {
        return Err(CustomError::RevealDeadlinePassed);
    }
    if !(move_choice.class() == player_account.class) {
        return Err(CustomError::InvalidClassMove);
    }

    let expected = commitment_hash(move_choice, salt, player, battle_key);

    if *player == battle.challenger {
        let commitment_matches = match &battle.commit_challenger {
            Some(c) => bytes32_eq(c, &expected),
            None => false,
        };
        if !commitment_matches {
            return Err(CustomError::InvalidReveal);
        }
        if battle.reveal_challenger.is_some() {
            return Err(CustomError::AlreadyRevealed);
        }
        battle.reveal_challenger = Some(move_choice);
    } else if *player == battle.opponent {
        let commitment_matches = match &battle.commit_opponent {
            Some(c) => bytes32_eq(c, &expected),
            None => false,
        };
        if !commitment_matches {
            return Err(CustomError::InvalidReveal);
        }
        if battle.reveal_opponent.is_some() {
            return Err(CustomError::AlreadyRevealed);
        }
        battle.reveal_opponent = Some(move_choice);
    } else {
        return Err(CustomError::NotInBattle);
    }

    Ok(MoveRevealed { battle: *battle_key, player: *player, move_choice })
}

} // verus!
