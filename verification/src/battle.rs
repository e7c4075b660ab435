//! One instance of a two-party commit-reveal duel and its lifecycle state.

use vstd::prelude::*;
use crate::identity::Identity;
use crate::player::MoveChoice;
use crate::events::BattleInitiated;

verus! {

/// The hit points each side starts a battle with.
pub const STARTING_HP: u16 = 100;

/// The lifecycle of a battle.  Transitions go only forward:
/// `WaitingForCommits` to `WaitingForReveals` to `Resolved`.
#[derive(Clone, Copy, PartialEq, Eq, Structural, Debug)]
pub enum BattleState {
    WaitingForCommits,
    WaitingForReveals,
    Resolved,
}

/// One two-party duel.  A commitment, once set, is immutable; so is an
/// accepted reveal; `winner` and the terminal state are set exactly once,
/// by resolution.
#[derive(Clone, Debug)]
pub struct Battle {
    pub challenger: Identity,
    pub opponent: Identity,
    /// Disambiguates concurrent battles between the same pair.
    pub nonce: u64,
    pub state: BattleState,
    pub created_slot: u64,
    pub commit_deadline_slot: u64,
    pub reveal_deadline_slot: u64,
    pub commit_challenger: Option<[u8; 32]>,
    pub commit_opponent: Option<[u8; 32]>,
    pub reveal_challenger: Option<MoveChoice>,
    pub reveal_opponent: Option<MoveChoice>,
    pub winner: Option<Identity>,
    pub challenger_hp: u16,
    pub opponent_hp: u16,
}

/// Creates a battle between `challenger` and `opponent`, with the commit
/// deadline `commit_deadline_slots` after `now_slot` and the reveal deadline
/// `reveal_deadline_slots` after that (both additions saturating).
pub fn initiate_battle(
    battle_key: Identity,
    challenger: Identity,
    opponent: Identity,
    nonce: u64,
    commit_deadline_slots: u64,
    reveal_deadline_slots: u64,
    now_slot: u64,
) -> (r: (Battle, BattleInitiated))
    ensures
        r.0.challenger == challenger,
        r.0.opponent == opponent,
        r.0.nonce == nonce,
        r.0.state == BattleState::WaitingForCommits,
        r.0.created_slot == now_slot,
        r.0.commit_deadline_slot
            == if now_slot + commit_deadline_slots > u64::MAX { u64::MAX }
               else { (now_slot + commit_deadline_slots) as u64 },
        r.0.reveal_deadline_slot
            == if r.0.commit_deadline_slot + reveal_deadline_slots > u64::MAX { u64::MAX }
               else { (r.0.commit_deadline_slot + reveal_deadline_slots) as u64 },
        r.0.commit_challenger is None,
        r.0.commit_opponent is None,
        r.0.reveal_challenger is None,
        r.0.reveal_opponent is None,
        r.0.winner is None,
        r.0.challenger_hp == STARTING_HP,
        r.0.opponent_hp == STARTING_HP,
        r.1 == (BattleInitiated {
            battle: battle_key,
            challenger,
            opponent,
            commit_deadline_slot: r.0.commit_deadline_slot,
            reveal_deadline_slot: r.0.reveal_deadline_slot,
        }),
{
    let commit_deadline_slot = now_slot.saturating_add(commit_deadline_slots);
    let reveal_deadline_slot = commit_deadline_slot.saturating_add(reveal_deadline_slots);
    let battle = Battle {
        challenger,
        opponent,
        nonce,
        state: BattleState::WaitingForCommits,
        created_slot: now_slot,
        commit_deadline_slot,
        reveal_deadline_slot,
        commit_challenger: None,
        commit_opponent: None,
        reveal_challenger: None,
        reveal_opponent: None,
        winner: None,
        challenger_hp: STARTING_HP,
        opponent_hp: STARTING_HP,
    };
    let event = BattleInitiated {
        battle: battle_key,
        challenger,
        opponent,
        commit_deadline_slot,
        reveal_deadline_slot,
    };
    (battle, event)
}

} // verus!
