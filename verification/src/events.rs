//! Structured notifications that state-changing operations hand back to
//! their caller, for external observers and indexers.

use vstd::prelude::*;
use crate::identity::Identity;
use crate::player::MoveChoice;

verus! {

/// A battle was created.
#[derive(Clone, Copy, Debug)]
pub struct BattleInitiated {
    pub battle: Identity,
    pub challenger: Identity,
    pub opponent: Identity,
    pub commit_deadline_slot: u64,
    pub reveal_deadline_slot: u64,
}

/// A participant's commitment was accepted.
#[derive(Clone, Copy, Debug)]
pub struct MoveCommitted {
    pub battle: Identity,
    pub player: Identity,
}

/// A participant's reveal was accepted.
#[derive(Clone, Copy, Debug)]
pub struct MoveRevealed {
    pub battle: Identity,
    pub player: Identity,
    pub move_choice: MoveChoice,
}

/// A battle was resolved: the winner, both final hit-point counters and
/// both damage totals.
#[derive(Clone, Copy, Debug)]
pub struct BattleResolved {
    pub battle: Identity,
    pub winner: Identity,
    pub challenger_hp: u16,
    pub opponent_hp: u16,
    pub challenger_damage: u16,
    pub opponent_damage: u16,
}

/// Experience was credited to a fighter.
#[derive(Clone, Copy, Debug)]
pub struct XpAwarded {
    pub player: Identity,
    /// The amount credited, before saturation.
    pub delta: u64,
}

/// An ability was upgraded.
#[derive(Clone, Copy, Debug)]
pub struct AbilityUpgraded {
    pub player: Identity,
    pub ability_index: u8,
    pub new_level: u16,
    pub cost: u64,
}

} // verus!
