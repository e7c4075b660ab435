//! Fighter records, their classes and the moves each class can play.

use vstd::prelude::*;
use crate::identity::Identity;

verus! {

/// One of the three fighter classes.  They form a cycle for damage
/// advantage: Shitposter beats VC, VC beats Builder, Builder beats
/// Shitposter.
#[derive(Clone, Copy, PartialEq, Eq, Structural, Debug)]
pub enum FighterClass {
    Shitposter,
    Builder,
    VC,
}

/// A move, scoped to exactly one class: each class has one basic move
/// (always connects) and one special move (probabilistic outcome).
#[derive(Clone, Copy, PartialEq, Eq, Structural, Debug)]
pub enum MoveChoice {
    MemeBomb,
    RugPullRumor,
    ShipIt,
    TestnetDeploy,
    SeriesACannon,
    ExitLiquidity,
}

impl MoveChoice {
    /// The wire byte of a move, as bound into commitments and entropy.
    pub open spec fn spec_to_byte(self) -> u8 {
        match self {
            MoveChoice::MemeBomb => 0,
            MoveChoice::RugPullRumor => 1,
            MoveChoice::ShipIt => 2,
            MoveChoice::TestnetDeploy => 3,
            MoveChoice::SeriesACannon => 4,
            MoveChoice::ExitLiquidity => 5,
        }
    }

    #[verifier::when_used_as_spec(spec_to_byte)]
    pub fn to_byte(self) -> (b: u8)
        ensures
            b == self.spec_to_byte(),
    {
        match self {
            MoveChoice::MemeBomb => 0,
            MoveChoice::RugPullRumor => 1,
            MoveChoice::ShipIt => 2,
            MoveChoice::TestnetDeploy => 3,
            MoveChoice::SeriesACannon => 4,
            MoveChoice::ExitLiquidity => 5,
        }
    }

    /// The class that a move belongs to.
    pub open spec fn spec_class(self) -> FighterClass {
        match self {
            MoveChoice::MemeBomb | MoveChoice::RugPullRumor => FighterClass::Shitposter,
            MoveChoice::ShipIt | MoveChoice::TestnetDeploy => FighterClass::Builder,
            MoveChoice::SeriesACannon | MoveChoice::ExitLiquidity => FighterClass::VC,
        }
    }

    #[verifier::when_used_as_spec(spec_class)]
    pub fn class(self) -> (c: FighterClass)
        ensures
            c == self.spec_class(),
    {
        match self {
            MoveChoice::MemeBomb | MoveChoice::RugPullRumor => FighterClass::Shitposter,
            MoveChoice::ShipIt | MoveChoice::TestnetDeploy => FighterClass::Builder,
            MoveChoice::SeriesACannon | MoveChoice::ExitLiquidity => FighterClass::VC,
        }
    }

    /// Whether the move is a special move (probabilistic outcome) rather
    /// than a basic one.
    pub open spec fn spec_is_special_move(self) -> bool {
        match self {
            MoveChoice::RugPullRumor | MoveChoice::TestnetDeploy | MoveChoice::ExitLiquidity
                => true,
            _ => false,
        }
    }

    #[verifier::when_used_as_spec(spec_is_special_move)]
    pub fn is_special_move(self) -> (s: bool)
        ensures
            s == self.spec_is_special_move(),
    {
        match self {
            MoveChoice::RugPullRumor | MoveChoice::TestnetDeploy | MoveChoice::ExitLiquidity
                => true,
            _ => false,
        }
    }
}

/// A persistent per-player combat record.
#[derive(Clone, Debug)]
pub struct Player {
    pub authority: Identity,
    pub class: FighterClass,
    pub xp: u64,
    pub abilities: [u16; 3],
    pub elo: i32,
    pub version: u8,
}

/// Creates a fresh fighter for `authority`, with no experience, no ability
/// levels, and the initial rating.
pub fn create_player(authority: Identity, class: FighterClass) -> (p: Player)
    ensures
        p.authority == authority,
        p.class == class,
        p.xp == 0,
        p.abilities@ == seq![0u16, 0u16, 0u16],
        p.elo == 1000,
        p.version == 1,
{
    let p = Player {
        authority,
        class,
        xp: 0,
        abilities: [0, 0, 0],
        elo: 1000,
        version: 1,
    };
    proof {
        assert(p.abilities@ =~= seq![0u16, 0u16, 0u16]);
    }
    p
}

/// The ability level a fighter has for the ability tied to `class`.
pub fn level_for_class(player: &Player, class: FighterClass) -> (level: u16)
    ensures
        level == match class {
            FighterClass::Shitposter => player.abilities@[0],
            FighterClass::Builder => player.abilities@[1],
            FighterClass::VC => player.abilities@[2],
        },
{
    match class {
        FighterClass::Shitposter => player.abilities[0],
        FighterClass::Builder => player.abilities[1],
        FighterClass::VC => player.abilities[2],
    }
}

} // verus!
