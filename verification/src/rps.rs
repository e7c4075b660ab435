//! The legacy rock-paper-scissors comparison of the two classes.

use vstd::prelude::*;
use crate::player::FighterClass;

verus! {

/// Who wins a bare class match-up.
#[derive(Clone, Copy, PartialEq, Eq, Structural)]
pub enum RpsOutcome {
    ChallengerWin,
    OpponentWin,
    Tie,
}

/// The cyclic class comparison: Shitposter beats VC, VC beats Builder,
/// Builder beats Shitposter; the same class ties.
pub open spec fn spec_rps_compare(challenger: FighterClass, opponent: FighterClass) -> RpsOutcome {
    match (challenger, opponent) {
        (FighterClass::Shitposter, FighterClass::VC) => RpsOutcome::ChallengerWin,
        (FighterClass::VC, FighterClass::Builder) => RpsOutcome::ChallengerWin,
        (FighterClass::Builder, FighterClass::Shitposter) => RpsOutcome::ChallengerWin,
        (FighterClass::VC, FighterClass::Shitposter) => RpsOutcome::OpponentWin,
        (FighterClass::Builder, FighterClass::VC) => RpsOutcome::OpponentWin,
        (FighterClass::Shitposter, FighterClass::Builder) => RpsOutcome::OpponentWin,
        _ => RpsOutcome::Tie,
    }
}

/// Compares two classes on the cyclic advantage triangle.
pub fn rps_compare(challenger: FighterClass, opponent: FighterClass) -> (r: RpsOutcome)
    ensures
        r == spec_rps_compare(challenger, opponent),
{
    match (challenger, opponent) {
        (FighterClass::Shitposter, FighterClass::VC) => RpsOutcome::ChallengerWin,
        (FighterClass::VC, FighterClass::Builder) => RpsOutcome::ChallengerWin,
        (FighterClass::Builder, FighterClass::Shitposter) => RpsOutcome::ChallengerWin,
        (FighterClass::VC, FighterClass::Shitposter) => RpsOutcome::OpponentWin,
        (FighterClass::Builder, FighterClass::VC) => RpsOutcome::OpponentWin,
        (FighterClass::Shitposter, FighterClass::Builder) => RpsOutcome::OpponentWin,
        _ => RpsOutcome::Tie,
    }
}

} // verus!
