//! The legacy abstract-score comparison: a base score from the class
//! match-up plus the per-fighter ability bonus.

use vstd::prelude::*;
use crate::config::BalanceConfig;
use crate::math::{ability_power, spec_ability_power, spec_clip_i32};
use crate::player::FighterClass;
use crate::rps::{rps_compare, spec_rps_compare, RpsOutcome};

verus! {

/// The two sides' scores.
#[derive(Clone, Copy, Debug)]
pub struct Scores {
    pub challenger: i32,
    pub opponent: i32,
}

/// The base score each side gets from the class match-up alone.
pub open spec fn spec_base_scores(rps: RpsOutcome, cfg: BalanceConfig) -> (int, int) {
    match rps {
        RpsOutcome::ChallengerWin => (cfg.rps_win_base as int, 0int),
        RpsOutcome::OpponentWin => (0int, cfg.rps_win_base as int),
        RpsOutcome::Tie => (cfg.rps_tie_base as int, cfg.rps_tie_base as int),
    }
}

/// Computes both sides' scores: the match-up base plus each side's
/// ability power at its level, saturating in `i32`.
pub fn compute_scores(
    challenger_class: FighterClass,
    opponent_class: FighterClass,
    challenger_level: u16,
    opponent_level: u16,
    cfg: &BalanceConfig,
) -> (r: (Scores, RpsOutcome))
    ensures
        r.1 == spec_rps_compare(challenger_class, opponent_class),
        r.0.challenger == spec_clip_i32(
            spec_base_scores(r.1, *cfg).0 + spec_ability_power(challenger_level, *cfg)),
        r.0.opponent == spec_clip_i32(
            spec_base_scores(r.1, *cfg).1 + spec_ability_power(opponent_level, *cfg)),
{
    let rps = rps_compare(challenger_class, opponent_class);
    let (base_c, base_o): (i32, i32) = match rps {
        RpsOutcome::ChallengerWin => (cfg.rps_win_base, 0),
        RpsOutcome::OpponentWin => (0, cfg.rps_win_base),
        RpsOutcome::Tie => (cfg.rps_tie_base, cfg.rps_tie_base),
    };
    let bonus_c = ability_power(challenger_level, cfg);
    let bonus_o = ability_power(opponent_level, cfg);
    let scores = Scores {
        challenger: crate::math::i32_saturating_add(base_c, bonus_c),
        opponent: crate::math::i32_saturating_add(base_o, bonus_o),
    };
    (scores, rps)
}

} // verus!
