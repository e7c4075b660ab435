//! The deterministic outcome engine: damage is a pure function of the
//! revealed move, the attacker's record, the defender's class and an
//! entropy value.
//!
//! All multipliers are fixed-point integers.  The class advantage is held
//! in percent (so 125 stands for a 25% bonus), and the player-power and
//! move-outcome multipliers in hundredths (so 149 stands for 1.49).  The
//! damage of an attack with base damage 100 is then exactly
//! `advantage * power * multiplier / 10_000`, truncated, which is the
//! product of the three fractional multipliers with the base.

use vstd::prelude::*;
use crate::player::{FighterClass, MoveChoice, Player};

verus! {

/// Outcome of a single move execution.
#[derive(Clone, Copy, PartialEq, Eq, Structural, Debug)]
pub enum MoveResult {
    BasicHit,
    SpecialMiss,
    SpecialHit,
    SpecialCritical,
}

/// Battle outcome for a single move.
#[derive(Clone, Copy, Debug)]
pub struct BattleOutcome {
    pub damage_dealt: u16,
    pub move_result: MoveResult,
    pub remaining_hp: u16,
}

/// The class-advantage multiplier, in percent: the advantaged attacker
/// deals 125%, the disadvantaged one 80%, same class 100%.
pub open spec fn spec_class_advantage_pct(
    attacker_class: FighterClass,
    defender_class: FighterClass,
) -> int {
    match (attacker_class, defender_class) {
        (FighterClass::Shitposter, FighterClass::VC) => 125,
        (FighterClass::VC, FighterClass::Builder) => 125,
        (FighterClass::Builder, FighterClass::Shitposter) => 125,
        (FighterClass::VC, FighterClass::Shitposter) => 80,
        (FighterClass::Builder, FighterClass::VC) => 80,
        (FighterClass::Shitposter, FighterClass::Builder) => 80,
        _ => 100,
    }
}

/// Class advantage multiplier in percent (rock-paper-scissors cycle).
pub fn get_class_advantage(attacker_class: FighterClass, defender_class: FighterClass) -> (pct: u16)
    ensures
        pct == spec_class_advantage_pct(attacker_class, defender_class),
{
    match (attacker_class, defender_class) {
        (FighterClass::Shitposter, FighterClass::VC) => 125,
        (FighterClass::VC, FighterClass::Builder) => 125,
        (FighterClass::Builder, FighterClass::Shitposter) => 125,
        (FighterClass::VC, FighterClass::Shitposter) => 80,
        (FighterClass::Builder, FighterClass::VC) => 80,
        (FighterClass::Shitposter, FighterClass::Builder) => 80,
        _ => 100,
    }
}

/// The player-power progression multiplier, in hundredths:
/// `1.00 + 0.05 * (sum of ability levels) + 0.02 * floor(xp / 1000)`.
pub open spec fn spec_player_power_centi(player: Player) -> int {
    100 + 5 * (player.abilities@[0] + player.abilities@[1] + player.abilities@[2])
        + 2 * (player.xp as int / 1000)
}

/// Player power progression multiplier in hundredths.  Monotonically
/// non-decreasing in every ability level and in experience.
pub fn calculate_player_power(player: &Player) -> (power_centi: u64)
    ensures
        power_centi == spec_player_power_centi(*player),
{
    let total_levels: u64 =
        player.abilities[0] as u64 + player.abilities[1] as u64 + player.abilities[2] as u64;
    let xp_tier: u64 = player.xp / 1000;
    100 + 5 * total_levels + 2 * xp_tier
}

/// The move-outcome multiplier, in hundredths.  A basic move always hits
/// for 100; a special move rolls `entropy % 100` against its per-move
/// miss/hit/critical table.
pub open spec fn spec_move_multiplier_centi(move_choice: MoveChoice, vrf_result: u64) -> int {
    let roll = vrf_result as int % 100;
    if !move_choice.spec_is_special_move() {
        100
    } else {
        match move_choice {
            MoveChoice::RugPullRumor => if roll < 30 { 0 } else if roll < 80 { 150 } else { 220 },
            MoveChoice::TestnetDeploy => if roll < 25 { 0 } else if roll < 80 { 160 } else { 230 },
            MoveChoice::ExitLiquidity => if roll < 35 { 0 } else if roll < 80 { 140 } else { 200 },
            _ => 100,
        }
    }
}

/// The qualitative result that goes with `spec_move_multiplier_centi`.
pub open spec fn spec_move_result(move_choice: MoveChoice, vrf_result: u64) -> MoveResult {
    let roll = vrf_result as int % 100;
    if !move_choice.spec_is_special_move() {
        MoveResult::BasicHit
    } else {
        match move_choice {
            MoveChoice::RugPullRumor =>
                if roll < 30 { MoveResult::SpecialMiss }
                else if roll < 80 { MoveResult::SpecialHit }
                else { MoveResult::SpecialCritical },
            MoveChoice::TestnetDeploy =>
                if roll < 25 { MoveResult::SpecialMiss }
                else if roll < 80 { MoveResult::SpecialHit }
                else { MoveResult::SpecialCritical },
            MoveChoice::ExitLiquidity =>
                if roll < 35 { MoveResult::SpecialMiss }
                else if roll < 80 { MoveResult::SpecialHit }
                else { MoveResult::SpecialCritical },
            _ => MoveResult::BasicHit,
        }
    }
}

/// Determines the move outcome from the move type and the entropy value:
/// the damage multiplier in hundredths and the qualitative result.
pub fn get_move_outcome(move_choice: MoveChoice, vrf_result: u64) -> (r: (u16, MoveResult))
    ensures
        r.0 == spec_move_multiplier_centi(move_choice, vrf_result),
        r.1 == spec_move_result(move_choice, vrf_result),
{
    if !move_choice.is_special_move() {
        return (100, MoveResult::BasicHit);
    }
    let roll = (vrf_result % 100) as u8;
    match move_choice {
        MoveChoice::RugPullRumor => {
            if roll < 30 {
                (0, MoveResult::SpecialMiss)
            } else if roll < 80 {
                (150, MoveResult::SpecialHit)
            } else {
                (220, MoveResult::SpecialCritical)
            }
        },
        MoveChoice::TestnetDeploy => {
            if roll < 25 {
                (0, MoveResult::SpecialMiss)
            } else if roll < 80 {
                (160, MoveResult::SpecialHit)
            } else {
                (230, MoveResult::SpecialCritical)
            }
        },
        MoveChoice::ExitLiquidity => {
            if roll < 35 {
                (0, MoveResult::SpecialMiss)
            } else if roll < 80 {
                (140, MoveResult::SpecialHit)
            } else {
                (200, MoveResult::SpecialCritical)
            }
        },
        _ => (100, MoveResult::BasicHit),
    }
}

/// Player power never decreases when ability levels and experience only
/// grow: the power multiplier is monotone in every ability level and in
/// experience.  Reveals do not touch the fighter record at all, and
/// resolution only adds experience and keeps the ability levels, so no
/// reveal or resolve operation can lower a fighter's power.
pub proof fn lemma_player_power_monotonic(p1: Player, p2: Player)
    requires
        p1.abilities@[0] <= p2.abilities@[0],
        p1.abilities@[1] <= p2.abilities@[1],
        p1.abilities@[2] <= p2.abilities@[2],
        p1.xp <= p2.xp,
    ensures
        spec_player_power_centi(p1) <= spec_player_power_centi(p2),
{
    vstd::arithmetic::div_mod::lemma_div_is_ordered(p1.xp as int, p2.xp as int, 1000);
}

/// Crediting experience never lowers a fighter's power: the award rule
/// only adds a non-negative, saturating amount to `xp` and leaves the
/// ability levels alone.
pub proof fn lemma_award_keeps_power(p: Player, gain: int)
    requires
        0 <= gain,
    ensures
        spec_player_power_centi(p) <= spec_player_power_centi(
            Player { xp: crate::math::spec_sat_add_u64(p.xp as int, gain) as u64, ..p }),
{
    let p2 = Player { xp: crate::math::spec_sat_add_u64(p.xp as int, gain) as u64, ..p };
    assert(p.xp <= p2.xp);
    lemma_player_power_monotonic(p, p2);
}

/// The exact damage of a move before clamping: base damage 100 times the
/// three fixed-point multipliers, truncated.
pub open spec fn spec_damage_exact(
    move_choice: MoveChoice,
    attacker: Player,
    defender_class: FighterClass,
    vrf_result: u64,
) -> int {
    spec_class_advantage_pct(move_choice.spec_class(), defender_class)
        * spec_player_power_centi(attacker)
        * spec_move_multiplier_centi(move_choice, vrf_result)
        / 10000
}

/// The damage a defender takes, clamped to the range of its counter.
pub open spec fn spec_damage(
    move_choice: MoveChoice,
    attacker: Player,
    defender_class: FighterClass,
    vrf_result: u64,
) -> int {
    let exact = spec_damage_exact(move_choice, attacker, defender_class, vrf_result);
    if exact > u16::MAX { u16::MAX as int } else { exact }
}

/// Calculates the damage dealt by one move.
pub fn calculate_damage(
    move_choice: MoveChoice,
    attacker: &Player,
    defender_class: FighterClass,
    vrf_result: u64,
) -> (damage: u16)
    ensures
        damage == spec_damage(move_choice, *attacker, defender_class, vrf_result),
{
    let class_advantage = get_class_advantage(move_choice.class(), defender_class);
    let player_power = calculate_player_power(attacker);
    let (move_multiplier, _move_result) = get_move_outcome(move_choice, vrf_result);

    proof {
        assert(player_power <= 100 + 5 * (3 * 0xffff) + 2 * (u64::MAX as int / 1000));
        assert(class_advantage * player_power * move_multiplier <= u128::MAX) by (nonlinear_arith)
            requires
                class_advantage <= 125,
                0 <= player_power <= 100 + 5 * (3 * 0xffff) + 2 * (u64::MAX as int / 1000),
                0 <= move_multiplier <= 230,
        ;
    }
    let product: u128 =
        class_advantage as u128 * player_power as u128 * move_multiplier as u128;
    let exact: u128 = product / 10000;
    if exact > u16::MAX as u128 {
        u16::MAX
    } else {
        exact as u16
    }
}

/// Calculates the full outcome of one move against a defender with
/// `defender_hp` hit points: damage, qualitative result, and the
/// defender's remaining hit points (floored at zero).
pub fn calculate_battle_outcome(
    move_choice: MoveChoice,
    attacker: &Player,
    defender_class: FighterClass,
    defender_hp: u16,
    vrf_result: u64,
) -> (outcome: BattleOutcome)
    ensures
        outcome.damage_dealt == spec_damage(move_choice, *attacker, defender_class, vrf_result),
        outcome.move_result == spec_move_result(move_choice, vrf_result),
        outcome.remaining_hp
            == if defender_hp >= outcome.damage_dealt {
                defender_hp - outcome.damage_dealt
            } else {
                0int
            },
{
    let final_damage = calculate_damage(move_choice, attacker, defender_class, vrf_result);
    let (_multiplier, move_result) = get_move_outcome(move_choice, vrf_result);
    let remaining_hp = defender_hp.saturating_sub(final_damage);
    BattleOutcome {
        damage_dealt: final_damage,
        move_result,
        remaining_hp,
    }
}

/// The probability-weighted move multiplier, in hundredths: the mean of
/// the outcome table of the move.
pub open spec fn spec_expected_multiplier_centi(move_choice: MoveChoice) -> int {
    if !move_choice.spec_is_special_move() {
        100
    } else {
        match move_choice {
            MoveChoice::RugPullRumor => 119,
            MoveChoice::TestnetDeploy => 134,
            MoveChoice::ExitLiquidity => 103,
            _ => 100,
        }
    }
}

/// The expected damage of a move, in hundredths of a hit point, for
/// strategic planning: base damage 100 times class advantage, player power
/// and the probability-weighted multiplier, truncated.
pub fn calculate_expected_damage(
    move_choice: MoveChoice,
    attacker: &Player,
    defender_class: FighterClass,
) -> (expected_centi: u64)
    ensures
        expected_centi
            == spec_class_advantage_pct(move_choice.spec_class(), defender_class)
                * spec_player_power_centi(*attacker)
                * spec_expected_multiplier_centi(move_choice)
                / 100,
{
    let class_advantage = get_class_advantage(move_choice.class(), defender_class);
    let player_power = calculate_player_power(attacker);
    let expected_multiplier: u16 = if !move_choice.is_special_move() {
        100
    } else {
        match move_choice {
            MoveChoice::RugPullRumor => 119,
            MoveChoice::TestnetDeploy => 134,
            MoveChoice::ExitLiquidity => 103,
            _ => 100,
        }
    };
    proof {
        assert(player_power <= 100 + 5 * (3 * 0xffff) + 2 * (u64::MAX as int / 1000));
        assert(class_advantage * player_power * expected_multiplier / 100 <= u64::MAX)
            by (nonlinear_arith)
            requires
                class_advantage <= 125,
                0 <= player_power <= 100 + 5 * (3 * 0xffff) + 2 * (u64::MAX as int / 1000),
                0 <= expected_multiplier <= 134,
        ;
    }
    let product: u128 =
        class_advantage as u128 * player_power as u128 * expected_multiplier as u128;
    (product / 100) as u64
}

} // verus!
