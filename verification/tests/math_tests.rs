use defighter::battle_math::{
    calculate_battle_outcome, calculate_damage, calculate_expected_damage, calculate_player_power,
    get_class_advantage, get_move_outcome, MoveResult,
};
use defighter::config::{init_config, BalanceConfig};
use defighter::identity::Identity;
use defighter::math::{ability_power, integer_sqrt, powi_u64, upgrade_cost, u64_saturating_mul};
use defighter::player::{create_player, FighterClass, MoveChoice, Player};
use defighter::rps::{rps_compare, RpsOutcome};
use defighter::scoring::compute_scores;

fn test_config() -> BalanceConfig {
    init_config(
        Identity([0u8; 32]),
        10,    // base
        5,     // linear_a
        100,   // dim_k
        10,    // dim_t
        10,    // max_level
        false, // tie_break_rand
        false, // use_dim_bonus
        100,   // xp_base
        5000,  // xp_tie_bps
        2500,  // xp_loser_bps
        100,   // upgrade_c0
        10000, // upgrade_p_bps
        50,    // rps_win_base
        10,    // rps_tie_base
    )
}

fn fresh_player(class: FighterClass) -> Player {
    create_player(Identity([1u8; 32]), class)
}

// Class advantage multipliers are held in percent: 125 stands for the
// 1.25 bonus and 80 for the 0.80 penalty of the class triangle.
#[test]
fn test_class_advantages() {
    // Shitposter > VC
    assert_eq!(get_class_advantage(FighterClass::Shitposter, FighterClass::VC), 125);
    assert_eq!(get_class_advantage(FighterClass::VC, FighterClass::Shitposter), 80);

    // VC > Builder
    assert_eq!(get_class_advantage(FighterClass::VC, FighterClass::Builder), 125);
    assert_eq!(get_class_advantage(FighterClass::Builder, FighterClass::VC), 80);

    // Builder > Shitposter
    assert_eq!(get_class_advantage(FighterClass::Builder, FighterClass::Shitposter), 125);
    assert_eq!(get_class_advantage(FighterClass::Shitposter, FighterClass::Builder), 80);
}

// Player power is held in hundredths: 149 stands for the 1.49 power
// multiplier.
#[test]
fn test_player_power() {
    let player = Player {
        authority: Identity([0u8; 32]),
        class: FighterClass::Shitposter,
        xp: 2500,             // Tier 2
        abilities: [4, 3, 2], // 9 total levels
        elo: 1000,
        version: 1,
    };

    // Expected: 1.00 + (9 * 0.05) + (2 * 0.02) = 1.49
    assert_eq!(calculate_player_power(&player), 149);
}

#[test]
fn class_advantage_same_class_is_neutral() {
    assert_eq!(get_class_advantage(FighterClass::VC, FighterClass::VC), 100);
    assert_eq!(get_class_advantage(FighterClass::Builder, FighterClass::Builder), 100);
    assert_eq!(get_class_advantage(FighterClass::Shitposter, FighterClass::Shitposter), 100);
}

// Base damage 100, meme class attacking venture class (advantaged, x1.25),
// attacker power 1.0, basic move (x1.0): damage 125 takes a 100 HP
// defender to zero, so the attacker wins that exchange.
#[test]
fn advantaged_basic_move_deals_125() {
    let attacker = fresh_player(FighterClass::Shitposter);
    let damage = calculate_damage(MoveChoice::MemeBomb, &attacker, FighterClass::VC, 42);
    assert_eq!(damage, 125);

    let outcome = calculate_battle_outcome(MoveChoice::MemeBomb, &attacker, FighterClass::VC, 100, 42);
    assert_eq!(outcome.damage_dealt, 125);
    assert_eq!(outcome.remaining_hp, 0);
    assert_eq!(outcome.move_result, MoveResult::BasicHit);
}

// The outcome table of one special move: roll below 30 misses (x0.0),
// rolls 30..79 hit (x1.5), rolls 80 and above crit (x2.2); the roll is
// the entropy value modulo 100.
#[test]
fn rug_pull_rumor_outcome_table() {
    let (m, r) = get_move_outcome(MoveChoice::RugPullRumor, 0);
    assert_eq!((m, r), (0, MoveResult::SpecialMiss));
    let (m, r) = get_move_outcome(MoveChoice::RugPullRumor, 29);
    assert_eq!((m, r), (0, MoveResult::SpecialMiss));
    let (m, r) = get_move_outcome(MoveChoice::RugPullRumor, 30);
    assert_eq!((m, r), (150, MoveResult::SpecialHit));
    let (m, r) = get_move_outcome(MoveChoice::RugPullRumor, 79);
    assert_eq!((m, r), (150, MoveResult::SpecialHit));
    let (m, r) = get_move_outcome(MoveChoice::RugPullRumor, 80);
    assert_eq!((m, r), (220, MoveResult::SpecialCritical));
    let (m, r) = get_move_outcome(MoveChoice::RugPullRumor, 99);
    assert_eq!((m, r), (220, MoveResult::SpecialCritical));
    // the roll is taken modulo 100
    let (m, r) = get_move_outcome(MoveChoice::RugPullRumor, 129);
    assert_eq!((m, r), (0, MoveResult::SpecialMiss));
    let (m, r) = get_move_outcome(MoveChoice::RugPullRumor, 10_000_000_080);
    assert_eq!((m, r), (220, MoveResult::SpecialCritical));
}

#[test]
fn other_special_moves_outcome_tables() {
    let (m, r) = get_move_outcome(MoveChoice::TestnetDeploy, 24);
    assert_eq!((m, r), (0, MoveResult::SpecialMiss));
    let (m, r) = get_move_outcome(MoveChoice::TestnetDeploy, 25);
    assert_eq!((m, r), (160, MoveResult::SpecialHit));
    let (m, r) = get_move_outcome(MoveChoice::TestnetDeploy, 85);
    assert_eq!((m, r), (230, MoveResult::SpecialCritical));
    let (m, r) = get_move_outcome(MoveChoice::ExitLiquidity, 34);
    assert_eq!((m, r), (0, MoveResult::SpecialMiss));
    let (m, r) = get_move_outcome(MoveChoice::ExitLiquidity, 35);
    assert_eq!((m, r), (140, MoveResult::SpecialHit));
    let (m, r) = get_move_outcome(MoveChoice::ExitLiquidity, 99);
    assert_eq!((m, r), (200, MoveResult::SpecialCritical));
    let (m, r) = get_move_outcome(MoveChoice::ShipIt, 0);
    assert_eq!((m, r), (100, MoveResult::BasicHit));
}

#[test]
fn damage_scales_with_power_and_multiplier() {
    // power 1.49, advantage 1.25, critical 2.2:
    // 100 * 1.25 * 1.49 * 2.2 = 409.75, truncated to 409
    let attacker = Player {
        authority: Identity([1u8; 32]),
        class: FighterClass::Shitposter,
        xp: 2500,
        abilities: [4, 3, 2],
        elo: 1000,
        version: 1,
    };
    let damage = calculate_damage(MoveChoice::RugPullRumor, &attacker, FighterClass::VC, 80);
    assert_eq!(damage, 409);
}

#[test]
fn expected_damage_is_the_weighted_mean_in_centi_hp() {
    // 100 * 1.25 * 1.0 * 1.19 = 148.75 damage, reported as 14875
    let attacker = fresh_player(FighterClass::Shitposter);
    let expected = calculate_expected_damage(MoveChoice::RugPullRumor, &attacker, FighterClass::VC);
    assert_eq!(expected, 14875);
    let expected_basic = calculate_expected_damage(MoveChoice::MemeBomb, &attacker, FighterClass::VC);
    assert_eq!(expected_basic, 12500);
}

#[test]
fn move_choice_classes_and_bytes() {
    assert_eq!(MoveChoice::MemeBomb.class(), FighterClass::Shitposter);
    assert_eq!(MoveChoice::RugPullRumor.class(), FighterClass::Shitposter);
    assert_eq!(MoveChoice::ShipIt.class(), FighterClass::Builder);
    assert_eq!(MoveChoice::TestnetDeploy.class(), FighterClass::Builder);
    assert_eq!(MoveChoice::SeriesACannon.class(), FighterClass::VC);
    assert_eq!(MoveChoice::ExitLiquidity.class(), FighterClass::VC);
    assert!(!MoveChoice::MemeBomb.is_special_move());
    assert!(MoveChoice::RugPullRumor.is_special_move());
    assert!(!MoveChoice::ShipIt.is_special_move());
    assert!(MoveChoice::TestnetDeploy.is_special_move());
    assert!(!MoveChoice::SeriesACannon.is_special_move());
    assert!(MoveChoice::ExitLiquidity.is_special_move());
    for (i, m) in [
        MoveChoice::MemeBomb,
        MoveChoice::RugPullRumor,
        MoveChoice::ShipIt,
        MoveChoice::TestnetDeploy,
        MoveChoice::SeriesACannon,
        MoveChoice::ExitLiquidity,
    ]
    .iter()
    .enumerate()
    {
        assert_eq!(m.to_byte(), i as u8);
    }
}

#[test]
fn integer_sqrt_floors() {
    assert_eq!(integer_sqrt(0), 0);
    assert_eq!(integer_sqrt(1), 1);
    assert_eq!(integer_sqrt(2), 1);
    assert_eq!(integer_sqrt(3), 1);
    assert_eq!(integer_sqrt(4), 2);
    assert_eq!(integer_sqrt(15), 3);
    assert_eq!(integer_sqrt(16), 4);
    assert_eq!(integer_sqrt(65535), 255);
    assert_eq!(integer_sqrt(65536), 256);
    assert_eq!(integer_sqrt(u64::MAX - 1), 4294967295);
}

#[test]
fn powi_u64_small_and_saturating() {
    assert_eq!(powi_u64(2, 10), 1024);
    assert_eq!(powi_u64(3, 4), 81);
    assert_eq!(powi_u64(7, 0), 1);
    assert_eq!(powi_u64(0, 5), 0);
    assert_eq!(powi_u64(1, 1000), 1);
    assert_eq!(powi_u64(2, 63), 1u64 << 63);
    assert_eq!(powi_u64(2, 64), u64::MAX);
}

#[test]
fn saturating_mul_clamps() {
    assert_eq!(u64_saturating_mul(3, 4), 12);
    assert_eq!(u64_saturating_mul(u64::MAX, 2), u64::MAX);
}

// Upgrade costs under the linear curve: c0 * level.
#[test]
fn upgrade_cost_linear() {
    let cfg = test_config();
    assert_eq!(upgrade_cost(1, &cfg), 100);
    assert_eq!(upgrade_cost(2, &cfg), 200);
    assert_eq!(upgrade_cost(10, &cfg), 1000);
    // strictly increasing on consecutive levels
    for next in 2..20u16 {
        assert!(upgrade_cost(next - 1, &cfg) < upgrade_cost(next, &cfg));
    }
}

// Upgrade costs under the approximated 1.4-exponent curve:
// c0 * level * fourth_root(level).
#[test]
fn upgrade_cost_power_curve() {
    let mut cfg = test_config();
    cfg.upgrade_p_bps = 14000;
    // level 4: sqrt(4) = 2, sqrt(2) = 1, cost = 100 * 4 * 1
    assert_eq!(upgrade_cost(4, &cfg), 400);
    // level 16: sqrt(16) = 4, sqrt(4) = 2, cost = 100 * 16 * 2
    assert_eq!(upgrade_cost(16, &cfg), 3200);
    // level 17: sqrt(17) = 4, sqrt(4) = 2, cost = 100 * 17 * 2
    assert_eq!(upgrade_cost(17, &cfg), 3400);
    // strictly increasing on consecutive levels
    for next in 2..200u16 {
        assert!(upgrade_cost(next - 1, &cfg) < upgrade_cost(next, &cfg));
    }
}

#[test]
fn ability_power_linear_and_diminishing() {
    let cfg = test_config();
    // linear: 10 + 5 * 3
    assert_eq!(ability_power(3, &cfg), 25);
    assert_eq!(ability_power(0, &cfg), 10);

    let mut dim_cfg = test_config();
    dim_cfg.use_dim_bonus = true;
    // diminishing: 10 + (100 * 10) / (10 + 10)
    assert_eq!(ability_power(10, &dim_cfg), 60);
    // zero-denominator guard: dim_t = -3, level = 3 gives denominator 1
    dim_cfg.dim_t = -3;
    assert_eq!(ability_power(3, &dim_cfg), 10 + 300);
    // negative denominator is also clamped to 1
    dim_cfg.dim_t = -10;
    assert_eq!(ability_power(3, &dim_cfg), 10 + 300);
}

#[test]
fn rps_cycle() {
    assert!(rps_compare(FighterClass::Shitposter, FighterClass::VC) == RpsOutcome::ChallengerWin);
    assert!(rps_compare(FighterClass::VC, FighterClass::Builder) == RpsOutcome::ChallengerWin);
    assert!(rps_compare(FighterClass::Builder, FighterClass::Shitposter) == RpsOutcome::ChallengerWin);
    assert!(rps_compare(FighterClass::VC, FighterClass::Shitposter) == RpsOutcome::OpponentWin);
    assert!(rps_compare(FighterClass::Builder, FighterClass::VC) == RpsOutcome::OpponentWin);
    assert!(rps_compare(FighterClass::Shitposter, FighterClass::Builder) == RpsOutcome::OpponentWin);
    assert!(rps_compare(FighterClass::VC, FighterClass::VC) == RpsOutcome::Tie);
}

#[test]
fn scores_add_base_and_bonus() {
    let cfg = test_config();
    let (scores, rps) = compute_scores(FighterClass::Shitposter, FighterClass::VC, 3, 2, &cfg);
    assert!(rps == RpsOutcome::ChallengerWin);
    // challenger: 50 + (10 + 5 * 3); opponent: 0 + (10 + 5 * 2)
    assert_eq!(scores.challenger, 75);
    assert_eq!(scores.opponent, 20);

    let (tie_scores, tie) = compute_scores(FighterClass::VC, FighterClass::VC, 0, 0, &cfg);
    assert!(tie == RpsOutcome::Tie);
    assert_eq!(tie_scores.challenger, 20);
    assert_eq!(tie_scores.opponent, 20);
}

#[test]
fn player_power_monotone_in_xp_tiers() {
    let mut p = fresh_player(FighterClass::Builder);
    assert_eq!(calculate_player_power(&p), 100);
    p.xp = 999;
    assert_eq!(calculate_player_power(&p), 100);
    p.xp = 1000;
    assert_eq!(calculate_player_power(&p), 102);
    p.abilities = [1, 0, 0];
    assert_eq!(calculate_player_power(&p), 107);
}
