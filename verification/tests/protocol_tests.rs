use defighter::battle::{initiate_battle, Battle, BattleState, STARTING_HP};
use defighter::config::{admin_update_config, init_config, BalanceConfig};
use defighter::customization::{
    create_character_customization, update_character_customization, CharacterCustomizationDataV1,
};
use defighter::errors::CustomError;
use defighter::identity::Identity;
use defighter::player::{create_player, FighterClass, MoveChoice, Player};
use defighter::protocol::{commit_move, reveal_move};
use defighter::resolve::resolve_battle;
use defighter::upgrade::upgrade_ability;
use defighter::vrf::{commitment_hash, tie_break_entropy};

fn test_config() -> BalanceConfig {
    init_config(
        Identity([9u8; 32]),
        10,
        5,
        100,
        10,
        10,
        false,
        false,
        100,   // xp_base
        5000,
        2500,  // xp_loser_bps
        100,
        10000,
        50,
        10,
    )
}

struct Duel {
    battle: Battle,
    battle_key: Identity,
    challenger: Identity,
    opponent: Identity,
    challenger_player: Player,
    opponent_player: Player,
    challenger_salt: [u8; 32],
    opponent_salt: [u8; 32],
}

fn fresh_duel() -> Duel {
    let battle_key = Identity([7u8; 32]);
    let challenger = Identity([1u8; 32]);
    let opponent = Identity([2u8; 32]);
    let (battle, ev) = initiate_battle(battle_key, challenger, opponent, 1, 100, 100, 10);
    assert_eq!(ev.commit_deadline_slot, 110);
    assert_eq!(ev.reveal_deadline_slot, 210);
    Duel {
        battle,
        battle_key,
        challenger,
        opponent,
        challenger_player: create_player(challenger, FighterClass::Shitposter),
        opponent_player: create_player(opponent, FighterClass::VC),
        challenger_salt: [11u8; 32],
        opponent_salt: [22u8; 32],
    }
}

// Runs both commits and both reveals; the moves must belong to the
// fighters' classes.
fn commit_and_reveal(duel: &mut Duel, c_move: MoveChoice, o_move: MoveChoice) {
    let c_hash = commitment_hash(c_move, &duel.challenger_salt, &duel.challenger, &duel.battle_key);
    let o_hash = commitment_hash(o_move, &duel.opponent_salt, &duel.opponent, &duel.battle_key);
    assert!(commit_move(&mut duel.battle, &duel.battle_key, &duel.challenger, 20, c_hash).is_ok());
    assert!(commit_move(&mut duel.battle, &duel.battle_key, &duel.opponent, 21, o_hash).is_ok());
    assert!(matches!(duel.battle.state, BattleState::WaitingForReveals));
    let r = reveal_move(
        &mut duel.battle,
        &duel.battle_key,
        &duel.challenger,
        &duel.challenger_player,
        120,
        c_move,
        &duel.challenger_salt,
    );
    assert!(r.is_ok());
    let r = reveal_move(
        &mut duel.battle,
        &duel.battle_key,
        &duel.opponent,
        &duel.opponent_player,
        121,
        o_move,
        &duel.opponent_salt,
    );
    assert!(r.is_ok());
}

#[test]
fn battle_starts_with_full_hp_and_no_commitments() {
    let duel = fresh_duel();
    assert_eq!(duel.battle.challenger_hp, STARTING_HP);
    assert_eq!(duel.battle.opponent_hp, STARTING_HP);
    assert!(duel.battle.commit_challenger.is_none());
    assert!(duel.battle.commit_opponent.is_none());
    assert!(duel.battle.winner.is_none());
    assert!(matches!(duel.battle.state, BattleState::WaitingForCommits));
}

#[test]
fn initiate_battle_deadlines_saturate() {
    let key = Identity([0u8; 32]);
    let (battle, _) = initiate_battle(key, key, key, 0, u64::MAX, 5, 10);
    assert_eq!(battle.commit_deadline_slot, u64::MAX);
    assert_eq!(battle.reveal_deadline_slot, u64::MAX);
}

#[test]
fn commit_rejections() {
    let mut duel = fresh_duel();
    let hash = [5u8; 32];
    // third party
    let stranger = Identity([99u8; 32]);
    assert!(matches!(
        commit_move(&mut duel.battle, &duel.battle_key, &stranger, 20, hash),
        Err(CustomError::NotInBattle)
    ));
    // past the commit deadline
    assert!(matches!(
        commit_move(&mut duel.battle, &duel.battle_key, &duel.challenger, 111, hash),
        Err(CustomError::DeadlinePassed)
    ));
    // double commit
    assert!(commit_move(&mut duel.battle, &duel.battle_key, &duel.challenger, 20, hash).is_ok());
    assert!(matches!(
        commit_move(&mut duel.battle, &duel.battle_key, &duel.challenger, 21, hash),
        Err(CustomError::AlreadyCommitted)
    ));
    // wrong state: commits are closed once reveals begin
    assert!(commit_move(&mut duel.battle, &duel.battle_key, &duel.opponent, 22, hash).is_ok());
    assert!(matches!(
        commit_move(&mut duel.battle, &duel.battle_key, &duel.challenger, 23, hash),
        Err(CustomError::NotReadyToResolve)
    ));
}

// Round trip: a reveal succeeds exactly when the recomputed hash matches
// the stored commitment.
#[test]
fn reveal_round_trip_and_rejections() {
    let mut duel = fresh_duel();
    let c_move = MoveChoice::MemeBomb;
    let c_hash = commitment_hash(c_move, &duel.challenger_salt, &duel.challenger, &duel.battle_key);
    let o_hash = commitment_hash(
        MoveChoice::SeriesACannon,
        &duel.opponent_salt,
        &duel.opponent,
        &duel.battle_key,
    );
    // reveals are rejected while commits are still open
    assert!(matches!(
        reveal_move(
            &mut duel.battle,
            &duel.battle_key,
            &duel.challenger,
            &duel.challenger_player,
            30,
            c_move,
            &duel.challenger_salt,
        ),
        Err(CustomError::NotReadyToResolve)
    ));
    assert!(commit_move(&mut duel.battle, &duel.battle_key, &duel.challenger, 20, c_hash).is_ok());
    assert!(commit_move(&mut duel.battle, &duel.battle_key, &duel.opponent, 21, o_hash).is_ok());

    // wrong salt: the recomputed hash differs, so the reveal is rejected
    let wrong_salt = [12u8; 32];
    assert!(matches!(
        reveal_move(
            &mut duel.battle,
            &duel.battle_key,
            &duel.challenger,
            &duel.challenger_player,
            120,
            c_move,
            &wrong_salt,
        ),
        Err(CustomError::InvalidReveal)
    ));
    // wrong move: also a hash mismatch, and the move still matches the class
    assert!(matches!(
        reveal_move(
            &mut duel.battle,
            &duel.battle_key,
            &duel.challenger,
            &duel.challenger_player,
            120,
            MoveChoice::RugPullRumor,
            &duel.challenger_salt,
        ),
        Err(CustomError::InvalidReveal)
    ));
    // a move of another class is rejected before the hash is checked
    assert!(matches!(
        reveal_move(
            &mut duel.battle,
            &duel.battle_key,
            &duel.challenger,
            &duel.challenger_player,
            120,
            MoveChoice::ShipIt,
            &duel.challenger_salt,
        ),
        Err(CustomError::InvalidClassMove)
    ));
    // past the reveal deadline
    assert!(matches!(
        reveal_move(
            &mut duel.battle,
            &duel.battle_key,
            &duel.challenger,
            &duel.challenger_player,
            211,
            c_move,
            &duel.challenger_salt,
        ),
        Err(CustomError::RevealDeadlinePassed)
    ));
    // the matching reveal is accepted
    let ev = reveal_move(
        &mut duel.battle,
        &duel.battle_key,
        &duel.challenger,
        &duel.challenger_player,
        120,
        c_move,
        &duel.challenger_salt,
    )
    .unwrap();
    assert_eq!(ev.move_choice, c_move);
    // a second reveal from the same side is rejected
    assert!(matches!(
        reveal_move(
            &mut duel.battle,
            &duel.battle_key,
            &duel.challenger,
            &duel.challenger_player,
            121,
            c_move,
            &duel.challenger_salt,
        ),
        Err(CustomError::AlreadyRevealed)
    ));
}

// Base damage 100, meme class attacking venture class with a basic move
// at power 1.0: 125 damage empties the defender's 100 HP and the
// challenger wins the exchange.
#[test]
fn advantaged_basic_exchange_resolves_for_challenger() {
    let mut duel = fresh_duel();
    let cfg = test_config();
    commit_and_reveal(&mut duel, MoveChoice::MemeBomb, MoveChoice::SeriesACannon);
    let (resolved, winner_award, loser_award) = resolve_battle(
        &mut duel.battle,
        &mut duel.challenger_player,
        &mut duel.opponent_player,
        &cfg,
        &duel.battle_key,
        130,
    )
    .unwrap();
    // challenger's meme-class move is advantaged over the venture class:
    // 125 damage, opponent HP 100 -> 0; the opponent's counter is
    // disadvantaged: 80 damage, challenger HP 100 -> 20
    assert_eq!(resolved.challenger_damage, 125);
    assert_eq!(resolved.opponent_damage, 80);
    assert_eq!(resolved.opponent_hp, 0);
    assert_eq!(resolved.challenger_hp, 20);
    assert_eq!(resolved.winner, duel.challenger);
    assert_eq!(duel.battle.winner, Some(duel.challenger));
    assert!(matches!(duel.battle.state, BattleState::Resolved));
    // experience: winner gets xp_base, loser the basis-point share
    assert_eq!(duel.challenger_player.xp, 100);
    assert_eq!(duel.opponent_player.xp, 25);
    assert_eq!(winner_award.player, duel.challenger);
    assert_eq!(winner_award.delta, 100);
    assert_eq!(loser_award.player, duel.opponent);
    assert_eq!(loser_award.delta, 25);
}

// Re-running resolution with identical revealed moves, identical salts
// and identical battle identity reproduces identical damage and winner.
#[test]
fn resolution_is_deterministic() {
    let cfg = test_config();
    let mut first = fresh_duel();
    let mut second = fresh_duel();
    commit_and_reveal(&mut first, MoveChoice::RugPullRumor, MoveChoice::ExitLiquidity);
    commit_and_reveal(&mut second, MoveChoice::RugPullRumor, MoveChoice::ExitLiquidity);
    let (r1, _, _) = resolve_battle(
        &mut first.battle,
        &mut first.challenger_player,
        &mut first.opponent_player,
        &cfg,
        &first.battle_key,
        130,
    )
    .unwrap();
    let (r2, _, _) = resolve_battle(
        &mut second.battle,
        &mut second.challenger_player,
        &mut second.opponent_player,
        &cfg,
        &second.battle_key,
        130,
    )
    .unwrap();
    assert_eq!(r1.challenger_damage, r2.challenger_damage);
    assert_eq!(r1.opponent_damage, r2.opponent_damage);
    assert_eq!(r1.challenger_hp, r2.challenger_hp);
    assert_eq!(r1.opponent_hp, r2.opponent_hp);
    assert_eq!(r1.winner, r2.winner);
    assert_eq!(first.battle.winner, second.battle.winner);
}

// The two attack directions are independently seeded: swapping the move
// byte order gives a different entropy value.
#[test]
fn entropy_direction_is_independent() {
    let key = Identity([7u8; 32]);
    let zero = [0u8; 32];
    let forward = tie_break_entropy(0, 5, &zero, &zero, &key);
    let backward = tie_break_entropy(5, 0, &zero, &zero, &key);
    assert_ne!(forward, backward);
    // and the same inputs reproduce the same value
    assert_eq!(forward, tie_break_entropy(0, 5, &zero, &zero, &key));
}

// Resolving the same battle twice: the second call always fails with the
// terminal-state error and changes nothing.
#[test]
fn resolve_twice_fails_terminally() {
    let mut duel = fresh_duel();
    let cfg = test_config();
    commit_and_reveal(&mut duel, MoveChoice::MemeBomb, MoveChoice::SeriesACannon);
    assert!(resolve_battle(
        &mut duel.battle,
        &mut duel.challenger_player,
        &mut duel.opponent_player,
        &cfg,
        &duel.battle_key,
        130,
    )
    .is_ok());
    let battle_before = duel.battle.clone();
    let xp_before = (duel.challenger_player.xp, duel.opponent_player.xp);
    let second = resolve_battle(
        &mut duel.battle,
        &mut duel.challenger_player,
        &mut duel.opponent_player,
        &cfg,
        &duel.battle_key,
        140,
    );
    assert!(matches!(second, Err(CustomError::AlreadyResolved)));
    assert!(matches!(duel.battle.state, BattleState::Resolved));
    assert_eq!(duel.battle.winner, battle_before.winner);
    assert_eq!(duel.battle.challenger_hp, battle_before.challenger_hp);
    assert_eq!(duel.battle.opponent_hp, battle_before.opponent_hp);
    assert_eq!((duel.challenger_player.xp, duel.opponent_player.xp), xp_before);
}

#[test]
fn resolve_too_early_is_rejected() {
    let mut duel = fresh_duel();
    let cfg = test_config();
    let r = resolve_battle(
        &mut duel.battle,
        &mut duel.challenger_player,
        &mut duel.opponent_player,
        &cfg,
        &duel.battle_key,
        130,
    );
    assert!(matches!(r, Err(CustomError::NotReadyToResolve)));
    assert!(matches!(duel.battle.state, BattleState::WaitingForCommits));
}

// Forfeit ordering: a battle where only the challenger revealed resolves
// with the challenger as winner, with either tie-break flag.
#[test]
fn forfeit_only_challenger_revealed_wins() {
    for tie_break_rand in [false, true] {
        let mut duel = fresh_duel();
        let mut cfg = test_config();
        cfg.tie_break_rand = tie_break_rand;
        let c_move = MoveChoice::MemeBomb;
        let c_hash =
            commitment_hash(c_move, &duel.challenger_salt, &duel.challenger, &duel.battle_key);
        let o_hash = commitment_hash(
            MoveChoice::SeriesACannon,
            &duel.opponent_salt,
            &duel.opponent,
            &duel.battle_key,
        );
        assert!(commit_move(&mut duel.battle, &duel.battle_key, &duel.challenger, 20, c_hash).is_ok());
        assert!(commit_move(&mut duel.battle, &duel.battle_key, &duel.opponent, 21, o_hash).is_ok());
        assert!(reveal_move(
            &mut duel.battle,
            &duel.battle_key,
            &duel.challenger,
            &duel.challenger_player,
            120,
            c_move,
            &duel.challenger_salt,
        )
        .is_ok());
        // past the reveal deadline, with the opponent silent
        let (resolved, _, _) = resolve_battle(
            &mut duel.battle,
            &mut duel.challenger_player,
            &mut duel.opponent_player,
            &cfg,
            &duel.battle_key,
            211,
        )
        .unwrap();
        assert_eq!(resolved.winner, duel.challenger);
        assert_eq!(resolved.challenger_damage, 0);
        assert_eq!(resolved.opponent_damage, 0);
        // no damage is computed on the forfeit path
        assert_eq!(duel.battle.challenger_hp, STARTING_HP);
        assert_eq!(duel.battle.opponent_hp, STARTING_HP);
    }
}

#[test]
fn forfeit_committed_beats_silent_and_default_is_challenger() {
    let cfg = test_config();
    // only the opponent committed: the opponent wins
    let mut duel = fresh_duel();
    let o_hash = commitment_hash(
        MoveChoice::SeriesACannon,
        &duel.opponent_salt,
        &duel.opponent,
        &duel.battle_key,
    );
    assert!(commit_move(&mut duel.battle, &duel.battle_key, &duel.opponent, 21, o_hash).is_ok());
    let (resolved, _, _) = resolve_battle(
        &mut duel.battle,
        &mut duel.challenger_player,
        &mut duel.opponent_player,
        &cfg,
        &duel.battle_key,
        211,
    )
    .unwrap();
    assert_eq!(resolved.winner, duel.opponent);
    // the winning opponent is credited the full award
    assert_eq!(duel.opponent_player.xp, 100);
    assert_eq!(duel.challenger_player.xp, 25);

    // nobody participated at all: the challenger wins by default
    let mut silent = fresh_duel();
    let (resolved, _, _) = resolve_battle(
        &mut silent.battle,
        &mut silent.challenger_player,
        &mut silent.opponent_player,
        &cfg,
        &silent.battle_key,
        211,
    )
    .unwrap();
    assert_eq!(resolved.winner, silent.challenger);
}

#[test]
fn upgrade_ability_spends_xp_and_raises_level() {
    let cfg = test_config();
    let player_key = Identity([3u8; 32]);
    let mut player = create_player(Identity([1u8; 32]), FighterClass::Builder);
    player.xp = 150;
    let ev = upgrade_ability(&mut player, &player_key, &cfg, 1).unwrap();
    assert_eq!(ev.new_level, 1);
    assert_eq!(ev.cost, 100);
    assert_eq!(ev.ability_index, 1);
    assert_eq!(player.abilities, [0, 1, 0]);
    assert_eq!(player.xp, 50);
}

#[test]
fn upgrade_rejections() {
    let mut cfg = test_config();
    let player_key = Identity([3u8; 32]);
    let mut player = create_player(Identity([1u8; 32]), FighterClass::Builder);
    // bad index
    assert!(matches!(
        upgrade_ability(&mut player, &player_key, &cfg, 3),
        Err(CustomError::InvalidAbility)
    ));
    // cannot pay
    player.xp = 99;
    assert!(matches!(
        upgrade_ability(&mut player, &player_key, &cfg, 0),
        Err(CustomError::NotEnoughXP)
    ));
    assert_eq!(player.abilities, [0, 0, 0]);
    assert_eq!(player.xp, 99);
    // level cap
    cfg.max_level = 0;
    assert!(matches!(
        upgrade_ability(&mut player, &player_key, &cfg, 0),
        Err(CustomError::MaxLevel)
    ));
}

#[test]
fn config_update_preserves_admin() {
    let mut cfg = test_config();
    let admin = cfg.admin;
    let mut new_cfg = test_config();
    new_cfg.admin = Identity([55u8; 32]);
    new_cfg.xp_base = 777;
    admin_update_config(&mut cfg, new_cfg);
    assert_eq!(cfg.admin, admin);
    assert_eq!(cfg.xp_base, 777);
}

#[test]
fn customization_create_and_update() {
    let authority = Identity([1u8; 32]);
    let player_key = Identity([8u8; 32]);
    let player = create_player(authority, FighterClass::VC);
    let data = CharacterCustomizationDataV1 {
        gender: 1,
        palette_index: 2,
        skin_tone_index: 3,
        hair_style_index: 4,
        hair_color_index: 5,
        outfit_style_index: 1,
        outfit_color_index: 2,
        face_flags: 0b10101,
        accessory_slots: [255, 1],
    };
    let stranger = Identity([42u8; 32]);
    assert!(matches!(
        create_character_customization(&player, &player_key, &stranger, data),
        Err(CustomError::Unauthorized)
    ));
    let mut acct = create_character_customization(&player, &player_key, &authority, data).unwrap();
    assert_eq!(acct.player, player_key);
    assert_eq!(acct.version, 1);
    assert_eq!(acct.gender, 1);
    assert_eq!(acct.face_flags, 0b10101);
    assert_eq!(acct.reserved, [0u8; 24]);

    let new_data = CharacterCustomizationDataV1 { gender: 2, ..data };
    assert!(matches!(
        update_character_customization(&player, &stranger, &mut acct, new_data),
        Err(CustomError::Unauthorized)
    ));
    assert_eq!(acct.gender, 1);
    assert!(update_character_customization(&player, &authority, &mut acct, new_data).is_ok());
    assert_eq!(acct.gender, 2);
    assert_eq!(acct.player, player_key);
    assert_eq!(acct.version, 1);
}

// A commitment accepted for one battle cannot be replayed in another:
// the battle identity is bound into the hash.
#[test]
fn commitment_is_bound_to_battle_and_participant() {
    let duel = fresh_duel();
    let other_key = Identity([77u8; 32]);
    let h1 = commitment_hash(
        MoveChoice::MemeBomb,
        &duel.challenger_salt,
        &duel.challenger,
        &duel.battle_key,
    );
    let h2 = commitment_hash(
        MoveChoice::MemeBomb,
        &duel.challenger_salt,
        &duel.challenger,
        &other_key,
    );
    let h3 = commitment_hash(
        MoveChoice::MemeBomb,
        &duel.challenger_salt,
        &duel.opponent,
        &duel.battle_key,
    );
    assert_ne!(h1, h2);
    assert_ne!(h1, h3);
}
