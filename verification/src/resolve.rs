//! Battle resolution: once both moves are revealed, or the reveal
//! deadline has elapsed, anyone may resolve the battle.  Normal
//! resolution runs the outcome engine once per attacker with
//! independently derived entropy and applies both results
//! simultaneously; forfeit resolution favours whichever side progressed
//! further through the protocol.  Both paths credit experience and make
//! the battle terminal.

use vstd::prelude::*;
use crate::battle::{Battle, BattleState};
use crate::battle_math::{calculate_battle_outcome, spec_damage};
use crate::config::BalanceConfig;
use crate::errors::CustomError;
use crate::events::{BattleResolved, XpAwarded};
use crate::identity::Identity;
use crate::math::{spec_sat_add_u64, spec_sat_mul_u64, u64_saturating_mul};
use crate::player::Player;
use crate::vrf::{spec_tie_break_entropy, tie_break_entropy};

verus! {

/// The all-zero salt block used as the fixed-length byte context of the
/// entropy derivation.
pub open spec fn spec_zero_salt() -> Seq<u8> {
    Seq::new(32, |i: int| 0u8)
}

/// Whether both participants have revealed their moves.
pub open spec fn spec_both_revealed(b: Battle) -> bool {
    b.reveal_challenger is Some && b.reveal_opponent is Some
}

/// Resolution is permitted once both moves are revealed or the reveal
/// deadline has elapsed, whichever comes first.
pub open spec fn spec_resolve_permitted(b: Battle, now_slot: u64) -> bool {
    spec_both_revealed(b) || now_slot > b.reveal_deadline_slot
}

/// The winner of a forfeited battle: a side that revealed beats a side
/// that did not; failing that, a side that committed beats a side that
/// did not; if neither side participated, the challenger wins by default
/// so the battle can always be closed out.
pub open spec fn spec_forfeit_winner(b: Battle) -> Identity {
    if b.reveal_challenger is Some && b.reveal_opponent is None {
        b.challenger
    } else if b.reveal_opponent is Some && b.reveal_challenger is None {
        b.opponent
    } else if b.commit_challenger is Some && b.commit_opponent is None {
        b.challenger
    } else if b.commit_opponent is Some && b.commit_challenger is None {
        b.opponent
    } else {
        b.challenger
    }
}

/// The entropy seeding the challenger's attack: move bytes in
/// challenger-opponent order over the zero context and the battle
/// identity.
pub open spec fn spec_challenger_vrf(b: Battle, battle_key: Identity) -> u64 {
    spec_tie_break_entropy(
        b.reveal_challenger->0.spec_to_byte(),
        b.reveal_opponent->0.spec_to_byte(),
        spec_zero_salt(),
        spec_zero_salt(),
        battle_key,
    ) as u64
}

/// The entropy seeding the opponent's attack: the move bytes in the
/// swapped order, so the two directions are independently seeded.
pub open spec fn spec_opponent_vrf(b: Battle, battle_key: Identity) -> u64 {
    spec_tie_break_entropy(
        b.reveal_opponent->0.spec_to_byte(),
        b.reveal_challenger->0.spec_to_byte(),
        spec_zero_salt(),
        spec_zero_salt(),
        battle_key,
    ) as u64
}

/// The damage the challenger's move deals to the opponent.
pub open spec fn spec_challenger_damage(b: Battle, pc: Player, po: Player, battle_key: Identity) -> int {
    spec_damage(b.reveal_challenger->0, pc, po.class, spec_challenger_vrf(b, battle_key))
}

/// The damage the opponent's move deals to the challenger.
pub open spec fn spec_opponent_damage(b: Battle, pc: Player, po: Player, battle_key: Identity) -> int {
    spec_damage(b.reveal_opponent->0, po, pc.class, spec_opponent_vrf(b, battle_key))
}

/// The winner of a true tie: the parity of the challenger-direction
/// entropy if the configuration breaks ties by randomness, otherwise the
/// challenger by default.
pub open spec fn spec_tie_winner(b: Battle, cfg: BalanceConfig, battle_key: Identity) -> Identity {
    if cfg.tie_break_rand {
        if spec_challenger_vrf(b, battle_key) % 2 == 0 { b.challenger } else { b.opponent }
    } else {
        b.challenger
    }
}

/// The winner of a normal (both-revealed) resolution, in priority order:
/// if both drop to zero, the smaller overkill wins, then the higher
/// damage; if exactly one drops to zero, the other side wins; otherwise
/// the higher remaining hit points win, then the higher damage; a true
/// tie falls back to the tie-break rule.
pub open spec fn spec_normal_winner(
    b: Battle,
    pc: Player,
    po: Player,
    cfg: BalanceConfig,
    battle_key: Identity,
) -> Identity {
    let c_dmg = spec_challenger_damage(b, pc, po, battle_key);
    let o_dmg = spec_opponent_damage(b, pc, po, battle_key);
    let c_hp = if b.challenger_hp >= o_dmg { b.challenger_hp - o_dmg } else { 0int };
    let o_hp = if b.opponent_hp >= c_dmg { b.opponent_hp - c_dmg } else { 0int };
    let c_true_hp = b.challenger_hp - o_dmg;
    let o_true_hp = b.opponent_hp - c_dmg;
    if c_hp == 0 && o_hp == 0 {
        if c_true_hp > o_true_hp {
            b.challenger
        } else if o_true_hp > c_true_hp {
            b.opponent
        } else if c_dmg > o_dmg {
            b.challenger
        } else if o_dmg > c_dmg {
            b.opponent
        } else {
            spec_tie_winner(b, cfg, battle_key)
        }
    } else if c_hp == 0 {
        b.opponent
    } else if o_hp == 0 {
        b.challenger
    } else if c_hp > o_hp {
        b.challenger
    } else if o_hp > c_hp {
        b.opponent
    } else if c_dmg > o_dmg {
        b.challenger
    } else if o_dmg > c_dmg {
        b.opponent
    } else {
        spec_tie_winner(b, cfg, battle_key)
    }
}

/// The winner a resolution records: the normal rule when both revealed,
/// the forfeit rule otherwise.
pub open spec fn spec_winner(
    b: Battle,
    pc: Player,
    po: Player,
    cfg: BalanceConfig,
    battle_key: Identity,
) -> Identity {
    if spec_both_revealed(b) {
        spec_normal_winner(b, pc, po, cfg, battle_key)
    } else {
        spec_forfeit_winner(b)
    }
}

/// Forfeit ordering: a battle in which only the challenger revealed
/// resolves with the challenger as winner, whatever the configuration's
/// tie-break flag and whatever the fighters' records.
pub proof fn lemma_forfeit_challenger_revealed(
    b: Battle,
    pc: Player,
    po: Player,
    cfg: BalanceConfig,
    battle_key: Identity,
)
    requires
        b.reveal_challenger is Some,
        b.reveal_opponent is None,
    ensures
        spec_winner(b, pc, po, cfg, battle_key) == b.challenger,
{
}

/// The loser's experience share: `xp_base * xp_loser_bps / 10000`, in
/// basis points, the product saturating in `u64` before the division.
pub open spec fn spec_loser_delta(cfg: BalanceConfig) -> int {
    spec_sat_mul_u64(cfg.xp_loser_bps as int, cfg.xp_base as int) / 10000
}

/// Credits experience to both fighters: the winner gains `xp_base`, the
/// loser the basis-point share, both saturating.  The winner is the
/// fighter whose authority equals `winner`; ties against the challenger
/// record are checked first.  Returns the winner's and the loser's award
/// notifications, in that order.
pub fn award_xp(
    player_challenger: &mut Player,
    player_opponent: &mut Player,
    winner: &Identity,
    cfg: &BalanceConfig,
) -> (evs: (XpAwarded, XpAwarded))
    ensures
        *winner == old(player_challenger).authority ==> {
            &&& *final(player_challenger) == (Player {
                xp: spec_sat_add_u64(old(player_challenger).xp as int, cfg.xp_base as int) as u64,
                ..*old(player_challenger)
            })
            &&& *final(player_opponent) == (Player {
                xp: spec_sat_add_u64(old(player_opponent).xp as int, spec_loser_delta(*cfg)) as u64,
                ..*old(player_opponent)
            })
            &&& evs.0 == (XpAwarded {
                player: old(player_challenger).authority,
                delta: cfg.xp_base,
            })
            &&& evs.1 == (XpAwarded {
                player: old(player_opponent).authority,
                delta: spec_loser_delta(*cfg) as u64,
            })
        },
        *winner != old(player_challenger).authority ==> {
            &&& *final(player_opponent) == (Player {
                xp: spec_sat_add_u64(old(player_opponent).xp as int, cfg.xp_base as int) as u64,
                ..*old(player_opponent)
            })
            &&& *final(player_challenger) == (Player {
                xp: spec_sat_add_u64(old(player_challenger).xp as int, spec_loser_delta(*cfg)) as u64,
                ..*old(player_challenger)
            })
            &&& evs.0 == (XpAwarded {
                player: old(player_opponent).authority,
                delta: cfg.xp_base,
            })
            &&& evs.1 == (XpAwarded {
                player: old(player_challenger).authority,
                delta: spec_loser_delta(*cfg) as u64,
            })
        },
{
    if *winner == player_challenger.authority {
        player_challenger.xp = player_challenger.xp.saturating_add(cfg.xp_base);
        let delta = u64_saturating_mul(cfg.xp_loser_bps as u64, cfg.xp_base) / 10000;
        player_opponent.xp = player_opponent.xp.saturating_add(delta);
        (
            XpAwarded { player: player_challenger.authority, delta: cfg.xp_base },
            XpAwarded { player: player_opponent.authority, delta },
        )
    } else {
        player_opponent.xp = player_opponent.xp.saturating_add(cfg.xp_base);
        let delta = u64_saturating_mul(cfg.xp_loser_bps as u64, cfg.xp_base) / 10000;
        player_challenger.xp = player_challenger.xp.saturating_add(delta);
        (
            XpAwarded { player: player_opponent.authority, delta: cfg.xp_base },
            XpAwarded { player: player_challenger.authority, delta },
        )
    }
}

/// Resolves a battle.  Fails with the terminal-state error if the battle
/// is already resolved, and with the not-ready error if neither both
/// reveals nor the elapsed reveal deadline permit resolution; a failed
/// call changes nothing.  On success the winner is recorded once, hit
/// points are updated (only on the normal path), experience is credited,
/// and the battle becomes terminal.  Returns the resolution notification
/// and the two experience awards, winner's first.
pub fn resolve_battle(
    battle: &mut Battle,
    player_challenger: &mut Player,
    player_opponent: &mut Player,
    cfg: &BalanceConfig,
    battle_key: &Identity,
    now_slot: u64,
) -> (r: Result<(BattleResolved, XpAwarded, XpAwarded), CustomError>)
    ensures
        r is Ok <==> (old(battle).state != BattleState::Resolved
            && spec_resolve_permitted(*old(battle), now_slot)),
        r matches Err(e) ==> {
            &&& *final(battle) == *old(battle)
            &&& *final(player_challenger) == *old(player_challenger)
            &&& *final(player_opponent) == *old(player_opponent)
            &&& e == (if old(battle).state == BattleState::Resolved {
                    CustomError::AlreadyResolved
                } else {
                    CustomError::NotReadyToResolve
                })
        },
        r matches Ok(out) ==> ({
            let b0 = *old(battle);
            let pc0 = *old(player_challenger);
            let po0 = *old(player_opponent);
            let w = spec_winner(b0, pc0, po0, *cfg, *battle_key);
            let c_dmg = if spec_both_revealed(b0) {
                spec_challenger_damage(b0, pc0, po0, *battle_key)
            } else {
                0int
            };
            let o_dmg = if spec_both_revealed(b0) {
                spec_opponent_damage(b0, pc0, po0, *battle_key)
            } else {
                0int
            };
            let c_hp = if b0.challenger_hp >= o_dmg { b0.challenger_hp - o_dmg } else { 0int };
            let o_hp = if b0.opponent_hp >= c_dmg { b0.opponent_hp - c_dmg } else { 0int };
            &&& *final(battle) == (Battle {
                state: BattleState::Resolved,
                winner: Some(w),
                challenger_hp: c_hp as u16,
                opponent_hp: o_hp as u16,
                ..b0
            })
            &&& (w == pc0.authority ==> {
                &&& *final(player_challenger) == (Player {
                    xp: spec_sat_add_u64(pc0.xp as int, cfg.xp_base as int) as u64,
                    ..pc0
                })
                &&& *final(player_opponent) == (Player {
                    xp: spec_sat_add_u64(po0.xp as int, spec_loser_delta(*cfg)) as u64,
                    ..po0
                })
                &&& out.1 == (XpAwarded { player: pc0.authority, delta: cfg.xp_base })
                &&& out.2 == (XpAwarded {
                    player: po0.authority,
                    delta: spec_loser_delta(*cfg) as u64,
                })
            })
            &&& (w != pc0.authority ==> {
                &&& *final(player_opponent) == (Player {
                    xp: spec_sat_add_u64(po0.xp as int, cfg.xp_base as int) as u64,
                    ..po0
                })
                &&& *final(player_challenger) == (Player {
                    xp: spec_sat_add_u64(pc0.xp as int, spec_loser_delta(*cfg)) as u64,
                    ..pc0
                })
                &&& out.1 == (XpAwarded { player: po0.authority, delta: cfg.xp_base })
                &&& out.2 == (XpAwarded {
                    player: pc0.authority,
                    delta: spec_loser_delta(*cfg) as u64,
                })
            })
            &&& out.0 == (BattleResolved {
                battle: *battle_key,
                winner: w,
                challenger_hp: c_hp as u16,
                opponent_hp: o_hp as u16,
                challenger_damage: c_dmg as u16,
                opponent_damage: o_dmg as u16,
            })
        }),
{
    if matches!(battle.state, BattleState::Resolved) {
        return Err(CustomError::AlreadyResolved);
    }
    let after_reveal_deadline = now_slot > battle.reveal_deadline_slot;
    let both_revealed = battle.reveal_challenger.is_some() && battle.reveal_opponent.is_some();
    if !(both_revealed || after_reveal_deadline) {
        return Err(CustomError::NotReadyToResolve);
    }

    let winner: Identity;
    let resolved_event: BattleResolved;

    if both_revealed {
        let c_move = battle.reveal_challenger.unwrap();
        let o_move = battle.reveal_opponent.unwrap();

        let zero_salt: [u8; 32] = [0u8; 32];
        proof {
            assert(zero_salt@ =~= spec_zero_salt());
        }
        let c_vrf = tie_break_entropy(
            c_move.to_byte(),
            o_move.to_byte(),
            &zero_salt,
            &zero_salt,
            battle_key,
        );
        let o_vrf = tie_break_entropy(
            o_move.to_byte(),
            c_move.to_byte(),
            &zero_salt,
            &zero_salt,
            battle_key,
        );

        let challenger_outcome = calculate_battle_outcome(
            c_move,
            player_challenger,
            player_opponent.class,
            battle.opponent_hp,
            c_vrf,
        );
        let opponent_outcome = calculate_battle_outcome(
            o_move,
            player_opponent,
            player_challenger.class,
            battle.challenger_hp,
            o_vrf,
        );

        let challenger_start_hp: i32 = battle.challenger_hp as i32;
        let opponent_start_hp: i32 = battle.opponent_hp as i32;

        battle.challenger_hp = opponent_outcome.remaining_hp;
        battle.opponent_hp = challenger_outcome.remaining_hp;

        let challenger_true_hp: i32 = challenger_start_hp - opponent_outcome.damage_dealt as i32;
        let opponent_true_hp: i32 = opponent_start_hp - challenger_outcome.damage_dealt as i32;

        if battle.challenger_hp == 0 && battle.opponent_hp == 0 {
            if challenger_true_hp > opponent_true_hp {
                winner = battle.challenger;
            } else if opponent_true_hp > challenger_true_hp {
                winner = battle.opponent;
            } else {
                if challenger_outcome.damage_dealt > opponent_outcome.damage_dealt {
                    winner = battle.challenger;
                } else if opponent_outcome.damage_dealt > challenger_outcome.damage_dealt {
                    winner = battle.opponent;
                } else {
                    if cfg.tie_break_rand {
                        winner = if c_vrf % 2 == 0 { battle.challenger } else { battle.opponent };
                    } else {
                        winner = battle.challenger;
                    }
                }
            }
        } else if battle.challenger_hp == 0 {
            winner = battle.opponent;
        } else if battle.opponent_hp == 0 {
            winner = battle.challenger;
        } else {
            if battle.challenger_hp > battle.opponent_hp {
                winner = battle.challenger;
            } else if battle.opponent_hp > battle.challenger_hp {
                winner = battle.opponent;
            } else {
                if challenger_outcome.damage_dealt > opponent_outcome.damage_dealt {
                    winner = battle.challenger;
                } else if opponent_outcome.damage_dealt > challenger_outcome.damage_dealt {
                    winner = battle.opponent;
                } else {
                    if cfg.tie_break_rand {
                        winner = if c_vrf % 2 == 0 { battle.challenger } else { battle.opponent };
                    } else {
                        winner = battle.challenger;
                    }
                }
            }
        }

        resolved_event = BattleResolved {
            battle: *battle_key,
            winner,
            challenger_hp: battle.challenger_hp,
            opponent_hp: battle.opponent_hp,
            challenger_damage: challenger_outcome.damage_dealt,
            opponent_damage: opponent_outcome.damage_dealt,
        };
    } else {
        if battle.reveal_challenger.is_some() && battle.reveal_opponent.is_none() {
            winner = battle.challenger;
        } else if battle.reveal_opponent.is_some() && battle.reveal_challenger.is_none() {
            winner = battle.opponent;
        } else if battle.commit_challenger.is_some() && battle.commit_opponent.is_none() {
            winner = battle.challenger;
        } else if battle.commit_opponent.is_some() && battle.commit_challenger.is_none() {
            winner = battle.opponent;
        } else {
            winner = battle.challenger;
        }
        resolved_event = BattleResolved {
            battle: *battle_key,
            winner,
            challenger_hp: battle.challenger_hp,
            opponent_hp: battle.opponent_hp,
            challenger_damage: 0,
            opponent_damage: 0,
        };
    }

    let awards = award_xp(player_challenger, player_opponent, &winner, cfg);

    battle.winner = Some(winner);
    battle.state = BattleState::Resolved;
    Ok((resolved_event, awards.0, awards.1))
}

} // verus!
