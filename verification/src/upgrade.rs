//! The ability-upgrade operation: spends experience to raise one ability
//! level under the configured cost curve and level cap.

use vstd::prelude::*;
use crate::config::BalanceConfig;
use crate::errors::CustomError;
use crate::events::AbilityUpgraded;
use crate::identity::Identity;
use crate::math::{spec_upgrade_cost, upgrade_cost};
use crate::player::Player;

verus! {

/// The level an upgrade of `player`'s ability `idx` would reach: one more
/// than the current level, saturating at the counter's maximum.
pub open spec fn spec_next_level(player: Player, idx: int) -> int {
    if player.abilities@[idx] == u16::MAX {
        u16::MAX as int
    } else {
        player.abilities@[idx] + 1
    }
}

/// Whether an upgrade of ability `ability_index` is accepted for
/// `player`: the index names one of the three abilities, the next level
/// respects the configured cap, and the fighter can pay the cost.
pub open spec fn spec_upgrade_accepts(player: Player, cfg: BalanceConfig, ability_index: u8) -> bool {
    &&& ability_index < 3
    &&& spec_next_level(player, ability_index as int) <= cfg.max_level
    &&& spec_upgrade_cost(spec_next_level(player, ability_index as int) as u16, cfg)
        <= player.xp
}

/// The error a rejected upgrade reports, matching the order in which the
/// conditions are checked.
pub open spec fn spec_upgrade_error(player: Player, cfg: BalanceConfig, ability_index: u8) -> CustomError {
    if ability_index >= 3 {
        CustomError::InvalidAbility
    } else if spec_next_level(player, ability_index as int) > cfg.max_level {
        CustomError::MaxLevel
    } else {
        CustomError::NotEnoughXP
    }
}

/// Upgrades one ability: checks the index, the level cap and the cost,
/// then debits the experience and raises the level.  Nothing is mutated
/// on a rejection.
pub fn upgrade_ability(
    player: &mut Player,
    player_key: &Identity,
    cfg: &BalanceConfig,
    ability_index: u8,
) -> (r: Result<AbilityUpgraded, CustomError>)
    ensures
        r is Ok <==> spec_upgrade_accepts(*old(player), *cfg, ability_index),
        r matches Ok(ev) ==> {
            let next = spec_next_level(*old(player), ability_index as int);
            let cost = spec_upgrade_cost(next as u16, *cfg);
            &&& *final(player) == (Player {
                xp: (old(player).xp - cost) as u64,
                abilities: final(player).abilities,
                ..*old(player)
            })
            &&& final(player).abilities@
                == old(player).abilities@.update(ability_index as int, next as u16)
            &&& ev == (AbilityUpgraded {
                player: *player_key,
                ability_index,
                new_level: next as u16,
                cost: cost as u64,
            })
        },
        r matches Err(e) ==> {
            &&& *final(player) == *old(player)
            &&& e == spec_upgrade_error(*old(player), *cfg, ability_index)
        },
{
    if ability_index >= 3 {
        return Err(CustomError::InvalidAbility);
    }
    let idx = ability_index as usize;
    let next = player.abilities[idx].saturating_add(1);
    if next > cfg.max_level {
        return Err(CustomError::MaxLevel);
    }
    let cost = upgrade_cost(next, cfg);
    if player.xp < cost {
        return Err(CustomError::NotEnoughXP);
    }
    player.xp = player.xp - cost;
    player.abilities[idx] = next;
    Ok(AbilityUpgraded {
        player: *player_key,
        ability_index,
        new_level: next,
        cost,
    })
}

} // verus!
