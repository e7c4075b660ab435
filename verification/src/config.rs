//! The process-wide balance configuration: tunable economy and damage
//! constants, owned by a single admin and read by every resolution.
//!
//! The configuration is modelled as an explicitly passed immutable snapshot;
//! the battle logic never mutates it.

use vstd::prelude::*;
use crate::identity::Identity;

verus! {

/// The tunable economy and damage constants.
#[derive(Clone, Debug)]
pub struct BalanceConfig {
    /// The admin identity; preserved across updates.
    pub admin: Identity,
    /// Base ability power.
    pub base: i32,
    /// Linear coefficient of the ability-power curve.
    pub linear_a: i32,
    /// Diminishing-return numerator coefficient.
    pub dim_k: i32,
    /// Diminishing-return denominator offset.
    pub dim_t: i32,
    /// Cap on every ability level.
    pub max_level: u16,
    /// Whether a true tie is broken by entropy parity rather than by
    /// defaulting to the challenger.
    pub tie_break_rand: bool,
    /// Whether ability power uses the diminishing-return curve.
    pub use_dim_bonus: bool,
    /// Experience credited to the winner of a battle.
    pub xp_base: u64,
    /// Loser share of `xp_base` on a tie, in basis points (legacy).
    pub xp_tie_bps: u16,
    /// Loser share of `xp_base`, in basis points.
    pub xp_loser_bps: u16,
    /// Base coefficient of the upgrade-cost curve.
    pub upgrade_c0: u64,
    /// Exponent of the upgrade-cost curve, in basis points.
    pub upgrade_p_bps: u16,
    /// Legacy rock-paper-scissors win score.
    pub rps_win_base: i32,
    /// Legacy rock-paper-scissors tie score.
    pub rps_tie_base: i32,
}

/// Builds the initial configuration record, owned by `admin`.
pub fn init_config(
    admin: Identity,
    base: i32,
    linear_a: i32,
    dim_k: i32,
    dim_t: i32,
    max_level: u16,
    tie_break_rand: bool,
    use_dim_bonus: bool,
    xp_base: u64,
    xp_tie_bps: u16,
    xp_loser_bps: u16,
    upgrade_c0: u64,
    upgrade_p_bps: u16,
    rps_win_base: i32,
    rps_tie_base: i32,
) -> (cfg: BalanceConfig)
    ensures
        cfg == (BalanceConfig {
            admin,
            base,
            linear_a,
            dim_k,
            dim_t,
            max_level,
            tie_break_rand,
            use_dim_bonus,
            xp_base,
            xp_tie_bps,
            xp_loser_bps,
            upgrade_c0,
            upgrade_p_bps,
            rps_win_base,
            rps_tie_base,
        }),
{
    BalanceConfig {
        admin,
        base,
        linear_a,
        dim_k,
        dim_t,
        max_level,
        tie_break_rand,
        use_dim_bonus,
        xp_base,
        xp_tie_bps,
        xp_loser_bps,
        upgrade_c0,
        upgrade_p_bps,
        rps_win_base,
        rps_tie_base,
    }
}

/// Replaces every tunable field of the configuration with those of
/// `new_config`, preserving the admin identity.
pub fn admin_update_config(config: &mut BalanceConfig, new_config: BalanceConfig)
    ensures
        final(config).admin == old(config).admin,
        *final(config) == (BalanceConfig { admin: old(config).admin, ..new_config }),
{
    let admin = config.admin;
    *config = new_config;
    config.admin = admin;
}

} // verus!
