//! A two-party commit-reveal duel engine for persistent fighters.
//!
//! A battle runs through a fixed lifecycle: both participants submit hashed
//! move commitments, then reveal their moves against those commitments, and
//! the battle is resolved deterministically into damage, a winner and
//! experience rewards.  All arithmetic is integer-only and saturating, so a
//! resolution is reproducible from the revealed moves and the battle identity
//! alone.

pub mod battle;
pub mod battle_math;
pub mod config;
pub mod customization;
pub mod errors;
pub mod events;
pub mod identity;
pub mod math;
pub mod player;
pub mod resolve;
pub mod rps;
pub mod scoring;
pub mod protocol;
pub mod upgrade;
pub mod vrf;
