//! Commit-bound pseudorandomness and commitment hashing.
//!
//! Both the commitment check and the per-attack entropy derive from one
//! collision-resistant digest over plain bytes.  The digest itself comes
//! from an outside implementation and is only named here: every contract
//! speaks of `keccak_of` applied to the exact preimage bytes, so a
//! resolution is reproducible from the revealed moves and the battle
//! identity alone.

use vstd::prelude::*;
use crate::identity::Identity;
use crate::player::MoveChoice;

verus! {

/// The Keccak-256 digest of a byte string.  Its value is determined by
/// the input bytes alone; the library states nothing else about it.
pub uninterp spec fn keccak_of(data: Seq<u8>) -> Seq<u8>;

/// Relies on `anchor_lang::solana_program::keccak::hash`: it returns the
/// 32-byte Keccak-256 digest of the input, a function of those bytes alone
/// (`hashv` over several slices is the digest of their concatenation).
#[verifier::external_body]
fn keccak256(data: &Vec<u8>) -> (r: [u8; 32])
    ensures
        r@ == keccak_of(data@),
{
    anchor_lang::solana_program::keccak::hash(data.as_slice()).0
}

/// Appends all 32 bytes of `bytes` to `out`.
fn push_bytes32(out: &mut Vec<u8>, bytes: &[u8; 32])
    ensures
        final(out)@ == old(out)@ + bytes@,
{
    let mut i: usize = 0;
    while i < 32
        invariant
            i <= 32,
            out@ == old(out)@ + bytes@.subrange(0, i as int),
        decreases 32 - i,
    {
        out.push(bytes[i]);
        proof {
            assert(out@ == old(out)@ + bytes@.subrange(0, i + 1));
        }
        i = i + 1;
    }
    proof {
        assert(bytes@.subrange(0, 32) =~= bytes@);
    }
}

/// The preimage a participant commits to: the move byte, the secret salt,
/// the participant identity and the battle identity, in that order.
pub open spec fn spec_commitment_preimage(
    move_byte: u8,
    salt: Seq<u8>,
    player: Identity,
    battle_key: Identity,
) -> Seq<u8> {
    seq![move_byte] + salt + player.0@ + battle_key.0@
}

/// The commitment that binds `move_choice` and `salt` to `player` in the
/// battle at `battle_key`.
pub open spec fn spec_commitment_hash(
    move_choice: MoveChoice,
    salt: Seq<u8>,
    player: Identity,
    battle_key: Identity,
) -> Seq<u8> {
    keccak_of(spec_commitment_preimage(move_choice.spec_to_byte(), salt, player, battle_key))
}

/// Computes the commitment hash for a move and salt, bound to the
/// participant and battle identities so a commitment cannot be replayed
/// across battles or participants.
pub fn commitment_hash(
    move_choice: MoveChoice,
    salt: &[u8; 32],
    player: &Identity,
    battle_key: &Identity,
) -> (h: [u8; 32])
    ensures
        h@ == spec_commitment_hash(move_choice, salt@, *player, *battle_key),
{
    let mut data: Vec<u8> = Vec::new();
    data.push(move_choice.to_byte());
    push_bytes32(&mut data, salt);
    push_bytes32(&mut data, &player.0);
    push_bytes32(&mut data, &battle_key.0);
    proof {
        assert(data@ =~= spec_commitment_preimage(
            move_choice.spec_to_byte(), salt@, *player, *battle_key));
    }
    keccak256(&data)
}

/// The unsigned integer read from the first eight bytes of `s`,
/// little-endian.
pub open spec fn spec_u64_from_le8(s: Seq<u8>) -> int {
    s[0] + 0x100 * s[1] + 0x1_0000 * s[2] + 0x100_0000 * s[3]
        + 0x1_0000_0000 * s[4] + 0x100_0000_0000 * s[5]
        + 0x1_0000_0000_0000 * s[6] + 0x100_0000_0000_0000 * s[7]
}

/// Reads the first eight bytes of a digest as a little-endian integer.
fn u64_from_le_first8(h: &[u8; 32]) -> (r: u64)
    ensures
        r == spec_u64_from_le8(h@),
{
    h[0] as u64 + 0x100 * h[1] as u64 + 0x1_0000 * h[2] as u64 + 0x100_0000 * h[3] as u64
        + 0x1_0000_0000 * h[4] as u64 + 0x100_0000_0000 * h[5] as u64
        + 0x1_0000_0000_0000 * h[6] as u64 + 0x100_0000_0000_0000 * h[7] as u64
}

/// The entropy preimage for one attack direction: the attacker's and
/// defender's move bytes, both salt blocks, and the battle identity.
pub open spec fn spec_entropy_preimage(
    challenger_move_byte: u8,
    opponent_move_byte: u8,
    challenger_salt: Seq<u8>,
    opponent_salt: Seq<u8>,
    battle_key: Identity,
) -> Seq<u8> {
    seq![challenger_move_byte] + seq![opponent_move_byte]
        + challenger_salt + opponent_salt + battle_key.0@
}

/// The deterministic pseudorandom value drawn for one attack direction.
pub open spec fn spec_tie_break_entropy(
    challenger_move_byte: u8,
    opponent_move_byte: u8,
    challenger_salt: Seq<u8>,
    opponent_salt: Seq<u8>,
    battle_key: Identity,
) -> int {
    spec_u64_from_le8(keccak_of(spec_entropy_preimage(
        challenger_move_byte,
        opponent_move_byte,
        challenger_salt,
        opponent_salt,
        battle_key,
    )))
}

/// Derives deterministic pseudo-randomness from the committed moves: the
/// low 64 bits (little-endian) of the digest over both move bytes, both
/// salt blocks and the battle identity.
pub fn tie_break_entropy(
    challenger_move_byte: u8,
    opponent_move_byte: u8,
    challenger_salt: &[u8; 32],
    opponent_salt: &[u8; 32],
    battle_key: &Identity,
) -> (r: u64)
    ensures
        r == spec_tie_break_entropy(
            challenger_move_byte,
            opponent_move_byte,
            challenger_salt@,
            opponent_salt@,
            *battle_key,
        ),
{
    let mut data: Vec<u8> = Vec::new();
    data.push(challenger_move_byte);
    data.push(opponent_move_byte);
    push_bytes32(&mut data, challenger_salt);
    push_bytes32(&mut data, opponent_salt);
    push_bytes32(&mut data, &battle_key.0);
    proof {
        assert(data@ =~= spec_entropy_preimage(
            challenger_move_byte,
            opponent_move_byte,
            challenger_salt@,
            opponent_salt@,
            *battle_key,
        ));
    }
    let hash = keccak256(&data);
    u64_from_le_first8(&hash)
}

} // verus!
