//! Cosmetic character customization records: pure data owned by a
//! fighter's authority, with no effect on battle logic.

use vstd::prelude::*;
use crate::errors::CustomError;
use crate::identity::Identity;
use crate::player::Player;

verus! {

/// The stored customization record of one fighter.
#[derive(Clone, Copy, Debug)]
pub struct CharacterCustomizationV1 {
    pub player: Identity,
    pub gender: u8,
    pub palette_index: u8,
    pub skin_tone_index: u8,
    pub hair_style_index: u8,
    pub hair_color_index: u8,
    pub outfit_style_index: u8,
    pub outfit_color_index: u8,
    pub face_flags: u16,
    pub accessory_slots: [u8; 2],
    pub version: u8,
    pub reserved: [u8; 24],
}

/// The caller-supplied customization fields.
#[derive(Clone, Copy, Debug)]
pub struct CharacterCustomizationDataV1 {
    pub gender: u8,
    pub palette_index: u8,
    pub skin_tone_index: u8,
    pub hair_style_index: u8,
    pub hair_color_index: u8,
    pub outfit_style_index: u8,
    pub outfit_color_index: u8,
    pub face_flags: u16,
    pub accessory_slots: [u8; 2],
}

/// Creates the customization record for the fighter at `player_key`,
/// provided the caller owns that fighter.
pub fn create_character_customization(
    player: &Player,
    player_key: &Identity,
    authority: &Identity,
    data: CharacterCustomizationDataV1,
) -> (r: Result<CharacterCustomizationV1, CustomError>)
    ensures
        r is Ok <==> player.authority == *authority,
        r matches Ok(acct) ==> {
            &&& acct.player == *player_key
            &&& acct.gender == data.gender
            &&& acct.palette_index == data.palette_index
            &&& acct.skin_tone_index == data.skin_tone_index
            &&& acct.hair_style_index == data.hair_style_index
            &&& acct.hair_color_index == data.hair_color_index
            &&& acct.outfit_style_index == data.outfit_style_index
            &&& acct.outfit_color_index == data.outfit_color_index
            &&& acct.face_flags == data.face_flags
            &&& acct.accessory_slots == data.accessory_slots
            &&& acct.version == 1
            &&& acct.reserved@ == Seq::new(24, |i: int| 0u8)
        },
        r matches Err(e) ==> e == CustomError::Unauthorized,
{
    if !(player.authority == *authority) {
        return Err(CustomError::Unauthorized);
    }
    let reserved: [u8; 24] = [0u8; 24];
    proof {
        assert(reserved@ =~= Seq::new(24, |i: int| 0u8));
    }
    Ok(CharacterCustomizationV1 {
        player: *player_key,
        gender: data.gender,
        palette_index: data.palette_index,
        skin_tone_index: data.skin_tone_index,
        hair_style_index: data.hair_style_index,
        hair_color_index: data.hair_color_index,
        outfit_style_index: data.outfit_style_index,
        outfit_color_index: data.outfit_color_index,
        face_flags: data.face_flags,
        accessory_slots: data.accessory_slots,
        version: 1,
        reserved,
    })
}

/// Overwrites the caller-settable fields of an existing record, keeping
/// the owning fighter, the version tag and the reserved block intact,
/// provided the caller owns the fighter.
pub fn update_character_customization(
    player: &Player,
    authority: &Identity,
    acct: &mut CharacterCustomizationV1,
    data: CharacterCustomizationDataV1,
) -> (r: Result<(), CustomError>)
    ensures
        r is Ok <==> player.authority == *authority,
        r is Ok ==> *final(acct) == (CharacterCustomizationV1 {
            gender: data.gender,
            palette_index: data.palette_index,
            skin_tone_index: data.skin_tone_index,
            hair_style_index: data.hair_style_index,
            hair_color_index: data.hair_color_index,
            outfit_style_index: data.outfit_style_index,
            outfit_color_index: data.outfit_color_index,
            face_flags: data.face_flags,
            accessory_slots: data.accessory_slots,
            ..*old(acct)
        }),
        r matches Err(e) ==> {
            &&& *final(acct) == *old(acct)
            &&& e == CustomError::Unauthorized
        },
{
    if !(player.authority == *authority) {
        return Err(CustomError::Unauthorized);
    }
    acct.gender = data.gender;
    acct.palette_index = data.palette_index;
    acct.skin_tone_index = data.skin_tone_index;
    acct.hair_style_index = data.hair_style_index;
    acct.hair_color_index = data.hair_color_index;
    acct.outfit_style_index = data.outfit_style_index;
    acct.outfit_color_index = data.outfit_color_index;
    acct.face_flags = data.face_flags;
    acct.accessory_slots = data.accessory_slots;
    Ok(())
}

} // verus!
