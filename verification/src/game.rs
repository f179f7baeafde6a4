//! Account-level game data: characters and the item model.

use vstd::prelude::*;

verus! {

/// What kind of account owns a character.
#[derive(Debug, Clone, Copy, PartialEq, Eq, Structural)]
pub enum CharacterKind {
    Normal,
    SoloAccount,
    SoloCharacter,
}

/// One playable character of an account.
#[derive(Debug, Clone)]
pub struct Character {
    pub account_id: u64,
    pub character_id: u32,
    pub name: String,
    pub kind: CharacterKind,
}

/// What slot an item occupies.
#[derive(Debug, Clone, Copy, PartialEq, Eq, Structural)]
pub enum ItemCategory {
    Sword,
    Key,
}

/// How rare an item is, which bounds how many explicit modifiers it rolls.
#[derive(Debug, Clone, Copy, PartialEq, Eq, Structural)]
pub enum Rarity {
    Insignificant,
    Fabled,
    Legendary,
    Epic,
    Mythic,
}

impl Rarity {
    /// The number of explicit modifiers a rarity admits: none for the
    /// lowest tier, three, five and seven up the tiers, and none for the
    /// unique tier whose modifiers are fixed.
    pub fn maximum_explicit_count(self) -> (r: usize)
        ensures
            r == (match self {
                Rarity::Insignificant => 0usize,
                Rarity::Fabled => 3usize,
                Rarity::Legendary => 5usize,
                Rarity::Epic => 7usize,
                Rarity::Mythic => 0usize,
            }),
    {
        match self {
            Rarity::Insignificant => 0,
            Rarity::Fabled => 3,
            Rarity::Legendary => 5,
            Rarity::Epic => 7,
            Rarity::Mythic => 0,
        }
    }
}

/// One rolled modifier on an item.
#[derive(Debug, Clone)]
pub struct Modifier {
    pub modifier_id: String,
    pub rolls: Vec<i32>,
}

} // verus!
