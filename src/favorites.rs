use vstd::prelude::*;

verus! {

/// Bytes that the account framework keeps before an account's data.
pub const ANCHOR_DISCRIMINATOR_SIZE: usize = 8;

/// A user's favorite number, color and hobbies.
#[derive(Debug, Clone)]
pub struct Favorite {
    pub number: u64,
    pub color: String,
    pub hobbies: Vec<String>,
}

/// Stores the user's favorites, replacing what was there.
pub fn initialize(favorites: &mut Favorite, number: u64, color: String, hobbies: Vec<String>)
    ensures
        final(favorites).number == number,
        final(favorites).color == color,
        final(favorites).hobbies == hobbies,
{
    *favorites = Favorite { number, color, hobbies };
}

/// Replaces the user's favorites.
pub fn update(favorites: &mut Favorite, number: u64, color: String, hobbies: Vec<String>)
    ensures
        final(favorites).number == number,
        final(favorites).color == color,
        final(favorites).hobbies == hobbies,
{
    *favorites = Favorite { number, color, hobbies };
}

} // verus!
