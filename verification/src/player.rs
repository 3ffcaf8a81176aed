//! Players and the characters they pick.

use vstd::prelude::*;

verus! {

/// One player's game state.
pub struct Player {
    pub name: String,
    pub currency: usize,
    pub id: usize,
    pub character_id: usize,
    pub properties: Vec<usize>,
    pub position: usize,
    pub jail_free_cards: usize,
    pub jail_free_throws: usize,
    pub wait: usize,
}

/// A selectable character and the path of its 3-D model asset.
pub struct Character {
    pub name: String,
    pub id: usize,
    pub model_path: String,
}

} // verus!
