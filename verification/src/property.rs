//! Properties on the board and their rent rules.

use vstd::prelude::*;

verus! {

/// Number of purchasable properties on a full board.
pub const PROPERTIES: usize = 28;

/// Most houses a property can carry.
pub const MAX_HOUSES: usize = 5;

/// Which rent rule a property follows.
#[derive(Copy, Clone, PartialEq)]
pub enum PropertyType {
    Normal { associates: [Option<usize>; 2] },
    Station,
    Special,
}

/// The immutable description of one property: its rent table holds one
/// entry per house count.
#[derive(PartialEq)]
pub struct PropertyFrame {
    pub id: usize,
    pub name: String,
    pub buy_price: usize,
    pub rents: [Option<usize>; 6],
    pub ty: PropertyType,
}

impl Clone for PropertyFrame {
    fn clone(&self) -> (r: Self)
        ensures
            r == *self,
    {
        PropertyFrame {
            id: self.id,
            name: self.name.clone(),
            buy_price: self.buy_price,
            rents: self.rents,
            ty: self.ty,
        }
    }
}

/// A property in play: its frame plus the mutable ownership state.
pub struct DefinedProperty {
    pub frame: PropertyFrame,
    pub houses: usize,
    pub owner: Option<usize>,
}

impl DefinedProperty {
    /// The rent owed: normal and station properties charge the table
    /// entry for their house count, special ones the base entry per move.
    pub open spec fn spec_price(&self, moves: usize) -> int {
        match self.frame.ty {
            PropertyType::Special => (match self.frame.rents@[0] {
                Option::Some(r) => r * moves,
                Option::None => 0int,
            }),
            _ => (match self.frame.rents@[self.houses as int] {
                Option::Some(r) => r as int,
                Option::None => 0int,
            }),
        }
    }

    /// Computes the rent owed after `moves` steps.
    pub fn calculate_price(&self, moves: usize) -> (p: usize)
        requires
            self.houses < 6,
            self.frame.ty is Special ==> self.frame.rents@[0] is Some,
            !(self.frame.ty is Special) ==> self.frame.rents@[self.houses as int] is Some,
            self.spec_price(moves) <= usize::MAX,
        ensures
            p == self.spec_price(moves),
    {
        match &self.frame.ty {
            PropertyType::Normal { .. } | PropertyType::Station => self.frame.rents[self.houses].unwrap(),
            PropertyType::Special => self.frame.rents[0].unwrap() * moves,
        }
    }
}

} // verus!
