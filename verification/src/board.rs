//! The board: its tiles and the index of the distinguished ones.

use vstd::prelude::*;
use crate::property::PropertyFrame;

verus! {

/// Number of tiles on the board.
pub const TILES: usize = 40;

/// Which of the two card piles a draw tile refers to.
#[derive(Copy, Clone, PartialEq, Eq, Structural, Debug)]
pub enum CardKind {
    Chance,
    Community,
}

/// One tile of the board.
pub enum Tile {
    Parking { name: String },
    Start { name: String },
    Jail { name: String },
    GoToJail { name: String },
    Property { property: PropertyFrame },
    Pay { name: String, amount: usize },
    DrawCard { kind: CardKind },
}

/// The variant of a tile, without its payload.
#[derive(Copy, Clone, PartialEq, Eq, Structural, Debug)]
pub enum TileKind {
    Parking,
    Start,
    Jail,
    GoToJail,
    Property,
    Pay,
    DrawCard,
}

impl Tile {
    pub open spec fn spec_kind(&self) -> TileKind {
        match self {
            Tile::Parking { .. } => TileKind::Parking,
            Tile::Start { .. } => TileKind::Start,
            Tile::Jail { .. } => TileKind::Jail,
            Tile::GoToJail { .. } => TileKind::GoToJail,
            Tile::Property { .. } => TileKind::Property,
            Tile::Pay { .. } => TileKind::Pay,
            Tile::DrawCard { .. } => TileKind::DrawCard,
        }
    }

    pub fn kind(&self) -> (k: TileKind)
        ensures
            k == self.spec_kind(),
    {
        match self {
            Tile::Parking { .. } => TileKind::Parking,
            Tile::Start { .. } => TileKind::Start,
            Tile::Jail { .. } => TileKind::Jail,
            Tile::GoToJail { .. } => TileKind::GoToJail,
            Tile::Property { .. } => TileKind::Property,
            Tile::Pay { .. } => TileKind::Pay,
            Tile::DrawCard { .. } => TileKind::DrawCard,
        }
    }
}

/// Positions of the unique jail and start tiles.
#[derive(Copy, Clone, PartialEq, Eq, Structural)]
pub struct BoardIndex {
    pub jail: usize,
    pub start: usize,
}

impl BoardIndex {
    /// Finds the jail and start tiles.  A board must carry exactly one
    /// of each; anything else is a data bug the loader rejects.
    pub fn new(board: &[Tile; TILES]) -> (r: BoardIndex)
        requires
            exists|i: int| 0 <= i < 40 && board@[i].spec_kind() == TileKind::Jail,
            forall|i: int, j: int|
                0 <= i < 40 && 0 <= j < 40 && board@[i].spec_kind() == TileKind::Jail && board@[
                    j
                ].spec_kind() == TileKind::Jail ==> i == j,
            exists|i: int| 0 <= i < 40 && board@[i].spec_kind() == TileKind::Start,
            forall|i: int, j: int|
                0 <= i < 40 && 0 <= j < 40 && board@[i].spec_kind() == TileKind::Start && board@[
                    j
                ].spec_kind() == TileKind::Start ==> i == j,
        ensures
            r.jail < 40,
            r.start < 40,
            board@[r.jail as int].spec_kind() == TileKind::Jail,
            board@[r.start as int].spec_kind() == TileKind::Start,
    {
        let mut jail_idx: usize = TILES;
        let mut start_idx: usize = TILES;
        let mut i: usize = 0;
        while i < TILES
            invariant
                0 <= i <= 40,
                jail_idx <= 40,
                start_idx <= 40,
                jail_idx == 40 ==> forall|j: int|
                    0 <= j < i ==> board@[j].spec_kind() != TileKind::Jail,
                jail_idx < 40 ==> board@[jail_idx as int].spec_kind() == TileKind::Jail,
                start_idx == 40 ==> forall|j: int|
                    0 <= j < i ==> board@[j].spec_kind() != TileKind::Start,
                start_idx < 40 ==> board@[start_idx as int].spec_kind() == TileKind::Start,
            decreases 40 - i,
        {
            let k = board[i].kind();
            if k == TileKind::Jail {
                jail_idx = i;
            }
            if k == TileKind::Start {
                start_idx = i;
            }
            i += 1;
        }
        proof {
            if jail_idx == 40 {
                let w = choose|w: int| 0 <= w < 40 && board@[w].spec_kind() == TileKind::Jail;
                assert(board@[w].spec_kind() != TileKind::Jail);
            }
            if start_idx == 40 {
                let w = choose|w: int| 0 <= w < 40 && board@[w].spec_kind() == TileKind::Start;
                assert(board@[w].spec_kind() != TileKind::Start);
            }
        }
        BoardIndex { jail: jail_idx, start: start_idx }
    }
}

/// The board in play: its tiles and the index of the special ones.
pub struct Board {
    pub tiles: [Tile; TILES],
    pub index: BoardIndex,
}

} // verus!
