//! The game session: the plain state the UI callbacks act on.
//!
//! Callbacks do not close over ambient globals; dispatch returns
//! [`crate::ui::UiEvent`] values and [`Game::apply`] carries them into
//! this state.

use vstd::prelude::*;
use crate::action_cards::{ActionCard, CardStack};
use crate::board::{Board, Tile};
use crate::frame::ModeledInstance;
use crate::player::{Character, Player};
use crate::property::{DefinedProperty, PropertyFrame};
use crate::ui::UiEvent;

verus! {

/// The money a player starts with.
pub const INITIAL_CURRENCY: usize = 400;

/// Which screen drives the session.
#[derive(Copy, Clone, PartialEq, Eq, Structural, Debug)]
pub enum GameState {
    Login,
    InGame,
    Finished,
}

/// The property frames of the board's property tiles, in board order.
pub open spec fn spec_property_frames(ts: Seq<Tile>) -> Seq<PropertyFrame>
    decreases ts.len(),
{
    if ts.len() == 0 {
        Seq::empty()
    } else {
        let prev = spec_property_frames(ts.drop_last());
        match ts.last() {
            Tile::Property { property } => prev.push(property),
            _ => prev,
        }
    }
}

/// The indices below `n` that a drawn list does not contain, ascending.
pub open spec fn spec_complement(drawn: Seq<usize>, n: int) -> Seq<usize>
    decreases n,
{
    if n <= 0 {
        Seq::empty()
    } else {
        let prev = spec_complement(drawn, n - 1);
        if drawn.contains((n - 1) as usize) {
            prev
        } else {
            prev.push((n - 1) as usize)
        }
    }
}

fn contains_index(v: &Vec<usize>, x: usize) -> (r: bool)
    ensures
        r == v@.contains(x),
{
    let mut k: usize = 0;
    let mut found = false;
    while k < v.len()
        invariant
            0 <= k <= v@.len(),
            found ==> v@.contains(x),
            !found ==> forall|j: int| 0 <= j < k ==> v@[j] != x,
        decreases v@.len() - k,
    {
        if v[k] == x {
            found = true;
        }
        k += 1;
    }
    proof {
        if !found && v@.contains(x) {
            let w = choose|w: int| 0 <= w < v@.len() && v@[w] == x;
            assert(v@[w] != x);
        }
    }
    found
}

/// The whole session state: players, properties, cards and stacks, the
/// board, and the per-frame 3-D instance list the screens fill.
pub struct Game {
    pub players: Vec<Player>,
    pub properties: Vec<DefinedProperty>,
    pub cards: Vec<ActionCard>,
    pub card_stacks: [CardStack; 2],
    pub curr_player: usize,
    pub board: Board,
    pub game_state: GameState,
    pub characters: Vec<Character>,
    pub models: Vec<ModeledInstance>,
}

impl Game {
    /// Builds a fresh session from loaded data: one defined property per
    /// property tile (unowned, no houses), one random stack of half the
    /// cards, and a second stack holding exactly the cards the first one
    /// missed, ascending.
    pub fn new(board: Board, cards: Vec<ActionCard>, characters: Vec<Character>) -> (g: Game)
        ensures
            g.players@.len() == 0,
            g.properties@.len() == spec_property_frames(board.tiles@).len(),
            forall|k: int|
                0 <= k < g.properties@.len() ==> (#[trigger] g.properties@[k]).frame
                    == spec_property_frames(board.tiles@)[k] && g.properties@[k].houses == 0
                    && g.properties@[k].owner is None,
            g.cards == cards,
            g.card_stacks@[0]@.len() == cards@.len() / 2,
            forall|k: int|
                0 <= k < g.card_stacks@[0]@.len() ==> #[trigger] g.card_stacks@[0]@[k]
                    < cards@.len(),
            g.card_stacks@[1]@ == spec_complement(g.card_stacks@[0]@, cards@.len() as int),
            g.curr_player == 0,
            g.board == board,
            g.game_state == GameState::Login,
            g.characters == characters,
            g.models@.len() == 0,
    {
        let mut properties: Vec<DefinedProperty> = Vec::new();
        let mut i: usize = 0;
        while i < crate::board::TILES
            invariant
                0 <= i <= 40,
                properties@.len() == spec_property_frames(board.tiles@.subrange(0, i as int)).len(),
                forall|k: int|
                    0 <= k < properties@.len() ==> (#[trigger] properties@[k]).frame
                        == spec_property_frames(board.tiles@.subrange(0, i as int))[k]
                        && properties@[k].houses == 0 && properties@[k].owner is None,
            decreases 40 - i,
        {
            proof {
                assert(board.tiles@.subrange(0, i + 1).drop_last() =~= board.tiles@.subrange(
                    0,
                    i as int,
                ));
                assert(board.tiles@.subrange(0, i + 1).last() == board.tiles@[i as int]);
            }
            match &board.tiles[i] {
                Tile::Property { property } => {
                    properties.push(
                        DefinedProperty { frame: property.clone(), houses: 0, owner: None },
                    );
                }
                _ => {}
            }
            i += 1;
        }
        proof {
            assert(board.tiles@.subrange(0, 40) =~= board.tiles@);
        }
        let half = cards.len() / 2;
        let mut first_card_stack: Vec<usize> = Vec::new();
        while first_card_stack.len() < half
            invariant
                first_card_stack@.len() <= half,
                half == cards@.len() / 2,
                forall|k: int|
                    0 <= k < first_card_stack@.len() ==> #[trigger] first_card_stack@[k]
                        < cards@.len(),
            decreases half - first_card_stack@.len(),
        {
            let card = crate::action_cards::random_below(cards.len());
            first_card_stack.push(card);
        }
        let mut second_card_stack: Vec<usize> = Vec::new();
        let mut x: usize = 0;
        while x < cards.len()
            invariant
                0 <= x <= cards@.len(),
                second_card_stack@ == spec_complement(first_card_stack@, x as int),
            decreases cards@.len() - x,
        {
            if !contains_index(&first_card_stack, x) {
                second_card_stack.push(x);
            }
            x += 1;
        }
        Game {
            players: Vec::new(),
            properties,
            cards,
            card_stacks: [CardStack::new(first_card_stack), CardStack::new(second_card_stack)],
            curr_player: 0,
            board,
            game_state: GameState::Login,
            characters,
            models: Vec::new(),
        }
    }

    /// Advances the turn to the next player, wrapping around; with no
    /// players seated the turn stays put.
    pub fn tick(&mut self)
        requires
            old(self).curr_player < usize::MAX,
        ensures
            *final(self) == (Game {
                curr_player: if old(self).players@.len() == 0 {
                    old(self).curr_player
                } else {
                    ((old(self).curr_player + 1) % (old(self).players@.len() as int)) as usize
                },
                ..*old(self)
            }),
    {
        let players = self.players.len();
        if players != 0 {
            self.curr_player = (self.curr_player + 1) % players;
        }
    }

    /// Seats a new player on the chosen character, at the start tile,
    /// with the initial money.
    pub fn add_player(&mut self, char_id: usize)
        ensures
            final(self).players@.len() == old(self).players@.len() + 1,
            forall|k: int|
                0 <= k < old(self).players@.len() ==> final(self).players@[k] == old(
                    self,
                ).players@[k],
            final(self).players@.last().name@ == Seq::<char>::empty(),
            final(self).players@.last().currency == INITIAL_CURRENCY,
            final(self).players@.last().id == old(self).players@.len(),
            final(self).players@.last().character_id == char_id,
            final(self).players@.last().properties@.len() == 0,
            final(self).players@.last().position == old(self).board.index.start,
            final(self).players@.last().jail_free_cards == 0,
            final(self).players@.last().jail_free_throws == 0,
            final(self).players@.last().wait == 0,
            final(self).properties == old(self).properties,
            final(self).cards == old(self).cards,
            final(self).card_stacks == old(self).card_stacks,
            final(self).curr_player == old(self).curr_player,
            final(self).board == old(self).board,
            final(self).game_state == old(self).game_state,
            final(self).characters == old(self).characters,
            final(self).models == old(self).models,
    {
        let len = self.players.len();
        let start = self.board.index.start;
        self.players.push(
            Player {
                name: String::new(),
                currency: INITIAL_CURRENCY,
                id: len,
                character_id: char_id,
                properties: Vec::new(),
                position: start,
                jail_free_cards: 0,
                jail_free_throws: 0,
                wait: 0,
            },
        );
    }

    /// Carries one UI event into the session: a character pick seats its
    /// player, the start request moves the session into the game.
    pub fn apply(&mut self, event: UiEvent)
        ensures
            match event {
                UiEvent::AddPlayer { character_id } => {
                    &&& final(self).players@.len() == old(self).players@.len() + 1
                    &&& final(self).players@.last().character_id == character_id
                    &&& final(self).players@.last().currency == INITIAL_CURRENCY
                    &&& final(self).game_state == old(self).game_state
                },
                UiEvent::StartGame => *final(self) == (Game {
                    game_state: GameState::InGame,
                    ..*old(self)
                }),
            },
    {
        match event {
            UiEvent::AddPlayer { character_id } => {
                self.add_player(character_id);
            }
            UiEvent::StartGame => {
                self.game_state = GameState::InGame;
            }
        }
    }
}

} // verus!
