use board_render::action_cards::{Action, ActionCard, CardStack};
use board_render::board::{Board, BoardIndex, CardKind, Tile, TileKind, TILES};
use board_render::game::{Game, GameState, INITIAL_CURRENCY};
use board_render::player::Character;
use board_render::property::{DefinedProperty, PropertyFrame, PropertyType};
use board_render::ui::UiEvent;

fn frame(id: usize, name: &str) -> PropertyFrame {
    PropertyFrame {
        id,
        name: name.to_string(),
        buy_price: 100,
        rents: [Some(10), Some(20), Some(30), Some(40), Some(50), Some(60)],
        ty: PropertyType::Normal { associates: [None, None] },
    }
}

fn small_board() -> Board {
    let tiles: [Tile; TILES] = std::array::from_fn(|i| {
        if i == 0 {
            Tile::Start { name: "Start".to_string() }
        } else if i == 10 {
            Tile::Jail { name: "Jail".to_string() }
        } else if i == 3 {
            Tile::Property { property: frame(0, "DarkBlue1") }
        } else if i == 5 {
            Tile::Property { property: frame(1, "DarkBlue2") }
        } else if i == 7 {
            Tile::DrawCard { kind: CardKind::Chance }
        } else {
            Tile::Parking { name: format!("Free{}", i) }
        }
    });
    let index = BoardIndex::new(&tiles);
    Board { tiles, index }
}

fn cards() -> Vec<ActionCard> {
    vec![
        ActionCard { text: "Go to jail".to_string(), action: Action::GoToJail },
        ActionCard { text: "Pay 2$".to_string(), action: Action::DirectCurrency { amount: -2 } },
        ActionCard { text: "Get 2$".to_string(), action: Action::DirectCurrency { amount: 2 } },
        ActionCard { text: "Wait 1 round".to_string(), action: Action::Wait { rounds: 1 } },
    ]
}

#[test]
fn board_index_finds_start_and_jail() {
    let board = small_board();
    assert_eq!(board.index.start, 0);
    assert_eq!(board.index.jail, 10);
    assert_eq!(board.tiles[10].kind(), TileKind::Jail);
    assert_eq!(board.tiles[3].kind(), TileKind::Property);
    assert_eq!(board.tiles[7].kind(), TileKind::DrawCard);
}

#[test]
fn new_game_defines_properties_in_board_order() {
    let game = Game::new(small_board(), cards(), vec![]);
    assert_eq!(game.properties.len(), 2);
    assert_eq!(game.properties[0].frame.name, "DarkBlue1");
    assert_eq!(game.properties[1].frame.name, "DarkBlue2");
    assert_eq!(game.properties[0].houses, 0);
    assert_eq!(game.properties[0].owner, None);
    assert_eq!(game.game_state, GameState::Login);
    assert_eq!(game.curr_player, 0);
    assert!(game.players.is_empty());
}

#[test]
fn card_stacks_split_the_deck() {
    let game = Game::new(small_board(), cards(), vec![]);
    let first = &game.card_stacks[0];
    let second = &game.card_stacks[1];
    assert_eq!(first.len(), 2, "half the deck is drawn at random");
    for i in 0..first.len() {
        assert!(first.get(i) < 4);
    }
    // The second stack holds exactly the indices the first one missed,
    // ascending.
    let drawn: Vec<usize> = (0..first.len()).map(|i| first.get(i)).collect();
    let expected: Vec<usize> = (0..4).filter(|x| !drawn.contains(x)).collect();
    let got: Vec<usize> = (0..second.len()).map(|i| second.get(i)).collect();
    assert_eq!(got, expected);
}

#[test]
fn card_stack_draw_stays_in_the_stack() {
    let stack = CardStack::new(vec![5, 9, 11]);
    for _ in 0..50 {
        let c = stack.draw();
        assert!(c == 5 || c == 9 || c == 11);
    }
}

#[test]
fn tick_rotates_turns_only_with_players() {
    let mut game = Game::new(small_board(), cards(), vec![]);
    game.tick();
    assert_eq!(game.curr_player, 0, "no players seated, the turn stays put");
    game.add_player(0);
    game.add_player(1);
    game.tick();
    assert_eq!(game.curr_player, 1);
    game.tick();
    assert_eq!(game.curr_player, 0);
}

#[test]
fn add_player_seats_at_start_with_initial_money() {
    let mut game = Game::new(small_board(), cards(), vec![]);
    game.add_player(3);
    assert_eq!(game.players.len(), 1);
    let p = &game.players[0];
    assert_eq!(p.currency, INITIAL_CURRENCY);
    assert_eq!(p.id, 0);
    assert_eq!(p.character_id, 3);
    assert_eq!(p.position, game.board.index.start);
    assert_eq!(p.jail_free_cards, 0);
    assert_eq!(p.wait, 0);
    assert!(p.name.is_empty());
    assert!(p.properties.is_empty());
}

#[test]
fn ui_events_drive_the_session() {
    let mut game = Game::new(small_board(), cards(), vec![Character {
        name: "Hat".to_string(),
        id: 0,
        model_path: "hat.obj".to_string(),
    }]);
    game.apply(UiEvent::AddPlayer { character_id: 0 });
    assert_eq!(game.players.len(), 1);
    assert_eq!(game.game_state, GameState::Login);
    game.apply(UiEvent::StartGame);
    assert_eq!(game.game_state, GameState::InGame);
    assert_eq!(game.players.len(), 1);
}

#[test]
fn normal_rent_follows_the_house_table() {
    let p = DefinedProperty { frame: frame(0, "DarkBlue1"), houses: 3, owner: Some(1) };
    assert_eq!(p.calculate_price(12), 40);
}

#[test]
fn station_rent_ignores_moves() {
    let mut f = frame(2, "Station1");
    f.ty = PropertyType::Station;
    let p = DefinedProperty { frame: f, houses: 0, owner: None };
    assert_eq!(p.calculate_price(11), 10);
}

#[test]
fn special_rent_scales_with_moves() {
    let mut f = frame(3, "Special1");
    f.ty = PropertyType::Special;
    f.rents = [Some(4), None, None, None, None, None];
    let p = DefinedProperty { frame: f, houses: 0, owner: None };
    assert_eq!(p.calculate_price(9), 36);
    assert_eq!(p.calculate_price(0), 0);
}
