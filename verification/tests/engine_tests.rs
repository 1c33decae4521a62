use feign_engine::deck_builder::create_mock_deck;
use feign_engine::game_engine::GameEngine;
use feign_engine::models::{
    Card, CardType, Color, Creature, GamePhase, GameState, Player, PlayerAction, PlayerBoard,
};
use feign_engine::text::u32_to_string;

fn mk_card(
    id: u32,
    name: &str,
    card_type: CardType,
    mana_cost: u32,
    attack: Option<u32>,
    defense: Option<u32>,
    duration: Option<u32>,
) -> Card {
    Card {
        id,
        name: name.to_string(),
        card_type,
        color: Color::Cinder,
        mana_cost,
        description: String::new(),
        attack,
        defense,
        duration,
    }
}

fn mk_player(id: u32, name: &str) -> Player {
    Player {
        id,
        name: name.to_string(),
        life: 20,
        mana: 5,
        hand: Vec::new(),
        deck: Vec::new(),
        board: PlayerBoard { creatures: Vec::new(), feigns: Vec::new() },
    }
}

fn mk_engine(phase: GamePhase) -> GameEngine {
    GameEngine {
        state: GameState {
            player1: mk_player(1, "Alice"),
            player2: mk_player(2, "Bob"),
            current_player: 1,
            turn_number: 1,
            phase,
            global_effect: None,
            game_log: Vec::new(),
        },
    }
}

#[test]
fn new_game_setup() {
    let engine = GameEngine::new("Alice".to_string(), "Bob".to_string());
    let s = &engine.state;
    assert_eq!(s.player1.id, 1);
    assert_eq!(s.player2.id, 2);
    assert_eq!(s.player1.life, 20);
    assert_eq!(s.player2.life, 20);
    assert_eq!(s.player1.mana, 5);
    assert_eq!(s.player2.mana, 5);
    assert_eq!(s.player1.hand.len(), 5);
    assert_eq!(s.player2.hand.len(), 5);
    assert_eq!(s.player1.deck.len(), 20);
    assert_eq!(s.player2.deck.len(), 20);
    assert_eq!(s.current_player, 1);
    assert_eq!(s.turn_number, 1);
    assert_eq!(s.phase, GamePhase::Draw);
    assert!(s.global_effect.is_none());
    assert_eq!(s.game_log[0], "Game started!");
    assert_eq!(s.game_log.len(), 11);
    assert_eq!(s.game_log[1], "Alice draws a card");
    assert_eq!(s.game_log[2], "Bob draws a card");
}

#[test]
fn mock_deck_contents() {
    let deck = create_mock_deck();
    assert_eq!(deck.len(), 25);
    // Every id from 1 to 25 appears exactly once.
    let mut seen = [false; 26];
    for card in &deck {
        assert!(card.id >= 1 && card.id <= 25);
        assert!(!seen[card.id as usize]);
        seen[card.id as usize] = true;
    }
    // Type-dependent fields are populated consistently.
    for card in &deck {
        match card.card_type {
            CardType::Creature => {
                assert!(card.attack.is_some() && card.defense.is_some());
                assert!(card.duration.is_none());
            }
            CardType::Feign => {
                assert!(card.attack.is_none() && card.defense.is_none());
                assert!(card.duration.is_none());
            }
            CardType::Effect => {
                assert!(card.attack.is_none() && card.defense.is_none());
                assert!(card.duration.unwrap() >= 1);
            }
        }
    }
}

#[test]
fn not_your_turn_leaves_state_unchanged() {
    let mut engine = mk_engine(GamePhase::Placement);
    let before = engine.state.clone();
    let res = engine.process_action(2, PlayerAction::EndPhase);
    assert!(!res.success);
    assert_eq!(res.message, "It's not your turn!");
    assert!(res.new_state.is_none());
    assert_eq!(engine.state, before);
}

#[test]
fn phase_gating_for_plays() {
    let mut engine = mk_engine(GamePhase::Draw);
    engine.state.player1.hand.push(mk_card(1, "Imp", CardType::Creature, 1, Some(2), Some(1), None));
    let before = engine.state.clone();

    let res = engine.process_action(1, PlayerAction::PlayCreature { card_id: 1 });
    assert!(!res.success);
    assert_eq!(res.message, "Can only play creatures during placement phase");
    assert_eq!(engine.state, before);

    let res = engine.process_action(1, PlayerAction::PlayFeign { card_id: 1 });
    assert!(!res.success);
    assert_eq!(res.message, "Can only play feigns during placement phase");
    assert_eq!(engine.state, before);

    let res = engine.process_action(1, PlayerAction::PlayEffect { card_id: 1 });
    assert!(!res.success);
    assert_eq!(res.message, "Can only play effects during placement phase");
    assert_eq!(engine.state, before);
}

#[test]
fn phase_gating_for_attack() {
    let mut engine = mk_engine(GamePhase::Placement);
    engine.state.player1.board.creatures.push(Creature {
        card: mk_card(7, "Imp", CardType::Creature, 1, Some(2), Some(1), None),
        current_attack: 2,
        current_defense: 1,
        is_tapped: false,
    });
    let before = engine.state.clone();

    let res = engine.process_action(1, PlayerAction::Attack { creature_index: 0 });
    assert!(!res.success);
    assert_eq!(res.message, "Can only attack during attack phase");
    assert_eq!(engine.state, before);
}

#[test]
fn mana_debit_is_exact() {
    let mut engine = mk_engine(GamePhase::Placement);
    engine.state.player1.hand.push(mk_card(3, "Wolf", CardType::Creature, 2, Some(3), Some(2), None));

    let res = engine.process_action(1, PlayerAction::PlayCreature { card_id: 3 });
    assert!(res.success);
    assert_eq!(engine.state.player1.mana, 3);
    assert_eq!(engine.state.player2.mana, 5);
}

#[test]
fn hand_and_board_conservation() {
    let mut engine = mk_engine(GamePhase::Placement);
    engine.state.player1.hand.push(mk_card(3, "Wolf", CardType::Creature, 2, Some(3), Some(2), None));
    engine.state.player1.hand.push(mk_card(4, "Imp", CardType::Creature, 1, Some(2), Some(1), None));

    let res = engine.process_action(1, PlayerAction::PlayCreature { card_id: 3 });
    assert!(res.success);
    assert_eq!(res.message, "Creature played successfully");
    assert_eq!(engine.state.player1.hand.len(), 1);
    assert_eq!(engine.state.player1.hand[0].id, 4);
    assert_eq!(engine.state.player1.board.creatures.len(), 1);
    let c = &engine.state.player1.board.creatures[0];
    assert_eq!(c.card.id, 3);
    assert_eq!(c.current_attack, 3);
    assert_eq!(c.current_defense, 2);
    assert!(!c.is_tapped);
    assert_eq!(*engine.state.game_log.last().unwrap(), "Alice plays Wolf");
    assert!(res.new_state.is_some());
}

#[test]
fn failed_play_restores_hand_and_board() {
    let mut engine = mk_engine(GamePhase::Placement);
    engine.state.player1.hand.push(mk_card(3, "Giant", CardType::Creature, 9, Some(9), Some(9), None));
    let before = engine.state.clone();

    let res = engine.process_action(1, PlayerAction::PlayCreature { card_id: 3 });
    assert!(!res.success);
    assert_eq!(res.message, "Not enough mana");
    assert!(res.new_state.is_none());
    assert_eq!(engine.state, before);
}

#[test]
fn card_not_found() {
    let mut engine = mk_engine(GamePhase::Placement);
    let res = engine.process_action(1, PlayerAction::PlayCreature { card_id: 42 });
    assert!(!res.success);
    assert_eq!(res.message, "Card not found in hand");
}

#[test]
fn wrong_card_type() {
    let mut engine = mk_engine(GamePhase::Placement);
    engine.state.player1.hand.push(mk_card(8, "Trap", CardType::Feign, 1, None, None, None));
    let before = engine.state.clone();

    let res = engine.process_action(1, PlayerAction::PlayCreature { card_id: 8 });
    assert!(!res.success);
    assert_eq!(res.message, "Card is not a creature");
    assert_eq!(engine.state, before);

    let res = engine.process_action(1, PlayerAction::PlayEffect { card_id: 8 });
    assert!(!res.success);
    assert_eq!(res.message, "Card is not an effect");
    assert_eq!(engine.state, before);
}

#[test]
fn play_feign_success() {
    let mut engine = mk_engine(GamePhase::Placement);
    engine.state.player1.hand.push(mk_card(8, "Trap", CardType::Feign, 1, None, None, None));

    let res = engine.process_action(1, PlayerAction::PlayFeign { card_id: 8 });
    assert!(res.success);
    assert_eq!(res.message, "Feign played successfully");
    assert_eq!(engine.state.player1.board.feigns.len(), 1);
    assert!(!engine.state.player1.board.feigns[0].is_revealed);
    assert_eq!(engine.state.player1.mana, 4);
    assert_eq!(*engine.state.game_log.last().unwrap(), "Alice plays a feign card");
}

#[test]
fn play_effect_replaces_global_effect() {
    let mut engine = mk_engine(GamePhase::Placement);
    engine.state.player1.hand.push(mk_card(9, "Inferno", CardType::Effect, 1, None, None, Some(2)));
    engine.state.player1.hand.push(mk_card(10, "Frost", CardType::Effect, 1, None, None, Some(4)));

    let res = engine.process_action(1, PlayerAction::PlayEffect { card_id: 9 });
    assert!(res.success);
    let g = engine.state.global_effect.as_ref().unwrap();
    assert_eq!(g.card.id, 9);
    assert_eq!(g.remaining_duration, 2);
    assert_eq!(*engine.state.game_log.last().unwrap(), "Alice plays global effect: Inferno");

    let res = engine.process_action(1, PlayerAction::PlayEffect { card_id: 10 });
    assert!(res.success);
    let g = engine.state.global_effect.as_ref().unwrap();
    assert_eq!(g.card.id, 10);
    assert_eq!(g.remaining_duration, 4);
}

#[test]
fn play_effect_default_duration() {
    // An effect card without an explicit duration defaults to 3 ticks.
    let mut engine = mk_engine(GamePhase::Placement);
    engine.state.player1.hand.push(mk_card(9, "Haze", CardType::Effect, 1, None, None, None));

    let res = engine.process_action(1, PlayerAction::PlayEffect { card_id: 9 });
    assert!(res.success);
    assert_eq!(engine.state.global_effect.as_ref().unwrap().remaining_duration, 3);
}

#[test]
fn attack_taps_and_damages() {
    let mut engine = mk_engine(GamePhase::Attack);
    engine.state.player1.board.creatures.push(Creature {
        card: mk_card(7, "Imp", CardType::Creature, 1, Some(4), Some(1), None),
        current_attack: 4,
        current_defense: 1,
        is_tapped: false,
    });

    let res = engine.process_action(1, PlayerAction::Attack { creature_index: 0 });
    assert!(res.success);
    assert_eq!(res.message, "Attacked for 4 damage");
    assert!(engine.state.player1.board.creatures[0].is_tapped);
    assert_eq!(engine.state.player2.life, 16);
    assert_eq!(*engine.state.game_log.last().unwrap(), "Alice attacks with Imp for 4 damage!");
}

#[test]
fn attack_invalid_index() {
    let mut engine = mk_engine(GamePhase::Attack);
    let before = engine.state.clone();
    let res = engine.process_action(1, PlayerAction::Attack { creature_index: 0 });
    assert!(!res.success);
    assert_eq!(res.message, "No creature at that index to attack with");
    assert_eq!(engine.state, before);
}

#[test]
fn life_clamps_at_zero_and_game_ends() {
    let mut engine = mk_engine(GamePhase::Attack);
    engine.state.player2.life = 3;
    engine.state.player1.board.creatures.push(Creature {
        card: mk_card(7, "Imp", CardType::Creature, 1, Some(4), Some(1), None),
        current_attack: 4,
        current_defense: 1,
        is_tapped: false,
    });

    assert_eq!(engine.is_game_over(), None);
    let res = engine.process_action(1, PlayerAction::Attack { creature_index: 0 });
    assert!(res.success);
    assert_eq!(engine.state.player2.life, 0);
    assert_eq!(engine.is_game_over(), Some(1));
}

#[test]
fn is_game_over_reports_correct_winner() {
    let mut engine = mk_engine(GamePhase::Draw);
    assert_eq!(engine.is_game_over(), None);
    engine.state.player1.life = 0;
    assert_eq!(engine.is_game_over(), Some(2));
    engine.state.player1.life = 20;
    engine.state.player2.life = 0;
    assert_eq!(engine.is_game_over(), Some(1));
}

#[test]
fn reveal_feign_success_and_errors() {
    let mut engine = mk_engine(GamePhase::Placement);
    engine.state.player1.hand.push(mk_card(8, "Trap", CardType::Feign, 1, None, None, None));
    let res = engine.process_action(1, PlayerAction::PlayFeign { card_id: 8 });
    assert!(res.success);

    let res = engine.process_action(1, PlayerAction::RevealFeign { feign_index: 5 });
    assert!(!res.success);
    assert_eq!(res.message, "No feign at that index");

    let res = engine.process_action(1, PlayerAction::RevealFeign { feign_index: 0 });
    assert!(res.success);
    assert_eq!(res.message, "Revealed: Trap");
    assert!(engine.state.player1.board.feigns[0].is_revealed);
    assert_eq!(*engine.state.game_log.last().unwrap(), "Alice reveals feign: Trap");

    let res = engine.process_action(1, PlayerAction::RevealFeign { feign_index: 0 });
    assert!(!res.success);
    assert_eq!(res.message, "Feign already revealed");
}

#[test]
fn phase_cycle_four_end_phases() {
    let mut engine = mk_engine(GamePhase::Draw);
    let mana_before = engine.state.player1.mana;

    let res = engine.process_action(1, PlayerAction::EndPhase);
    assert!(res.success);
    assert_eq!(engine.state.phase, GamePhase::Placement);
    assert_eq!(res.message, "Phase advanced to Placement");
    assert_eq!(engine.state.player1.mana, mana_before + 2);

    engine.process_action(1, PlayerAction::EndPhase);
    assert_eq!(engine.state.phase, GamePhase::Attack);

    engine.process_action(1, PlayerAction::EndPhase);
    assert_eq!(engine.state.phase, GamePhase::EndTurn);

    let res = engine.process_action(1, PlayerAction::EndPhase);
    assert!(res.success);
    assert_eq!(engine.state.phase, GamePhase::Draw);
    assert_eq!(engine.state.turn_number, 2);
    assert_eq!(engine.state.current_player, 2);
    assert_eq!(*engine.state.game_log.last().unwrap(), "Turn 2: Bob's turn begins");
}

#[test]
fn draw_on_empty_deck_is_logged_noop() {
    let mut engine = mk_engine(GamePhase::Draw);
    let drew = engine.draw_card(1);
    assert!(!drew);
    assert_eq!(engine.state.player1.hand.len(), 0);
    assert_eq!(*engine.state.game_log.last().unwrap(), "Alice cannot draw - deck is empty!");
}

#[test]
fn draw_takes_top_of_deck() {
    let mut engine = mk_engine(GamePhase::Draw);
    engine.state.player1.deck.push(mk_card(1, "Bottom", CardType::Creature, 1, Some(1), Some(1), None));
    engine.state.player1.deck.push(mk_card(2, "Top", CardType::Creature, 1, Some(1), Some(1), None));

    let drew = engine.draw_card(1);
    assert!(drew);
    assert_eq!(engine.state.player1.hand.len(), 1);
    assert_eq!(engine.state.player1.hand[0].id, 2);
    assert_eq!(engine.state.player1.deck.len(), 1);
    assert_eq!(*engine.state.game_log.last().unwrap(), "Alice draws a card");
}

#[test]
fn global_effect_expires_after_two_ticks() {
    let mut engine = mk_engine(GamePhase::Placement);
    engine.state.player1.hand.push(mk_card(9, "Inferno", CardType::Effect, 1, None, None, Some(2)));
    let res = engine.process_action(1, PlayerAction::PlayEffect { card_id: 9 });
    assert!(res.success);
    assert_eq!(engine.state.global_effect.as_ref().unwrap().remaining_duration, 2);

    // Placement -> Attack -> EndTurn: first tick, 1 remaining, no expiry yet.
    engine.process_action(1, PlayerAction::EndPhase);
    engine.process_action(1, PlayerAction::EndPhase);
    assert_eq!(engine.state.global_effect.as_ref().unwrap().remaining_duration, 1);
    assert!(!engine.state.game_log.iter().any(|m| m.contains("expires")));

    // EndTurn -> Draw (player 2), then through to the second tick.
    engine.process_action(1, PlayerAction::EndPhase);
    engine.process_action(2, PlayerAction::EndPhase);
    engine.process_action(2, PlayerAction::EndPhase);
    assert_eq!(engine.state.global_effect.as_ref().unwrap().remaining_duration, 1);
    engine.process_action(2, PlayerAction::EndPhase);

    assert!(engine.state.global_effect.is_none());
    assert!(engine.state.game_log.iter().any(|m| m == "Global effect Inferno expires"));
}

#[test]
fn decimal_rendering_is_exact() {
    assert_eq!(u32_to_string(0), "0");
    assert_eq!(u32_to_string(7), "7");
    assert_eq!(u32_to_string(10), "10");
    assert_eq!(u32_to_string(255), "255");
    assert_eq!(u32_to_string(1000), "1000");
    assert_eq!(u32_to_string(u32::MAX), "4294967295");
}
