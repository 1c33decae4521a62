use feign_engine::combat::CombatResolver;
use feign_engine::models::{
    Card, CardType, Color, Creature, FeignCard, GamePhase, GameState, Player, PlayerBoard,
};

fn mk_card(
    id: u32,
    name: &str,
    card_type: CardType,
    mana_cost: u32,
    attack: Option<u32>,
    defense: Option<u32>,
    duration: Option<u32>,
) -> Card {
    Card {
        id,
        name: name.to_string(),
        card_type,
        color: Color::Verdant,
        mana_cost,
        description: String::new(),
        attack,
        defense,
        duration,
    }
}

fn mk_creature(id: u32, name: &str, atk: u32, def: u32) -> Creature {
    Creature {
        card: mk_card(id, name, CardType::Creature, 1, Some(atk), Some(def), None),
        current_attack: atk,
        current_defense: def,
        is_tapped: false,
    }
}

fn mk_player(id: u32, name: &str, life: u32) -> Player {
    Player {
        id,
        name: name.to_string(),
        life,
        mana: 5,
        hand: Vec::new(),
        deck: Vec::new(),
        board: PlayerBoard { creatures: Vec::new(), feigns: Vec::new() },
    }
}

fn mk_state(player1: Player, player2: Player) -> GameState {
    GameState {
        player1,
        player2,
        current_player: 1,
        turn_number: 1,
        phase: GamePhase::Attack,
        global_effect: None,
        game_log: Vec::new(),
    }
}

#[test]
fn combat_trade_exact_values() {
    // Attacker 5/3 vs defender 2/4: the defender is destroyed (5 >= 4) with
    // 1 point of excess damage; the attacker takes 2 and survives at 1.
    let mut p1 = mk_player(1, "Alice", 20);
    p1.board.creatures.push(mk_creature(50, "Striker", 5, 3));
    let mut p2 = mk_player(2, "Bob", 20);
    p2.board.creatures.push(mk_creature(51, "Blocker", 2, 4));
    let mut state = mk_state(p1, p2);

    let result = CombatResolver::resolve_combat(&mut state, 1, 0);

    assert_eq!(result.summary, "Combat resolved");
    assert!(state.player2.board.creatures.is_empty());
    assert_eq!(state.player2.life, 19);
    assert_eq!(state.player1.board.creatures.len(), 1);
    assert_eq!(state.player1.board.creatures[0].current_defense, 1);
    assert_eq!(state.player1.board.creatures[0].current_attack, 5);
}

#[test]
fn combat_mutual_destruction() {
    // 5/2 vs 4/4: both creatures reach the other's defense; both leave.
    let mut p1 = mk_player(1, "Alice", 20);
    p1.board.creatures.push(mk_creature(50, "Striker", 5, 2));
    let mut p2 = mk_player(2, "Bob", 20);
    p2.board.creatures.push(mk_creature(51, "Blocker", 4, 4));
    let mut state = mk_state(p1, p2);

    CombatResolver::resolve_combat(&mut state, 1, 0);

    assert!(state.player1.board.creatures.is_empty());
    assert!(state.player2.board.creatures.is_empty());
    assert_eq!(state.player2.life, 19); // 1 excess damage
    assert_eq!(state.player1.life, 20);
}

#[test]
fn combat_defender_survives() {
    // 2/3 vs 1/4: defender survives at 4 - 2 = 2; attacker survives at 2.
    let mut p1 = mk_player(1, "Alice", 20);
    p1.board.creatures.push(mk_creature(50, "Striker", 2, 3));
    let mut p2 = mk_player(2, "Bob", 20);
    p2.board.creatures.push(mk_creature(51, "Blocker", 1, 4));
    let mut state = mk_state(p1, p2);

    CombatResolver::resolve_combat(&mut state, 1, 0);

    assert_eq!(state.player2.board.creatures[0].current_defense, 2);
    assert_eq!(state.player1.board.creatures[0].current_defense, 2);
    assert_eq!(state.player2.life, 20);
}

#[test]
fn combat_direct_attack() {
    // Empty defending column, attack 4: life decreases by exactly 4.
    let mut p1 = mk_player(1, "Alice", 20);
    p1.board.creatures.push(mk_creature(50, "Striker", 4, 3));
    let p2 = mk_player(2, "Bob", 20);
    let mut state = mk_state(p1, p2);

    let result = CombatResolver::resolve_combat(&mut state, 1, 0);

    assert_eq!(result.summary, "Direct attack for 4 damage");
    assert_eq!(state.player2.life, 16);
}

#[test]
fn combat_direct_attack_clamps_life_at_zero() {
    // Life 3, attack 4: life becomes 0, not negative.
    let mut p1 = mk_player(1, "Alice", 20);
    p1.board.creatures.push(mk_creature(50, "Striker", 4, 3));
    let p2 = mk_player(2, "Bob", 3);
    let mut state = mk_state(p1, p2);

    CombatResolver::resolve_combat(&mut state, 1, 0);

    assert_eq!(state.player2.life, 0);
}

#[test]
fn combat_no_attacking_creature() {
    let p1 = mk_player(1, "Alice", 20);
    let p2 = mk_player(2, "Bob", 20);
    let mut state = mk_state(p1, p2);
    let before = state.clone();

    let result = CombatResolver::resolve_combat(&mut state, 1, 0);

    assert_eq!(result.summary, "No creature to attack with");
    assert_eq!(state, before);
}

#[test]
fn combat_player_two_attacks_player_one() {
    let p1 = mk_player(1, "Alice", 10);
    let mut p2 = mk_player(2, "Bob", 20);
    p2.board.creatures.push(mk_creature(52, "Raider", 6, 1));
    let mut state = mk_state(p1, p2);

    CombatResolver::resolve_combat(&mut state, 2, 0);

    assert_eq!(state.player1.life, 4);
    assert_eq!(state.player2.life, 20);
}

#[test]
fn apply_feign_effects_reveals_shield_trap() {
    let mut p1 = mk_player(1, "Alice", 20);
    p1.board.feigns.push(FeignCard {
        card: mk_card(60, "Shield Trap", CardType::Feign, 1, None, None, None),
        is_revealed: false,
    });
    let p2 = mk_player(2, "Bob", 20);
    let mut state = mk_state(p1, p2);

    let entries = CombatResolver::apply_feign_effects(&mut state, 1, 0);

    assert!(state.player1.board.feigns[0].is_revealed);
    assert_eq!(
        entries,
        vec![
            "Feign Shield Trap is revealed!".to_string(),
            "Shield Trap activates - damage reduced!".to_string(),
        ]
    );
}

#[test]
fn apply_feign_effects_generic_name() {
    let mut p2 = mk_player(2, "Bob", 20);
    p2.board.feigns.push(FeignCard {
        card: mk_card(61, "Mana Boost", CardType::Feign, 1, None, None, None),
        is_revealed: false,
    });
    let p1 = mk_player(1, "Alice", 20);
    let mut state = mk_state(p1, p2);

    let entries = CombatResolver::apply_feign_effects(&mut state, 2, 0);

    assert!(state.player2.board.feigns[0].is_revealed);
    assert_eq!(entries[1], "Mana Boost effect activates");
}

#[test]
fn apply_feign_effects_already_revealed_is_noop() {
    let mut p1 = mk_player(1, "Alice", 20);
    p1.board.feigns.push(FeignCard {
        card: mk_card(60, "Shield Trap", CardType::Feign, 1, None, None, None),
        is_revealed: true,
    });
    let p2 = mk_player(2, "Bob", 20);
    let mut state = mk_state(p1, p2);
    let before = state.clone();

    let entries = CombatResolver::apply_feign_effects(&mut state, 1, 0);

    assert!(entries.is_empty());
    assert_eq!(state, before);
}

#[test]
fn apply_feign_effects_out_of_range_is_noop() {
    let p1 = mk_player(1, "Alice", 20);
    let p2 = mk_player(2, "Bob", 20);
    let mut state = mk_state(p1, p2);
    let before = state.clone();

    let entries = CombatResolver::apply_feign_effects(&mut state, 1, 3);

    assert!(entries.is_empty());
    assert_eq!(state, before);
}
