use feign_engine::commands::GameManager;
use feign_engine::models::PlayerAction;

#[test]
fn no_active_game_errors() {
    let mut manager = GameManager::new();
    assert_eq!(manager.get_game_state().unwrap_err(), "No active game");
    assert_eq!(manager.get_game_log().unwrap_err(), "No active game");
    assert_eq!(manager.check_game_over().unwrap_err(), "No active game");
    assert_eq!(
        manager.process_action(1, PlayerAction::EndPhase).unwrap_err(),
        "No active game"
    );
}

#[test]
fn create_game_returns_snapshot() {
    let mut manager = GameManager::new();
    let snapshot = manager.create_game("Alice".to_string(), "Bob".to_string()).unwrap();
    assert_eq!(snapshot.player1.name, "Alice");
    assert_eq!(snapshot.player2.name, "Bob");
    assert_eq!(snapshot.player1.life, 20);
    assert_eq!(snapshot.current_player, 1);

    let state = manager.get_game_state().unwrap();
    assert_eq!(state, snapshot);
}

#[test]
fn process_action_through_manager() {
    let mut manager = GameManager::new();
    manager.create_game("Alice".to_string(), "Bob".to_string()).unwrap();

    let res = manager.process_action(2, PlayerAction::EndPhase).unwrap();
    assert!(!res.success);
    assert_eq!(res.message, "It's not your turn!");

    let res = manager.process_action(1, PlayerAction::EndPhase).unwrap();
    assert!(res.success);
    let state = manager.get_game_state().unwrap();
    assert_eq!(state.player1.hand.len(), 6);
    assert_eq!(state.player1.mana, 7);

    assert_eq!(manager.check_game_over().unwrap(), None);

    let log = manager.get_game_log().unwrap();
    assert_eq!(log[0], "Game started!");
    assert_eq!(*log.last().unwrap(), "Entering placement phase");
}

#[test]
fn reset_game_discards_session() {
    let mut manager = GameManager::new();
    manager.create_game("Alice".to_string(), "Bob".to_string()).unwrap();
    assert!(manager.get_game_state().is_ok());

    let msg = manager.reset_game().unwrap();
    assert_eq!(msg, "Game reset");
    assert_eq!(manager.get_game_state().unwrap_err(), "No active game");
}
