//! The session layer: an explicitly owned [`GameManager`] holding at most
//! one active game, with the operations the hosting process calls. Reads and
//! mutations of an uninitialized session fail with "No active game".

use vstd::prelude::*;
use vstd::string::StringExecFns;

use crate::game_engine::{action_case, action_limits_ok, spec_game_over, GameEngine};
use crate::models::{ActionResult, GamePhase, GameState, PlayerAction};

verus! {

/// The owned session object: at most one active game at a time. The hosting
/// process serializes access to it (behind its own lock).
pub struct GameManager {
    pub engine: Option<GameEngine>,
}

impl GameManager {
    /// The session invariant: the active game, if any, is well formed.
    pub open spec fn wf(&self) -> bool {
        self.engine matches Some(e) ==> e.wf()
    }

    /// A fresh manager with no active game.
    pub fn new() -> (r: GameManager)
        ensures
            r.engine is None,
            r.wf(),
    {
        GameManager { engine: None }
    }

    /// Creates a new game, replacing any active session, and returns a full
    /// snapshot of the fresh state.
    pub fn create_game(&mut self, player1_name: String, player2_name: String) -> (r: Result<
        GameState,
        String,
    >)
        ensures
            final(self).wf(),
            final(self).engine matches Some(e) && {
                &&& (match r {
                    Ok(st) => st@ == e.state@,
                    Err(_) => false,
                })
                &&& e.state@.player1.name == player1_name@
                &&& e.state@.player2.name == player2_name@
                &&& e.state@.player1.life == 20
                &&& e.state@.player2.life == 20
                &&& e.state@.player1.mana == 5
                &&& e.state@.player2.mana == 5
                &&& e.state@.player1.hand.len() == 5
                &&& e.state@.player2.hand.len() == 5
                &&& e.state@.current_player == 1
                &&& e.state@.turn_number == 1
                &&& e.state@.phase == GamePhase::Draw
                &&& e.state@.global_effect is None
            },
    {
        let engine = GameEngine::new(player1_name, player2_name);
        let state = engine.state.clone();
        self.engine = Some(engine);
        Ok(state)
    }

    /// Returns a snapshot of the current game state.
    pub fn get_game_state(&self) -> (r: Result<GameState, String>)
        ensures
            match r {
                Ok(st) => self.engine matches Some(e) && st@ == e.state@,
                Err(m) => self.engine is None && m@ == "No active game"@,
            },
    {
        match &self.engine {
            Some(engine) => Ok(engine.state.clone()),
            None => Err(String::from_str("No active game")),
        }
    }

    /// Processes a player action against the active game.
    pub fn process_action(&mut self, player_id: u32, action: PlayerAction) -> (r: Result<
        ActionResult,
        String,
    >)
        requires
            old(self).wf(),
            old(self).engine matches Some(e) ==> action_limits_ok(e.state@, player_id, action),
        ensures
            final(self).wf(),
            old(self).engine is None ==> final(self).engine is None && (match r {
                Ok(_) => false,
                Err(m) => m@ == "No active game"@,
            }),
            old(self).engine matches Some(e) ==> (match r {
                Ok(res) => final(self).engine matches Some(e2) && action_case(
                    e.state@,
                    e2.state@,
                    player_id,
                    action,
                    res,
                ),
                Err(_) => false,
            }),
    {
        match &mut self.engine {
            Some(engine) => Ok(engine.process_action(player_id, action)),
            None => Err(String::from_str("No active game")),
        }
    }

    /// Reports whether the game is over and who won.
    pub fn check_game_over(&self) -> (r: Result<Option<u32>, String>)
        ensures
            match r {
                Ok(w) => self.engine matches Some(e) && w == spec_game_over(e.state@),
                Err(m) => self.engine is None && m@ == "No active game"@,
            },
    {
        match &self.engine {
            Some(engine) => Ok(engine.is_game_over()),
            None => Err(String::from_str("No active game")),
        }
    }

    /// Returns the full game log.
    pub fn get_game_log(&self) -> (r: Result<Vec<String>, String>)
        ensures
            match r {
                Ok(log) => self.engine matches Some(e) && log.deep_view() == e.state@.game_log,
                Err(m) => self.engine is None && m@ == "No active game"@,
            },
    {
        match &self.engine {
            Some(engine) => {
                let log = engine.state.game_log.clone();
                proof {
                    assert forall|i: int| 0 <= i < log@.len() implies log@[i]
                        == engine.state.game_log@[i] by {
                        assert(cloned::<String>(engine.state.game_log[i], log[i]));
                    }
                    assert(log.deep_view() =~= engine.state.game_log.deep_view());
                }
                Ok(log)
            },
            None => Err(String::from_str("No active game")),
        }
    }

    /// Discards the active session.
    pub fn reset_game(&mut self) -> (r: Result<String, String>)
        ensures
            final(self).engine is None,
            final(self).wf(),
            match r {
                Ok(m) => m@ == "Game reset"@,
                Err(_) => false,
            },
    {
        self.engine = None;
        Ok(String::from_str("Game reset"))
    }
}

} // verus!
