//! Combat resolution: one creature attacking into a board column, with
//! simultaneous bidirectional damage, destruction, excess damage to the
//! defending player's life, and feign reveals during combat.

use vstd::prelude::*;
use vstd::string::StringExecFns;

use crate::models::{revealed_at, CreatureV, GameState, Player, PlayerBoardV, PlayerV};
use crate::text::{decimal, u32_to_string};

verus! {

/// Result of a combat resolution.
pub struct CombatResult {
    pub summary: String,
    pub log_entries: Vec<String>,
}

/// Handles combat resolution between creatures.
pub struct CombatResolver;

/// A creature after taking `dmg` points of (non-lethal) damage.
pub open spec fn damaged_creature(c: CreatureV, dmg: u32) -> CreatureV {
    CreatureV { current_defense: (c.current_defense - dmg) as u32, ..c }
}

/// The defending player after an attack of `atk` hits the creature at
/// `column`: the creature is destroyed when `atk` reaches its defense (excess
/// damage going to the player's life, floor-clamped), and otherwise survives
/// with its defense reduced.
pub open spec fn defender_after_combat(d: PlayerV, column: int, atk: u32) -> PlayerV {
    let dc = d.board.creatures[column];
    if atk >= dc.current_defense {
        PlayerV {
            life: d.life.saturating_sub((atk - dc.current_defense) as u32),
            board: PlayerBoardV { creatures: d.board.creatures.remove(column), ..d.board },
            ..d
        }
    } else {
        PlayerV {
            board: PlayerBoardV {
                creatures: d.board.creatures.update(column, damaged_creature(dc, atk)),
                ..d.board
            },
            ..d
        }
    }
}

/// The attacking player after its creature at `column` takes `dmg` back:
/// destroyed when `dmg` reaches its defense, reduced when `0 < dmg`, and
/// untouched when `dmg` is zero.
pub open spec fn attacker_after_combat(a: PlayerV, column: int, dmg: u32) -> PlayerV {
    let ac = a.board.creatures[column];
    if dmg >= ac.current_defense {
        PlayerV {
            board: PlayerBoardV { creatures: a.board.creatures.remove(column), ..a.board },
            ..a
        }
    } else if dmg > 0 {
        PlayerV {
            board: PlayerBoardV {
                creatures: a.board.creatures.update(column, damaged_creature(ac, dmg)),
                ..a.board
            },
            ..a
        }
    } else {
        a
    }
}

/// The defending player after an unblocked attack: full damage to life,
/// floor-clamped at zero.
pub open spec fn direct_attack(d: PlayerV, atk: u32) -> PlayerV {
    PlayerV { life: d.life.saturating_sub(atk), ..d }
}

/// How one combat step transforms the attacking and defending players.
pub open spec fn combat_rel(a: PlayerV, d: PlayerV, a2: PlayerV, d2: PlayerV, column: int) -> bool {
    if column >= a.board.creatures.len() {
        a2 == a && d2 == d
    } else {
        let ac = a.board.creatures[column];
        if column < d.board.creatures.len() {
            let dc = d.board.creatures[column];
            &&& d2 == defender_after_combat(d, column, ac.current_attack)
            &&& a2 == attacker_after_combat(a, column, dc.current_attack)
        } else {
            &&& d2 == direct_attack(d, ac.current_attack)
            &&& a2 == a
        }
    }
}

/// How many log entries one combat step produces: one note when there is no
/// attacker; attack and outcome lines for a direct attack; and for creature
/// combat the attack, defense and per-creature outcome lines, plus an excess
/// damage line when the defender is destroyed with attack to spare.
pub open spec fn combat_log_count(a: PlayerV, d: PlayerV, column: int) -> int {
    if column >= a.board.creatures.len() {
        1
    } else {
        let ac = a.board.creatures[column];
        if column < d.board.creatures.len() {
            let dc = d.board.creatures[column];
            let defender_lines: int = if ac.current_attack >= dc.current_defense {
                if ac.current_attack > dc.current_defense {
                    2
                } else {
                    1
                }
            } else {
                1
            };
            let attacker_lines: int = if dc.current_attack >= ac.current_defense {
                1
            } else if dc.current_attack > 0 {
                1
            } else {
                0
            };
            2 + defender_lines + attacker_lines
        } else {
            2
        }
    }
}

/// The summary a combat step reports.
pub open spec fn combat_summary(a: PlayerV, d: PlayerV, column: int) -> Seq<char> {
    if column >= a.board.creatures.len() {
        "No creature to attack with"@
    } else if column < d.board.creatures.len() {
        "Combat resolved"@
    } else {
        "Direct attack for "@ + decimal(a.board.creatures[column].current_attack as nat)
            + " damage"@
    }
}

/// The effect line logged for a revealed feign, dispatched on its name.
pub open spec fn feign_effect_line(name: Seq<char>) -> Seq<char> {
    if name == "Shield Trap"@ {
        "Shield Trap activates - damage reduced!"@
    } else if name == "Counter Strike"@ {
        "Counter Strike activates - attacker takes damage!"@
    } else {
        name + " effect activates"@
    }
}

/// How revealing the feign at `column` transforms a player and which log
/// entries it produces: an unrevealed feign in range becomes permanently
/// revealed with two log lines; anything else is a no-op.
pub open spec fn feign_reveal_rel(p: PlayerV, q: PlayerV, column: int, entries: Seq<Seq<char>>) -> bool {
    if 0 <= column < p.board.feigns.len() && !p.board.feigns[column].is_revealed {
        let name = p.board.feigns[column].card.name;
        &&& q == PlayerV {
            board: PlayerBoardV { feigns: revealed_at(p.board.feigns, column), ..p.board },
            ..p
        }
        &&& entries == seq!["Feign "@ + name + " is revealed!"@, feign_effect_line(name)]
    } else {
        q == p && entries.len() == 0
    }
}

impl CombatResolver {
    /// Apply feign effects during combat: reveals an unrevealed feign of the
    /// given player in the given column and reports the effect lines
    /// (mechanical effects beyond logging are placeholders in current scope).
    /// Player 1's board is used when `player_id` is 1, player 2's otherwise.
    pub fn apply_feign_effects(state: &mut GameState, player_id: u32, column: usize) -> (log_entries:
        Vec<String>)
        ensures
            player_id == 1 ==> feign_reveal_rel(
                old(state)@.player1,
                final(state)@.player1,
                column as int,
                log_entries.deep_view(),
            ) && final(state)@.player2 == old(state)@.player2,
            player_id != 1 ==> feign_reveal_rel(
                old(state)@.player2,
                final(state)@.player2,
                column as int,
                log_entries.deep_view(),
            ) && final(state)@.player1 == old(state)@.player1,
            final(state)@.current_player == old(state)@.current_player,
            final(state)@.turn_number == old(state)@.turn_number,
            final(state)@.phase == old(state)@.phase,
            final(state)@.global_effect == old(state)@.global_effect,
            final(state)@.game_log == old(state)@.game_log,
    {
        if player_id == 1 {
            Self::feign_effects_on(&mut state.player1, column)
        } else {
            Self::feign_effects_on(&mut state.player2, column)
        }
    }

    /// Reveals the feign at `column` on one player's board, if it exists and
    /// is still face down.
    fn feign_effects_on(player: &mut Player, column: usize) -> (log_entries: Vec<String>)
        ensures
            feign_reveal_rel(old(player)@, final(player)@, column as int, log_entries.deep_view()),
    {
        let mut log_entries: Vec<String> = Vec::new();

        if column < player.board.feigns.len() {
            if !player.board.feigns[column].is_revealed {
                let f = &mut player.board.feigns[column];
                f.is_revealed = true;
                let name = f.card.name.clone();
                log_entries.push(
                    String::from_str("Feign ").concat(name.as_str()).concat(" is revealed!"),
                );
                if name == String::from_str("Shield Trap") {
                    log_entries.push(String::from_str("Shield Trap activates - damage reduced!"));
                } else if name == String::from_str("Counter Strike") {
                    log_entries.push(
                        String::from_str("Counter Strike activates - attacker takes damage!"),
                    );
                } else {
                    log_entries.push(name.concat(" effect activates"));
                }
                proof {
                    let pre = old(player)@;
                    assert(player@.board.feigns =~= revealed_at(pre.board.feigns, column as int));
                    assert(player@ =~= PlayerV {
                        board: PlayerBoardV {
                            feigns: revealed_at(pre.board.feigns, column as int),
                            ..pre.board
                        },
                        ..pre
                    });
                    assert(log_entries.deep_view() =~= seq![
                        "Feign "@ + pre.board.feigns[column as int].card.name + " is revealed!"@,
                        feign_effect_line(pre.board.feigns[column as int].card.name),
                    ]);
                }
            }
        }

        log_entries
    }

    /// Resolve combat for an attacking creature in a specific column.
    /// Player 1 attacks player 2 when `attacking_player` is 1; otherwise
    /// player 2 attacks player 1. Only the two players change, exactly as
    /// [`combat_rel`] describes; phase, turn, global effect and log do not.
    pub fn resolve_combat(state: &mut GameState, attacking_player: u32, column: usize) -> (r:
        CombatResult)
        ensures
            attacking_player == 1 ==> combat_rel(
                old(state)@.player1,
                old(state)@.player2,
                final(state)@.player1,
                final(state)@.player2,
                column as int,
            ),
            attacking_player != 1 ==> combat_rel(
                old(state)@.player2,
                old(state)@.player1,
                final(state)@.player2,
                final(state)@.player1,
                column as int,
            ),
            attacking_player == 1 ==> r.summary@ == combat_summary(
                old(state)@.player1,
                old(state)@.player2,
                column as int,
            ),
            attacking_player != 1 ==> r.summary@ == combat_summary(
                old(state)@.player2,
                old(state)@.player1,
                column as int,
            ),
            final(state)@.current_player == old(state)@.current_player,
            final(state)@.turn_number == old(state)@.turn_number,
            final(state)@.phase == old(state)@.phase,
            final(state)@.global_effect == old(state)@.global_effect,
            final(state)@.game_log == old(state)@.game_log,
            attacking_player == 1 ==> r.log_entries@.len() == combat_log_count(
                old(state)@.player1,
                old(state)@.player2,
                column as int,
            ),
            attacking_player != 1 ==> r.log_entries@.len() == combat_log_count(
                old(state)@.player2,
                old(state)@.player1,
                column as int,
            ),
    {
        if attacking_player == 1 {
            Self::combat_between(&mut state.player1, &mut state.player2, column)
        } else {
            Self::combat_between(&mut state.player2, &mut state.player1, column)
        }
    }

    /// One combat step between an attacking and a defending player.
    fn combat_between(attacker: &mut Player, defender: &mut Player, column: usize) -> (r:
        CombatResult)
        ensures
            combat_rel(
                old(attacker)@,
                old(defender)@,
                final(attacker)@,
                final(defender)@,
                column as int,
            ),
            r.summary@ == combat_summary(old(attacker)@, old(defender)@, column as int),
            r.log_entries@.len() == combat_log_count(old(attacker)@, old(defender)@, column as int),
    {
        let mut log_entries: Vec<String> = Vec::new();

        if column >= attacker.board.creatures.len() {
            log_entries.push(String::from_str("No creature found in attacking column"));
            return CombatResult {
                summary: String::from_str("No creature to attack with"),
                log_entries,
            };
        }

        let a_atk = attacker.board.creatures[column].current_attack;
        let a_def = attacker.board.creatures[column].current_defense;
        let a_name = attacker.board.creatures[column].card.name.clone();

        log_entries.push(
            attacker.name.clone().concat(" attacks with ").concat(a_name.as_str()).concat(
                " (ATK: ",
            ).concat(u32_to_string(a_atk).as_str()).concat(")"),
        );

        if column < defender.board.creatures.len() {
            // Creature vs creature combat.
            let d_atk = defender.board.creatures[column].current_attack;
            let d_def = defender.board.creatures[column].current_defense;
            let d_name = defender.board.creatures[column].card.name.clone();

            log_entries.push(
                defender.name.clone().concat(" defends with ").concat(d_name.as_str()).concat(
                    " (DEF: ",
                ).concat(u32_to_string(d_def).as_str()).concat(")"),
            );

            if a_atk >= d_def {
                // Defending creature dies; excess damage hits the player.
                defender.board.creatures.remove(column);
                log_entries.push(d_name.concat(" is destroyed!"));
                let excess = a_atk - d_def;
                if excess > 0 {
                    defender.life = defender.life.saturating_sub(excess);
                    log_entries.push(
                        defender.name.clone().concat(" takes ").concat(
                            u32_to_string(excess).as_str(),
                        ).concat(" excess damage (Life: ").concat(
                            u32_to_string(defender.life).as_str(),
                        ).concat(")"),
                    );
                }
            } else {
                // Defending creature survives with reduced defense.
                let c = &mut defender.board.creatures[column];
                c.current_defense = c.current_defense - a_atk;
                let remaining = c.current_defense;
                log_entries.push(
                    d_name.concat(" survives with ").concat(
                        u32_to_string(remaining).as_str(),
                    ).concat(" defense remaining"),
                );
            }

            if d_atk >= a_def {
                // Attacking creature dies in return.
                attacker.board.creatures.remove(column);
                log_entries.push(a_name.concat(" is destroyed in combat!"));
            } else if d_atk > 0 {
                // Attacking creature survives with reduced defense.
                let c = &mut attacker.board.creatures[column];
                c.current_defense = c.current_defense - d_atk;
                let remaining = c.current_defense;
                log_entries.push(
                    a_name.concat(" survives with ").concat(
                        u32_to_string(remaining).as_str(),
                    ).concat(" defense remaining"),
                );
            }

            proof {
                assert(defender@ =~= defender_after_combat(old(defender)@, column as int, a_atk));
                assert(attacker@ =~= attacker_after_combat(old(attacker)@, column as int, d_atk));
            }

            CombatResult { summary: String::from_str("Combat resolved"), log_entries }
        } else {
            // Direct attack on the defending player.
            let damage = a_atk;
            defender.life = defender.life.saturating_sub(damage);
            log_entries.push(
                a_name.concat(" deals ").concat(u32_to_string(damage).as_str()).concat(
                    " damage directly to ",
                ).concat(defender.name.as_str()).concat(" (Life: ").concat(
                    u32_to_string(defender.life).as_str(),
                ).concat(")"),
            );
            proof {
                assert(defender@ =~= direct_attack(old(defender)@, damage));
            }
            CombatResult {
                summary: String::from_str("Direct attack for ").concat(
                    u32_to_string(damage).as_str(),
                ).concat(" damage"),
                log_entries,
            }
        }
    }
}

} // verus!
