//! The game engine: owns the authoritative [`GameState`], validates and
//! applies player actions, advances turn phases, manages the card draw and
//! mana economy, ticks global-effect durations, and keeps an append-only log.
//!
//! Every action handler's contract states exactly on which inputs it
//! succeeds, how the state changes when it does, and that the state is
//! untouched when it fails.

use vstd::prelude::*;
use vstd::string::StringExecFns;

use crate::deck_builder::{create_mock_deck, MOCK_DECK_SIZE};
use crate::models::{
    first_match, no_card_with, revealed_at, wf_state, ActionResult, Card, CardType, CardV,
    Creature, CreatureV, FeignCard, FeignCardV, GameState, GameStateV, GamePhase, GlobalEffect,
    GlobalEffectV, Player, PlayerAction, PlayerBoard, PlayerBoardV, PlayerV,
};
use crate::text::{decimal, phase_name, spec_phase_name, u32_to_string};

verus! {

/// Main game engine that manages game state and turn flow.
pub struct GameEngine {
    pub state: GameState,
}

// ---------------------------------------------------------------------------
// Spec-level building blocks
// ---------------------------------------------------------------------------

/// The player whose turn it is.
pub open spec fn cur_player(s: GameStateV) -> PlayerV {
    if s.current_player == 1 {
        s.player1
    } else {
        s.player2
    }
}

/// The player whose turn it is not.
pub open spec fn opp_player(s: GameStateV) -> PlayerV {
    if s.current_player == 1 {
        s.player2
    } else {
        s.player1
    }
}

/// The state with the current player replaced.
pub open spec fn with_cur(s: GameStateV, p: PlayerV) -> GameStateV {
    if s.current_player == 1 {
        GameStateV { player1: p, ..s }
    } else {
        GameStateV { player2: p, ..s }
    }
}

/// The state with the opposing player replaced.
pub open spec fn with_opp(s: GameStateV, p: PlayerV) -> GameStateV {
    if s.current_player == 1 {
        GameStateV { player2: p, ..s }
    } else {
        GameStateV { player1: p, ..s }
    }
}

/// The other player's id.
pub open spec fn swap_player(p: u32) -> u32 {
    if p == 1 {
        2u32
    } else {
        1u32
    }
}

/// A player after drawing one card from the top (end) of the deck; drawing
/// from an empty deck is a no-op.
pub open spec fn draw_result(p: PlayerV) -> PlayerV {
    if p.deck.len() > 0 {
        PlayerV { deck: p.deck.drop_last(), hand: p.hand.push(p.deck.last()), ..p }
    } else {
        p
    }
}

/// The log entry a draw attempt produces.
pub open spec fn draw_log_msg(p: PlayerV) -> Seq<char> {
    if p.deck.len() > 0 {
        p.name + " draws a card"@
    } else {
        p.name + " cannot draw - deck is empty!"@
    }
}

/// A player after gaining mana.
pub open spec fn gained_mana(p: PlayerV, amount: u32) -> PlayerV {
    PlayerV { mana: (p.mana + amount) as u32, ..p }
}

/// One tick of the global effect: the remaining duration counts down by one,
/// and the effect is cleared when it reaches zero.
pub open spec fn tick_effect(g: Option<GlobalEffectV>) -> Option<GlobalEffectV> {
    match g {
        Some(e) => if e.remaining_duration <= 1 {
            None
        } else {
            Some(GlobalEffectV { remaining_duration: (e.remaining_duration - 1) as u32, ..e })
        },
        None => None,
    }
}

/// Whether the next tick clears the global effect.
pub open spec fn effect_expires(g: Option<GlobalEffectV>) -> bool {
    g matches Some(e) && e.remaining_duration <= 1
}

/// The log entry for the start of a turn.
pub open spec fn turn_begin_msg(turn: u32, name: Seq<char>) -> Seq<char> {
    "Turn "@ + decimal(turn as nat) + ": "@ + name + "'s turn begins"@
}

/// The exact state produced by an `EndPhase` action.
///
/// - Leaving Draw: the current player draws one card (logged either way) and
///   gains 2 mana; the phase becomes Placement.
/// - Leaving Placement: the phase becomes Attack.
/// - Leaving Attack (entering EndTurn): the global effect ticks down,
///   expiring (with a log entry) when its duration runs out.
/// - Leaving EndTurn: the current player swaps, the turn number increments,
///   and the phase resets to Draw.
pub open spec fn end_phase_result(s: GameStateV) -> GameStateV {
    match s.phase {
        GamePhase::Draw => {
            let p = gained_mana(draw_result(cur_player(s)), 2);
            GameStateV {
                phase: GamePhase::Placement,
                game_log: s.game_log.push(draw_log_msg(cur_player(s))).push(
                    "Entering placement phase"@,
                ),
                ..with_cur(s, p)
            }
        },
        GamePhase::Placement => GameStateV {
            phase: GamePhase::Attack,
            game_log: s.game_log.push("Entering attack phase"@),
            ..s
        },
        GamePhase::Attack => GameStateV {
            phase: GamePhase::EndTurn,
            global_effect: tick_effect(s.global_effect),
            game_log: if effect_expires(s.global_effect) {
                s.game_log.push("Global effect "@ + s.global_effect->0.card.name + " expires"@)
                    .push("Entering end turn phase"@)
            } else {
                s.game_log.push("Entering end turn phase"@)
            },
            ..s
        },
        GamePhase::EndTurn => {
            let next = swap_player(s.current_player);
            GameStateV {
                current_player: next,
                turn_number: (s.turn_number + 1) as u32,
                phase: GamePhase::Draw,
                game_log: s.game_log.push(
                    turn_begin_msg(
                        (s.turn_number + 1) as u32,
                        if next == 1 {
                            s.player1.name
                        } else {
                            s.player2.name
                        },
                    ),
                ),
                ..s
            }
        },
    }
}

/// The index of the first card in `hand` with id `card_id`.
pub open spec fn first_match_idx(hand: Seq<CardV>, card_id: u32) -> int {
    choose|i: int| first_match(hand, card_id, i)
}

/// At most one index is the first match, so [`first_match_idx`] pins it.
pub proof fn lemma_first_match_unique(hand: Seq<CardV>, card_id: u32, i: int)
    requires
        first_match(hand, card_id, i),
    ensures
        first_match_idx(hand, card_id) == i,
{
    let j = first_match_idx(hand, card_id);
    assert(first_match(hand, card_id, j));
    if i < j {
        assert(hand[i].id == card_id);
        assert(false);
    }
    if j < i {
        assert(hand[j].id == card_id);
        assert(false);
    }
}

/// The creature instance a creature card puts onto the board: current stats
/// copied from the card's base stats, untapped.
pub open spec fn creature_of(c: CardV) -> CreatureV {
    CreatureV {
        card: c,
        current_attack: (match c.attack {
            Some(a) => a,
            None => 0u32,
        }),
        current_defense: (match c.defense {
            Some(d) => d,
            None => 0u32,
        }),
        is_tapped: false,
    }
}

/// A player after removing the card at hand index `i` and paying its cost.
pub open spec fn paid_card(p: PlayerV, i: int) -> PlayerV {
    PlayerV { hand: p.hand.remove(i), mana: (p.mana - p.hand[i].mana_cost) as u32, ..p }
}

/// A player after playing the creature card at hand index `i`.
pub open spec fn played_creature(p: PlayerV, i: int) -> PlayerV {
    PlayerV {
        board: PlayerBoardV {
            creatures: p.board.creatures.push(creature_of(p.hand[i])),
            ..p.board
        },
        ..paid_card(p, i)
    }
}

/// A player after playing the feign card at hand index `i`: the feign joins
/// the board face down.
pub open spec fn played_feign(p: PlayerV, i: int) -> PlayerV {
    PlayerV {
        board: PlayerBoardV {
            feigns: p.board.feigns.push(FeignCardV { card: p.hand[i], is_revealed: false }),
            ..p.board
        },
        ..paid_card(p, i)
    }
}

/// The global effect seeded from an effect card: its duration, or 3 when the
/// card carries none.
pub open spec fn effect_of(c: CardV) -> GlobalEffectV {
    GlobalEffectV {
        card: c,
        remaining_duration: (match c.duration {
            Some(d) => d,
            None => 3u32,
        }),
    }
}

/// The hand-level success condition for playing a card: the hand holds a
/// card with the requested id, the first such card has the right type, and
/// the player can pay its cost.
pub open spec fn play_hand_ok(p: PlayerV, card_id: u32, ct: CardType) -> bool {
    &&& !no_card_with(p.hand, card_id)
    &&& p.hand[first_match_idx(p.hand, card_id)].card_type == ct
    &&& p.hand[first_match_idx(p.hand, card_id)].mana_cost <= p.mana
}

/// The full success condition for a play action: Placement phase and
/// [`play_hand_ok`] for the current player.
pub open spec fn play_ok(s: GameStateV, card_id: u32, ct: CardType) -> bool {
    &&& s.phase == GamePhase::Placement
    &&& play_hand_ok(cur_player(s), card_id, ct)
}

/// The log entry a successful play appends.
pub open spec fn play_log_msg(s: GameStateV, card_id: u32, ct: CardType) -> Seq<char> {
    let name = cur_player(s).hand[first_match_idx(cur_player(s).hand, card_id)].name;
    match ct {
        CardType::Creature => cur_player(s).name + " plays "@ + name,
        CardType::Feign => cur_player(s).name + " plays a feign card"@,
        CardType::Effect => cur_player(s).name + " plays global effect: "@ + name,
    }
}

/// The exact state produced by a successful play action: the first matching
/// card leaves the hand, its cost leaves the player's mana, the played piece
/// joins the board (or replaces the global effect), and one entry joins the
/// log.
pub open spec fn play_result(s: GameStateV, card_id: u32, ct: CardType) -> GameStateV {
    let i = first_match_idx(cur_player(s).hand, card_id);
    let c = cur_player(s).hand[i];
    let base = match ct {
        CardType::Creature => with_cur(s, played_creature(cur_player(s), i)),
        CardType::Feign => with_cur(s, played_feign(cur_player(s), i)),
        CardType::Effect => GameStateV {
            global_effect: Some(effect_of(c)),
            ..with_cur(s, paid_card(cur_player(s), i))
        },
    };
    GameStateV { game_log: s.game_log.push(play_log_msg(s, card_id, ct)), ..base }
}

/// The success message of a play action.
pub open spec fn play_success_msg(ct: CardType) -> Seq<char> {
    match ct {
        CardType::Creature => "Creature played successfully"@,
        CardType::Feign => "Feign played successfully"@,
        CardType::Effect => "Effect played successfully"@,
    }
}

/// The failure message of a play action attempted outside Placement.
pub open spec fn wrong_phase_msg(ct: CardType) -> Seq<char> {
    match ct {
        CardType::Creature => "Can only play creatures during placement phase"@,
        CardType::Feign => "Can only play feigns during placement phase"@,
        CardType::Effect => "Can only play effects during placement phase"@,
    }
}

/// The failure message when the first matching card has the wrong type.
pub open spec fn type_mismatch_msg(ct: CardType) -> Seq<char> {
    match ct {
        CardType::Creature => "Card is not a creature"@,
        CardType::Feign => "Card is not a feign"@,
        CardType::Effect => "Card is not an effect"@,
    }
}

/// The failure message of a play action, by the first precondition violated:
/// wrong phase, no such card, wrong card type, then insufficient mana.
pub open spec fn play_fail_msg(s: GameStateV, card_id: u32, ct: CardType) -> Seq<char> {
    if s.phase != GamePhase::Placement {
        wrong_phase_msg(ct)
    } else if no_card_with(cur_player(s).hand, card_id) {
        "Card not found in hand"@
    } else if cur_player(s).hand[first_match_idx(cur_player(s).hand, card_id)].card_type != ct {
        type_mismatch_msg(ct)
    } else {
        "Not enough mana"@
    }
}

/// What a play action guarantees: it succeeds exactly on [`play_ok`] inputs;
/// success performs [`play_result`] and returns a snapshot; failure leaves
/// the state untouched, returns no snapshot, and reports [`play_fail_msg`].
pub open spec fn play_case(
    pre: GameStateV,
    post: GameStateV,
    card_id: u32,
    ct: CardType,
    res: ActionResult,
) -> bool {
    &&& res.success == play_ok(pre, card_id, ct)
    &&& res.success ==> {
        &&& post == play_result(pre, card_id, ct)
        &&& (match res.new_state {
            Some(st) => st@ == post,
            None => false,
        })
        &&& res.message@ == play_success_msg(ct)
    }
    &&& !res.success ==> {
        &&& post == pre
        &&& res.new_state is None
        &&& res.message@ == play_fail_msg(pre, card_id, ct)
    }
}

/// A creature after being tapped.
pub open spec fn tapped(c: CreatureV) -> CreatureV {
    CreatureV { is_tapped: true, ..c }
}

/// The success condition for an attack: Attack phase, and a creature exists
/// at the given index on the acting player's board.
pub open spec fn attack_ok(s: GameStateV, idx: int) -> bool {
    &&& s.phase == GamePhase::Attack
    &&& 0 <= idx < cur_player(s).board.creatures.len()
}

/// The log entry a successful attack appends.
pub open spec fn attack_log_msg(s: GameStateV, idx: int) -> Seq<char> {
    let c = cur_player(s).board.creatures[idx];
    cur_player(s).name + " attacks with "@ + c.card.name + " for "@ + decimal(
        c.current_attack as nat,
    ) + " damage!"@
}

/// The exact state produced by a successful attack: the attacking creature
/// is tapped and deals its current attack directly to the opponent's life,
/// floor-clamped at zero.
pub open spec fn attack_result(s: GameStateV, idx: int) -> GameStateV {
    let c = cur_player(s).board.creatures[idx];
    let att = PlayerV {
        board: PlayerBoardV {
            creatures: cur_player(s).board.creatures.update(idx, tapped(c)),
            ..cur_player(s).board
        },
        ..cur_player(s)
    };
    let def = PlayerV { life: opp_player(s).life.saturating_sub(c.current_attack), ..opp_player(s) };
    GameStateV { game_log: s.game_log.push(attack_log_msg(s, idx)), ..with_opp(with_cur(s, att), def) }
}

/// What an attack action guarantees.
pub open spec fn attack_case(pre: GameStateV, post: GameStateV, idx: int, res: ActionResult) -> bool {
    &&& res.success == attack_ok(pre, idx)
    &&& res.success ==> {
        &&& post == attack_result(pre, idx)
        &&& (match res.new_state {
            Some(st) => st@ == post,
            None => false,
        })
        &&& res.message@ == "Attacked for "@ + decimal(
            cur_player(pre).board.creatures[idx].current_attack as nat,
        ) + " damage"@
    }
    &&& !res.success ==> {
        &&& post == pre
        &&& res.new_state is None
        &&& res.message@ == (if pre.phase != GamePhase::Attack {
            "Can only attack during attack phase"@
        } else {
            "No creature at that index to attack with"@
        })
    }
}

/// The success condition for revealing a feign: it exists and is face down.
/// (Revealing carries no phase restriction in the current scope.)
pub open spec fn reveal_ok(s: GameStateV, idx: int) -> bool {
    &&& 0 <= idx < cur_player(s).board.feigns.len()
    &&& !cur_player(s).board.feigns[idx].is_revealed
}

/// The log entry a successful reveal appends.
pub open spec fn reveal_log_msg(s: GameStateV, idx: int) -> Seq<char> {
    cur_player(s).name + " reveals feign: "@ + cur_player(s).board.feigns[idx].card.name
}

/// The exact state produced by a successful reveal: the feign becomes
/// permanently revealed and one entry joins the log.
pub open spec fn reveal_result(s: GameStateV, idx: int) -> GameStateV {
    let p = PlayerV {
        board: PlayerBoardV {
            feigns: revealed_at(cur_player(s).board.feigns, idx),
            ..cur_player(s).board
        },
        ..cur_player(s)
    };
    GameStateV { game_log: s.game_log.push(reveal_log_msg(s, idx)), ..with_cur(s, p) }
}

/// What a reveal action guarantees.
pub open spec fn reveal_case(pre: GameStateV, post: GameStateV, idx: int, res: ActionResult) -> bool {
    &&& res.success == reveal_ok(pre, idx)
    &&& res.success ==> {
        &&& post == reveal_result(pre, idx)
        &&& (match res.new_state {
            Some(st) => st@ == post,
            None => false,
        })
        &&& res.message@ == "Revealed: "@ + cur_player(pre).board.feigns[idx].card.name
    }
    &&& !res.success ==> {
        &&& post == pre
        &&& res.new_state is None
        &&& res.message@ == (if !(0 <= idx < cur_player(pre).board.feigns.len()) {
            "No feign at that index"@
        } else {
            "Feign already revealed"@
        })
    }
}

/// The winner, if any: the opponent of whichever player's life has reached
/// exactly zero.
pub open spec fn spec_game_over(s: GameStateV) -> Option<u32> {
    if s.player1.life == 0 {
        Some(2u32)
    } else if s.player2.life == 0 {
        Some(1u32)
    } else {
        None
    }
}

/// What `EndPhase` guarantees: success, the exact transition of
/// [`end_phase_result`], and a snapshot of the new state.
pub open spec fn end_phase_case(pre: GameStateV, post: GameStateV, res: ActionResult) -> bool {
    &&& res.success
    &&& post == end_phase_result(pre)
    &&& (match res.new_state {
        Some(st) => st@ == post,
        None => false,
    })
    &&& res.message@ == "Phase advanced to "@ + spec_phase_name(post.phase)
}

/// Why taking a card from the hand failed.
enum PlayFailure {
    NotFound,
    WrongType,
    NoMana,
}

/// Why revealing a feign failed.
enum RevealFailure {
    OutOfRange,
    AlreadyRevealed,
}

/// Which precondition a failed card take violated, mirroring the order the
/// engine checks them in.
spec fn take_fail_spec(
    hand: Seq<CardV>,
    mana: u32,
    card_id: u32,
    ct: CardType,
    f: PlayFailure,
) -> bool {
    match f {
        PlayFailure::NotFound => no_card_with(hand, card_id),
        PlayFailure::WrongType => !no_card_with(hand, card_id) && hand[first_match_idx(
            hand,
            card_id,
        )].card_type != ct,
        PlayFailure::NoMana => !no_card_with(hand, card_id) && hand[first_match_idx(
            hand,
            card_id,
        )].card_type == ct && hand[first_match_idx(hand, card_id)].mana_cost > mana,
    }
}

/// What `process_action` guarantees, for any action: turn ownership is
/// checked first — an action submitted by anyone but the current player
/// fails with no mutation — and otherwise the action's case contract holds.
pub open spec fn action_case(
    pre: GameStateV,
    post: GameStateV,
    player_id: u32,
    action: PlayerAction,
    res: ActionResult,
) -> bool {
    &&& player_id != pre.current_player ==> {
        &&& !res.success
        &&& post == pre
        &&& res.new_state is None
        &&& res.message@ == "It's not your turn!"@
    }
    &&& player_id == pre.current_player ==> (match action {
        PlayerAction::PlayCreature { card_id } => play_case(
            pre,
            post,
            card_id,
            CardType::Creature,
            res,
        ),
        PlayerAction::PlayFeign { card_id } => play_case(pre, post, card_id, CardType::Feign, res),
        PlayerAction::PlayEffect { card_id } => play_case(
            pre,
            post,
            card_id,
            CardType::Effect,
            res,
        ),
        PlayerAction::Attack { creature_index } => attack_case(
            pre,
            post,
            creature_index as int,
            res,
        ),
        PlayerAction::RevealFeign { feign_index } => reveal_case(
            pre,
            post,
            feign_index as int,
            res,
        ),
        PlayerAction::EndPhase => end_phase_case(pre, post, res),
    })
}

/// The machine limits an `EndPhase` action needs: room in the mana counter
/// for the draw-phase grant and in the turn counter for the increment.
pub open spec fn action_limits_ok(s: GameStateV, player_id: u32, action: PlayerAction) -> bool {
    &&& (action == PlayerAction::EndPhase && player_id == s.current_player && s.phase
        == GamePhase::Draw) ==> cur_player(s).mana + 2 <= u32::MAX
    &&& (action == PlayerAction::EndPhase && player_id == s.current_player && s.phase
        == GamePhase::EndTurn) ==> s.turn_number < u32::MAX
}

// ---------------------------------------------------------------------------
// Laws
// ---------------------------------------------------------------------------

/// A hand that holds a card with a given id has a first such card.
pub proof fn lemma_first_match_exists(hand: Seq<CardV>, card_id: u32)
    requires
        !no_card_with(hand, card_id),
    ensures
        first_match(hand, card_id, first_match_idx(hand, card_id)),
{
    let k = choose|k: int| 0 <= k < hand.len() && (#[trigger] hand[k]).id == card_id;
    lemma_first_match_below(hand, card_id, k);
}

/// Below any matching index there is a first matching index.
proof fn lemma_first_match_below(hand: Seq<CardV>, card_id: u32, k: int)
    requires
        0 <= k < hand.len(),
        hand[k].id == card_id,
    ensures
        first_match(hand, card_id, first_match_idx(hand, card_id)),
    decreases k,
{
    if forall|j: int| 0 <= j < k ==> (#[trigger] hand[j]).id != card_id {
        assert(first_match(hand, card_id, k));
    } else {
        let j = choose|j: int| 0 <= j < k && (#[trigger] hand[j]).id == card_id;
        lemma_first_match_below(hand, card_id, j);
    }
}

/// Mana conservation law: a successful card play debits exactly the played
/// card's cost from the acting player's mana, and the other player's mana
/// does not change.
pub proof fn lemma_mana_conservation(
    pre: GameStateV,
    post: GameStateV,
    card_id: u32,
    ct: CardType,
    res: ActionResult,
)
    requires
        play_case(pre, post, card_id, ct, res),
        res.success,
    ensures
        cur_player(post).mana == cur_player(pre).mana - cur_player(pre).hand[first_match_idx(
            cur_player(pre).hand,
            card_id,
        )].mana_cost,
        opp_player(post).mana == opp_player(pre).mana,
{
}

/// Hand/board conservation law: a successful creature play removes exactly
/// one card — the first one matching the requested id — from the acting
/// player's hand and appends exactly one creature, seeded from that card, to
/// that player's board; the other player is untouched. A failed attempt
/// leaves the whole state unchanged.
pub proof fn lemma_hand_board_conservation(
    pre: GameStateV,
    post: GameStateV,
    card_id: u32,
    res: ActionResult,
)
    requires
        play_case(pre, post, card_id, CardType::Creature, res),
    ensures
        res.success ==> ({
            let i = first_match_idx(cur_player(pre).hand, card_id);
            &&& first_match(cur_player(pre).hand, card_id, i)
            &&& cur_player(pre).hand[i].id == card_id
            &&& cur_player(post).hand == cur_player(pre).hand.remove(i)
            &&& cur_player(post).hand.len() == cur_player(pre).hand.len() - 1
            &&& cur_player(post).board.creatures == cur_player(pre).board.creatures.push(
                creature_of(cur_player(pre).hand[i]),
            )
            &&& cur_player(post).board.creatures.len() == cur_player(pre).board.creatures.len() + 1
            &&& opp_player(post) == opp_player(pre)
        }),
        !res.success ==> post == pre,
{
    if res.success {
        lemma_first_match_exists(cur_player(pre).hand, card_id);
    }
}

/// Phase cycle law: from any well-formed state in the Draw phase, four
/// `EndPhase` transitions return the phase to Draw, increment the turn
/// number by exactly one, and swap the current player exactly once.
pub proof fn lemma_phase_cycle(s0: GameStateV, s1: GameStateV, s2: GameStateV, s3: GameStateV, s4: GameStateV)
    requires
        wf_state(s0),
        s0.phase == GamePhase::Draw,
        s0.turn_number < u32::MAX,
        s1 == end_phase_result(s0),
        s2 == end_phase_result(s1),
        s3 == end_phase_result(s2),
        s4 == end_phase_result(s3),
    ensures
        s4.phase == GamePhase::Draw,
        s4.turn_number == s0.turn_number + 1,
        s4.current_player == swap_player(s0.current_player),
        s4.current_player != s0.current_player,
{
}

/// Global-effect expiry law: an effect holding 2 remaining ticks survives
/// the first tick with 1 remaining — not yet expiring, so no expiry entry is
/// logged — and is cleared by the second tick, which [`end_phase_result`]
/// accompanies with an expiry log entry (it appends one exactly when
/// [`effect_expires`] holds before the tick).
pub proof fn lemma_effect_expiry(e: GlobalEffectV)
    requires
        e.remaining_duration == 2,
    ensures
        !effect_expires(Some(e)),
        tick_effect(Some(e)) == Some(GlobalEffectV { remaining_duration: 1u32, ..e }),
        effect_expires(tick_effect(Some(e))),
        tick_effect(tick_effect(Some(e))) is None,
{
}

// ---------------------------------------------------------------------------
// The engine
// ---------------------------------------------------------------------------

impl GameEngine {
    /// The engine invariant: its state is well formed.
    pub open spec fn wf(&self) -> bool {
        wf_state(self.state@)
    }

    /// Appends one entry to the game log.
    fn log_event(&mut self, message: String)
        ensures
            final(self).state@ == (GameStateV {
                game_log: old(self).state@.game_log.push(message@),
                ..old(self).state@
            }),
    {
        self.state.game_log.push(message);
        proof {
            assert(self.state@.game_log =~= old(self).state@.game_log.push(message@));
            assert(self.state@ =~= GameStateV {
                game_log: old(self).state@.game_log.push(message@),
                ..old(self).state@
            });
        }
    }

    /// Grants mana to a player.
    fn gain_mana(player: &mut Player, amount: u32)
        requires
            old(player)@.mana + amount <= u32::MAX,
        ensures
            final(player)@ == gained_mana(old(player)@, amount),
    {
        player.mana = player.mana + amount;
        proof {
            assert(player@ =~= gained_mana(old(player)@, amount));
        }
    }

    /// Moves the top card of a player's deck into the hand, reporting whether
    /// a card was drawn and the log entry to record.
    fn draw_from_deck(player: &mut Player) -> (r: (bool, String))
        ensures
            final(player)@ == draw_result(old(player)@),
            r.0 == (old(player)@.deck.len() > 0),
            r.1@ == draw_log_msg(old(player)@),
    {
        match player.deck.pop() {
            Some(card) => {
                player.hand.push(card);
                proof {
                    assert(player@.hand =~= old(player)@.hand.push(old(player)@.deck.last()));
                    assert(player@.deck =~= old(player)@.deck.drop_last());
                    assert(player@ =~= draw_result(old(player)@));
                }
                (true, player.name.clone().concat(" draws a card"))
            },
            None => (false, player.name.clone().concat(" cannot draw - deck is empty!")),
        }
    }

    /// Draws a card for the specified player (player 1 when `player_id` is 1,
    /// player 2 otherwise), logging the attempt either way. Returns whether a
    /// card was drawn.
    pub fn draw_card(&mut self, player_id: u32) -> (success: bool)
        ensures
            ({
                let p = if player_id == 1 {
                    old(self).state@.player1
                } else {
                    old(self).state@.player2
                };
                let q = if player_id == 1 {
                    final(self).state@.player1
                } else {
                    final(self).state@.player2
                };
                let o_pre = if player_id == 1 {
                    old(self).state@.player2
                } else {
                    old(self).state@.player1
                };
                let o_post = if player_id == 1 {
                    final(self).state@.player2
                } else {
                    final(self).state@.player1
                };
                &&& q == draw_result(p)
                &&& o_post == o_pre
                &&& success == (p.deck.len() > 0)
                &&& final(self).state@.game_log == old(self).state@.game_log.push(
                    draw_log_msg(p),
                )
            }),
            final(self).state@.current_player == old(self).state@.current_player,
            final(self).state@.turn_number == old(self).state@.turn_number,
            final(self).state@.phase == old(self).state@.phase,
            final(self).state@.global_effect == old(self).state@.global_effect,
    {
        let (success, log_message) = if player_id == 1 {
            Self::draw_from_deck(&mut self.state.player1)
        } else {
            Self::draw_from_deck(&mut self.state.player2)
        };
        self.log_event(log_message);
        success
    }

    /// Finds the first card in the hand with the given id.
    fn find_card(hand: &Vec<Card>, card_id: u32) -> (r: Option<usize>)
        ensures
            match r {
                Some(i) => first_match(hand.deep_view(), card_id, i as int),
                None => no_card_with(hand.deep_view(), card_id),
            },
    {
        let mut i: usize = 0;
        while i < hand.len()
            invariant
                i <= hand.len(),
                forall|j: int| 0 <= j < i ==> hand.deep_view()[j].id != card_id,
            decreases hand.len() - i,
        {
            if hand[i].id == card_id {
                return Some(i);
            }
            i = i + 1;
        }
        None
    }

    /// Locates the first card with the given id, checks its type and cost,
    /// and on success removes it from the hand and debits the mana.
    fn take_card(player: &mut Player, card_id: u32, ct: CardType) -> (r: Result<Card, PlayFailure>)
        ensures
            match r {
                Ok(card) => ({
                    let pre = old(player)@;
                    let i = first_match_idx(pre.hand, card_id);
                    &&& play_hand_ok(pre, card_id, ct)
                    &&& first_match(pre.hand, card_id, i)
                    &&& card@ == pre.hand[i]
                    &&& final(player)@ == paid_card(pre, i)
                }),
                Err(f) => *final(player) == *old(player) && take_fail_spec(
                    old(player)@.hand,
                    old(player)@.mana,
                    card_id,
                    ct,
                    f,
                ),
            },
    {
        let idx = match Self::find_card(&player.hand, card_id) {
            Some(i) => i,
            None => {
                return Err(PlayFailure::NotFound);
            },
        };
        proof {
            lemma_first_match_unique(player@.hand, card_id, idx as int);
        }
        if !(player.hand[idx].card_type == ct) {
            return Err(PlayFailure::WrongType);
        }
        let cost = player.hand[idx].mana_cost;
        if cost > player.mana {
            return Err(PlayFailure::NoMana);
        }
        let card = player.hand.remove(idx);
        player.mana = player.mana - cost;
        proof {
            assert(player@.hand =~= old(player)@.hand.remove(idx as int));
            assert(player@ =~= paid_card(old(player)@, idx as int));
        }
        Ok(card)
    }

    /// Plays a creature card from the hand onto the board, returning its
    /// name for the log.
    fn play_creature_on(player: &mut Player, card_id: u32) -> (r: Result<String, PlayFailure>)
        ensures
            match r {
                Ok(name) => ({
                    let pre = old(player)@;
                    &&& play_hand_ok(pre, card_id, CardType::Creature)
                    &&& first_match(pre.hand, card_id, first_match_idx(pre.hand, card_id))
                    &&& final(player)@ == played_creature(pre, first_match_idx(pre.hand, card_id))
                    &&& name@ == pre.hand[first_match_idx(pre.hand, card_id)].name
                }),
                Err(f) => *final(player) == *old(player) && take_fail_spec(
                    old(player)@.hand,
                    old(player)@.mana,
                    card_id,
                    CardType::Creature,
                    f,
                ),
            },
    {
        let card = match Self::take_card(player, card_id, CardType::Creature) {
            Ok(c) => c,
            Err(f) => {
                return Err(f);
            },
        };
        let name = card.name.clone();
        let creature = Creature {
            current_attack: card.attack.unwrap_or(0),
            current_defense: card.defense.unwrap_or(0),
            is_tapped: false,
            card,
        };
        player.board.creatures.push(creature);
        proof {
            let pre = old(player)@;
            let i = first_match_idx(pre.hand, card_id);
            assert(player@.board.creatures =~= pre.board.creatures.push(creature_of(pre.hand[i])));
            assert(player@ =~= played_creature(pre, i));
        }
        Ok(name)
    }

    /// Plays a feign card from the hand face down onto the board.
    fn play_feign_on(player: &mut Player, card_id: u32) -> (r: Result<String, PlayFailure>)
        ensures
            match r {
                Ok(name) => ({
                    let pre = old(player)@;
                    &&& play_hand_ok(pre, card_id, CardType::Feign)
                    &&& first_match(pre.hand, card_id, first_match_idx(pre.hand, card_id))
                    &&& final(player)@ == played_feign(pre, first_match_idx(pre.hand, card_id))
                    &&& name@ == pre.hand[first_match_idx(pre.hand, card_id)].name
                }),
                Err(f) => *final(player) == *old(player) && take_fail_spec(
                    old(player)@.hand,
                    old(player)@.mana,
                    card_id,
                    CardType::Feign,
                    f,
                ),
            },
    {
        let card = match Self::take_card(player, card_id, CardType::Feign) {
            Ok(c) => c,
            Err(f) => {
                return Err(f);
            },
        };
        let name = card.name.clone();
        let feign = FeignCard { card, is_revealed: false };
        player.board.feigns.push(feign);
        proof {
            let pre = old(player)@;
            let i = first_match_idx(pre.hand, card_id);
            assert(player@.board.feigns =~= pre.board.feigns.push(
                FeignCardV { card: pre.hand[i], is_revealed: false },
            ));
            assert(player@ =~= played_feign(pre, i));
        }
        Ok(name)
    }

    /// Takes an effect card from the hand, paying its cost; the caller
    /// installs it as the global effect.
    fn play_effect_on(player: &mut Player, card_id: u32) -> (r: Result<Card, PlayFailure>)
        ensures
            match r {
                Ok(card) => ({
                    let pre = old(player)@;
                    &&& play_hand_ok(pre, card_id, CardType::Effect)
                    &&& first_match(pre.hand, card_id, first_match_idx(pre.hand, card_id))
                    &&& final(player)@ == paid_card(pre, first_match_idx(pre.hand, card_id))
                    &&& card@ == pre.hand[first_match_idx(pre.hand, card_id)]
                }),
                Err(f) => *final(player) == *old(player) && take_fail_spec(
                    old(player)@.hand,
                    old(player)@.mana,
                    card_id,
                    CardType::Effect,
                    f,
                ),
            },
    {
        Self::take_card(player, card_id, CardType::Effect)
    }

    /// A failed action: no mutation, no snapshot.
    fn fail_result(message: &str) -> (res: ActionResult)
        ensures
            !res.success,
            res.new_state is None,
            res.message@ == message@,
    {
        ActionResult { success: false, message: String::from_str(message), new_state: None }
    }

    /// The failure message for one [`PlayFailure`].
    fn take_fail_message(f: &PlayFailure, ct: CardType) -> (message: String)
        ensures
            (f matches PlayFailure::NotFound ==> message@ == "Card not found in hand"@),
            (f matches PlayFailure::WrongType ==> message@ == type_mismatch_msg(ct)),
            (f matches PlayFailure::NoMana ==> message@ == "Not enough mana"@),
    {
        match f {
            PlayFailure::NotFound => String::from_str("Card not found in hand"),
            PlayFailure::WrongType => match ct {
                CardType::Creature => String::from_str("Card is not a creature"),
                CardType::Feign => String::from_str("Card is not a feign"),
                CardType::Effect => String::from_str("Card is not an effect"),
            },
            PlayFailure::NoMana => String::from_str("Not enough mana"),
        }
    }

    /// Plays a creature card for the given player.
    fn play_creature(&mut self, player_id: u32, card_id: u32) -> (res: ActionResult)
        requires
            old(self).wf(),
            player_id == old(self).state@.current_player,
        ensures
            final(self).wf(),
            play_case(old(self).state@, final(self).state@, card_id, CardType::Creature, res),
    {
        if !(self.state.phase == GamePhase::Placement) {
            return Self::fail_result("Can only play creatures during placement phase");
        }
        let r = if player_id == 1 {
            Self::play_creature_on(&mut self.state.player1, card_id)
        } else {
            Self::play_creature_on(&mut self.state.player2, card_id)
        };
        match r {
            Ok(name) => {
                let player_name = if player_id == 1 {
                    self.state.player1.name.clone()
                } else {
                    self.state.player2.name.clone()
                };
                self.log_event(player_name.concat(" plays ").concat(name.as_str()));
                proof {
                    let pre = old(self).state@;
                    let i = first_match_idx(cur_player(pre).hand, card_id);
                    crate::models::lemma_durations_ok_remove(cur_player(pre).hand, i);
                    assert(self.state@ =~= play_result(pre, card_id, CardType::Creature));
                }
                let snapshot = self.state.clone();
                ActionResult {
                    success: true,
                    message: String::from_str("Creature played successfully"),
                    new_state: Some(snapshot),
                }
            },
            Err(f) => {
                let message = Self::take_fail_message(&f, CardType::Creature);
                ActionResult { success: false, message, new_state: None }
            },
        }
    }

    /// Plays a feign card for the given player.
    fn play_feign(&mut self, player_id: u32, card_id: u32) -> (res: ActionResult)
        requires
            old(self).wf(),
            player_id == old(self).state@.current_player,
        ensures
            final(self).wf(),
            play_case(old(self).state@, final(self).state@, card_id, CardType::Feign, res),
    {
        if !(self.state.phase == GamePhase::Placement) {
            return Self::fail_result("Can only play feigns during placement phase");
        }
        let r = if player_id == 1 {
            Self::play_feign_on(&mut self.state.player1, card_id)
        } else {
            Self::play_feign_on(&mut self.state.player2, card_id)
        };
        match r {
            Ok(_name) => {
                let player_name = if player_id == 1 {
                    self.state.player1.name.clone()
                } else {
                    self.state.player2.name.clone()
                };
                self.log_event(player_name.concat(" plays a feign card"));
                proof {
                    let pre = old(self).state@;
                    let i = first_match_idx(cur_player(pre).hand, card_id);
                    crate::models::lemma_durations_ok_remove(cur_player(pre).hand, i);
                    assert(self.state@ =~= play_result(pre, card_id, CardType::Feign));
                }
                let snapshot = self.state.clone();
                ActionResult {
                    success: true,
                    message: String::from_str("Feign played successfully"),
                    new_state: Some(snapshot),
                }
            },
            Err(f) => {
                let message = Self::take_fail_message(&f, CardType::Feign);
                ActionResult { success: false, message, new_state: None }
            },
        }
    }

    /// Plays an effect card for the given player, replacing any existing
    /// global effect.
    fn play_effect(&mut self, player_id: u32, card_id: u32) -> (res: ActionResult)
        requires
            old(self).wf(),
            player_id == old(self).state@.current_player,
        ensures
            final(self).wf(),
            play_case(old(self).state@, final(self).state@, card_id, CardType::Effect, res),
    {
        if !(self.state.phase == GamePhase::Placement) {
            return Self::fail_result("Can only play effects during placement phase");
        }
        let r = if player_id == 1 {
            Self::play_effect_on(&mut self.state.player1, card_id)
        } else {
            Self::play_effect_on(&mut self.state.player2, card_id)
        };
        match r {
            Ok(card) => {
                let player_name = if player_id == 1 {
                    self.state.player1.name.clone()
                } else {
                    self.state.player2.name.clone()
                };
                let log_msg = player_name.concat(" plays global effect: ").concat(
                    card.name.as_str(),
                );
                let effect = GlobalEffect {
                    remaining_duration: card.duration.unwrap_or(3),
                    card,
                };
                self.state.global_effect = Some(effect);
                self.log_event(log_msg);
                proof {
                    let pre = old(self).state@;
                    let i = first_match_idx(cur_player(pre).hand, card_id);
                    crate::models::lemma_durations_ok_remove(cur_player(pre).hand, i);
                    assert(self.state@ =~= play_result(pre, card_id, CardType::Effect));
                }
                let snapshot = self.state.clone();
                ActionResult {
                    success: true,
                    message: String::from_str("Effect played successfully"),
                    new_state: Some(snapshot),
                }
            },
            Err(f) => {
                let message = Self::take_fail_message(&f, CardType::Effect);
                ActionResult { success: false, message, new_state: None }
            },
        }
    }

    /// Taps the attacker's creature and deals its current attack directly to
    /// the defender's life, floor-clamped at zero. Returns the creature's
    /// name and the damage dealt.
    fn attack_with(attacker: &mut Player, defender: &mut Player, creature_index: usize) -> (r: (
        String,
        u32,
    ))
        requires
            creature_index < old(attacker)@.board.creatures.len(),
        ensures
            ({
                let pre = old(attacker)@;
                let c = pre.board.creatures[creature_index as int];
                &&& final(attacker)@ == PlayerV {
                    board: PlayerBoardV {
                        creatures: pre.board.creatures.update(creature_index as int, tapped(c)),
                        ..pre.board
                    },
                    ..pre
                }
                &&& final(defender)@ == PlayerV {
                    life: old(defender)@.life.saturating_sub(c.current_attack),
                    ..old(defender)@
                }
                &&& r.0@ == c.card.name
                &&& r.1 == c.current_attack
            }),
    {
        let c = &mut attacker.board.creatures[creature_index];
        c.is_tapped = true;
        let name = c.card.name.clone();
        let damage = c.current_attack;
        defender.life = defender.life.saturating_sub(damage);
        proof {
            let pre = old(attacker)@;
            let cv = pre.board.creatures[creature_index as int];
            assert(attacker@.board.creatures =~= pre.board.creatures.update(
                creature_index as int,
                tapped(cv),
            ));
            assert(attacker@ =~= PlayerV {
                board: PlayerBoardV {
                    creatures: pre.board.creatures.update(creature_index as int, tapped(cv)),
                    ..pre.board
                },
                ..pre
            });
        }
        (name, damage)
    }

    /// Attacks with the creature at `creature_index`: a simple direct attack
    /// on the opponent's life (the column-aware path lives in the combat
    /// resolver).
    fn attack(&mut self, player_id: u32, creature_index: usize) -> (res: ActionResult)
        requires
            old(self).wf(),
            player_id == old(self).state@.current_player,
        ensures
            final(self).wf(),
            attack_case(old(self).state@, final(self).state@, creature_index as int, res),
    {
        if !(self.state.phase == GamePhase::Attack) {
            return Self::fail_result("Can only attack during attack phase");
        }

        let attacker_exists = if player_id == 1 {
            creature_index < self.state.player1.board.creatures.len()
        } else {
            creature_index < self.state.player2.board.creatures.len()
        };
        if !attacker_exists {
            return Self::fail_result("No creature at that index to attack with");
        }

        let (name, damage) = if player_id == 1 {
            Self::attack_with(&mut self.state.player1, &mut self.state.player2, creature_index)
        } else {
            Self::attack_with(&mut self.state.player2, &mut self.state.player1, creature_index)
        };

        let player_name = if player_id == 1 {
            self.state.player1.name.clone()
        } else {
            self.state.player2.name.clone()
        };
        self.log_event(
            player_name.concat(" attacks with ").concat(name.as_str()).concat(" for ").concat(
                u32_to_string(damage).as_str(),
            ).concat(" damage!"),
        );
        proof {
            assert(self.state@ =~= attack_result(old(self).state@, creature_index as int));
        }

        let snapshot = self.state.clone();
        ActionResult {
            success: true,
            message: String::from_str("Attacked for ").concat(u32_to_string(damage).as_str())
                .concat(" damage"),
            new_state: Some(snapshot),
        }
    }

    /// Reveals the feign at `feign_index` on one player's board, returning
    /// its name.
    fn reveal_feign_on(player: &mut Player, feign_index: usize) -> (r: Result<
        String,
        RevealFailure,
    >)
        ensures
            match r {
                Ok(name) => ({
                    let pre = old(player)@;
                    &&& 0 <= feign_index < pre.board.feigns.len()
                    &&& !pre.board.feigns[feign_index as int].is_revealed
                    &&& final(player)@ == PlayerV {
                        board: PlayerBoardV {
                            feigns: revealed_at(pre.board.feigns, feign_index as int),
                            ..pre.board
                        },
                        ..pre
                    }
                    &&& name@ == pre.board.feigns[feign_index as int].card.name
                }),
                Err(RevealFailure::OutOfRange) => feign_index >= old(player)@.board.feigns.len()
                    && *final(player) == *old(player),
                Err(RevealFailure::AlreadyRevealed) => ({
                    &&& 0 <= feign_index < old(player)@.board.feigns.len()
                    &&& old(player)@.board.feigns[feign_index as int].is_revealed
                    &&& *final(player) == *old(player)
                }),
            },
    {
        if feign_index >= player.board.feigns.len() {
            return Err(RevealFailure::OutOfRange);
        }
        if player.board.feigns[feign_index].is_revealed {
            return Err(RevealFailure::AlreadyRevealed);
        }
        let f = &mut player.board.feigns[feign_index];
        f.is_revealed = true;
        let name = f.card.name.clone();
        proof {
            let pre = old(player)@;
            assert(player@.board.feigns =~= revealed_at(pre.board.feigns, feign_index as int));
            assert(player@ =~= PlayerV {
                board: PlayerBoardV {
                    feigns: revealed_at(pre.board.feigns, feign_index as int),
                    ..pre.board
                },
                ..pre
            });
        }
        Ok(name)
    }

    /// Reveals one of the acting player's feign cards (no phase restriction
    /// in the current scope).
    fn reveal_feign(&mut self, player_id: u32, feign_index: usize) -> (res: ActionResult)
        requires
            old(self).wf(),
            player_id == old(self).state@.current_player,
        ensures
            final(self).wf(),
            reveal_case(old(self).state@, final(self).state@, feign_index as int, res),
    {
        let r = if player_id == 1 {
            Self::reveal_feign_on(&mut self.state.player1, feign_index)
        } else {
            Self::reveal_feign_on(&mut self.state.player2, feign_index)
        };
        match r {
            Ok(name) => {
                let player_name = if player_id == 1 {
                    self.state.player1.name.clone()
                } else {
                    self.state.player2.name.clone()
                };
                self.log_event(player_name.concat(" reveals feign: ").concat(name.as_str()));
                proof {
                    assert(self.state@ =~= reveal_result(old(self).state@, feign_index as int));
                }
                let snapshot = self.state.clone();
                ActionResult {
                    success: true,
                    message: String::from_str("Revealed: ").concat(name.as_str()),
                    new_state: Some(snapshot),
                }
            },
            Err(RevealFailure::OutOfRange) => Self::fail_result("No feign at that index"),
            Err(RevealFailure::AlreadyRevealed) => Self::fail_result("Feign already revealed"),
        }
    }

    /// Ends the current phase and advances to the next, performing the
    /// bookkeeping of [`end_phase_result`].
    fn end_phase(&mut self) -> (res: ActionResult)
        requires
            old(self).wf(),
            old(self).state@.phase == GamePhase::Draw ==> cur_player(old(self).state@).mana + 2
                <= u32::MAX,
            old(self).state@.phase == GamePhase::EndTurn ==> old(self).state@.turn_number
                < u32::MAX,
        ensures
            final(self).wf(),
            end_phase_case(old(self).state@, final(self).state@, res),
    {
        match self.state.phase {
            GamePhase::Draw => {
                // Draw phase: draw a card and gain mana.
                let pid = self.state.current_player;
                self.draw_card(pid);
                if pid == 1 {
                    Self::gain_mana(&mut self.state.player1, 2);
                } else {
                    Self::gain_mana(&mut self.state.player2, 2);
                }
                self.state.phase = GamePhase::Placement;
                self.log_event(String::from_str("Entering placement phase"));
                proof {
                    assert(self.state@ =~= end_phase_result(old(self).state@));
                }
            },
            GamePhase::Placement => {
                self.state.phase = GamePhase::Attack;
                self.log_event(String::from_str("Entering attack phase"));
                proof {
                    assert(self.state@ =~= end_phase_result(old(self).state@));
                }
            },
            GamePhase::Attack => {
                // Entering end turn: tick down the global effect.
                let mut expired_name: Option<String> = None;
                match &mut self.state.global_effect {
                    Some(effect) => {
                        if effect.remaining_duration <= 1 {
                            expired_name = Some(effect.card.name.clone());
                        } else {
                            effect.remaining_duration = effect.remaining_duration - 1;
                        }
                    },
                    None => {},
                }
                if let Some(name) = expired_name {
                    self.state.global_effect = None;
                    self.log_event(
                        String::from_str("Global effect ").concat(name.as_str()).concat(
                            " expires",
                        ),
                    );
                }
                self.state.phase = GamePhase::EndTurn;
                self.log_event(String::from_str("Entering end turn phase"));
                proof {
                    assert(self.state@ =~= end_phase_result(old(self).state@));
                }
            },
            GamePhase::EndTurn => {
                // End turn: switch players, start the next turn.
                let next: u32 = if self.state.current_player == 1 {
                    2
                } else {
                    1
                };
                self.state.current_player = next;
                self.state.turn_number = self.state.turn_number + 1;
                self.state.phase = GamePhase::Draw;
                let name = if next == 1 {
                    self.state.player1.name.clone()
                } else {
                    self.state.player2.name.clone()
                };
                self.log_event(
                    String::from_str("Turn ").concat(
                        u32_to_string(self.state.turn_number).as_str(),
                    ).concat(": ").concat(name.as_str()).concat("'s turn begins"),
                );
                proof {
                    assert(self.state@ =~= end_phase_result(old(self).state@));
                }
            },
        }

        let message = String::from_str("Phase advanced to ").concat(phase_name(self.state.phase));
        let snapshot = self.state.clone();
        ActionResult { success: true, message, new_state: Some(snapshot) }
    }

    /// Creates a new game: both players at life 20 and mana 5, a freshly
    /// shuffled starter deck each, five cards drawn each, turn 1, Draw phase,
    /// player 1 to act, and a seeded log.
    pub fn new(player1_name: String, player2_name: String) -> (engine: GameEngine)
        ensures
            engine.wf(),
            engine.state@.player1.name == player1_name@,
            engine.state@.player2.name == player2_name@,
            engine.state@.player1.life == 20,
            engine.state@.player2.life == 20,
            engine.state@.player1.mana == 5,
            engine.state@.player2.mana == 5,
            engine.state@.player1.hand.len() == 5,
            engine.state@.player2.hand.len() == 5,
            engine.state@.player1.deck.len() == MOCK_DECK_SIZE - 5,
            engine.state@.player2.deck.len() == MOCK_DECK_SIZE - 5,
            engine.state@.player1.board.creatures.len() == 0,
            engine.state@.player1.board.feigns.len() == 0,
            engine.state@.player2.board.creatures.len() == 0,
            engine.state@.player2.board.feigns.len() == 0,
            engine.state@.current_player == 1,
            engine.state@.turn_number == 1,
            engine.state@.phase == GamePhase::Draw,
            engine.state@.global_effect is None,
            engine.state@.game_log.len() == 11,
            engine.state@.game_log[0] == "Game started!"@,
    {
        let mut engine = GameEngine {
            state: GameState {
                player1: Player {
                    id: 1,
                    name: player1_name,
                    life: 20,
                    mana: 5,  // Start with 5 mana
                    hand: Vec::new(),
                    deck: Vec::new(),
                    board: PlayerBoard { creatures: Vec::new(), feigns: Vec::new() },
                },
                player2: Player {
                    id: 2,
                    name: player2_name,
                    life: 20,
                    mana: 5,  // Start with 5 mana
                    hand: Vec::new(),
                    deck: Vec::new(),
                    board: PlayerBoard { creatures: Vec::new(), feigns: Vec::new() },
                },
                current_player: 1,
                turn_number: 1,
                phase: GamePhase::Draw,
                global_effect: None,
                game_log: vec![String::from_str("Game started!")],
            },
        };

        // Deal each player a freshly shuffled starter deck.
        engine.state.player1.deck = create_mock_deck();
        engine.state.player2.deck = create_mock_deck();

        proof {
            assert forall|i: int| 0 <= i < engine.state@.player1.deck.len() implies
                crate::models::duration_ok(#[trigger] engine.state@.player1.deck[i]) by {
                assert(crate::models::wf_card(engine.state.player1.deck@[i]@));
            }
            assert forall|i: int| 0 <= i < engine.state@.player2.deck.len() implies
                crate::models::duration_ok(#[trigger] engine.state@.player2.deck[i]) by {
                assert(crate::models::wf_card(engine.state.player2.deck@[i]@));
            }
            assert(engine.wf());
        }

        // Draw initial hands (5 cards each).
        let mut k: usize = 0;
        while k < 5
            invariant
                k <= 5,
                engine.wf(),
                engine.state@.player1.name == player1_name@,
                engine.state@.player2.name == player2_name@,
                engine.state@.player1.life == 20,
                engine.state@.player2.life == 20,
                engine.state@.player1.mana == 5,
                engine.state@.player2.mana == 5,
                engine.state@.player1.hand.len() == k,
                engine.state@.player2.hand.len() == k,
                engine.state@.player1.deck.len() == MOCK_DECK_SIZE - k,
                engine.state@.player2.deck.len() == MOCK_DECK_SIZE - k,
                engine.state@.player1.board.creatures.len() == 0,
                engine.state@.player1.board.feigns.len() == 0,
                engine.state@.player2.board.creatures.len() == 0,
                engine.state@.player2.board.feigns.len() == 0,
                engine.state@.current_player == 1,
                engine.state@.turn_number == 1,
                engine.state@.phase == GamePhase::Draw,
                engine.state@.global_effect is None,
                engine.state@.game_log.len() == 1 + 2 * k,
                engine.state@.game_log[0] == "Game started!"@,
            decreases 5 - k,
        {
            engine.draw_card(1);
            engine.draw_card(2);
            k = k + 1;
        }

        engine
    }

    /// Processes a player action: the single mutation entry point. An action
    /// submitted by anyone but the current player always fails and leaves
    /// the state untouched; otherwise the action's own case contract
    /// applies.
    pub fn process_action(&mut self, player_id: u32, action: PlayerAction) -> (res: ActionResult)
        requires
            old(self).wf(),
            action_limits_ok(old(self).state@, player_id, action),
        ensures
            final(self).wf(),
            action_case(old(self).state@, final(self).state@, player_id, action, res),
    {
        if player_id != self.state.current_player {
            return Self::fail_result("It's not your turn!");
        }

        match action {
            PlayerAction::PlayCreature { card_id } => self.play_creature(player_id, card_id),
            PlayerAction::PlayFeign { card_id } => self.play_feign(player_id, card_id),
            PlayerAction::PlayEffect { card_id } => self.play_effect(player_id, card_id),
            PlayerAction::Attack { creature_index } => self.attack(player_id, creature_index),
            PlayerAction::RevealFeign { feign_index } => self.reveal_feign(player_id, feign_index),
            PlayerAction::EndPhase => self.end_phase(),
        }
    }

    /// Reports the winner: the opponent of whichever player's life has
    /// reached exactly zero, or `None` while both players live.
    pub fn is_game_over(&self) -> (r: Option<u32>)
        ensures
            r == spec_game_over(self.state@),
    {
        if self.state.player1.life == 0 {
            Some(2)  // Player 2 wins
        } else if self.state.player2.life == 0 {
            Some(1)  // Player 1 wins
        } else {
            None  // Game continues
        }
    }
}

} // verus!
