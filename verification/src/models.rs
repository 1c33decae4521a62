//! The data model of the game: cards, board pieces, players, the game state,
//! player actions and action results, together with the mathematical views
//! (`CardV`, `PlayerV`, `GameStateV`, ...) that all contracts are stated over,
//! and the well-formedness invariants of a game state.

use vstd::prelude::*;

verus! {

/// The six color identities of the game (cosmetic tags in the current scope).
#[derive(Debug, Clone, Copy, PartialEq, Eq, Structural)]
pub enum Color {
    Verdant,
    Cinder,
    Azure,
    Ivory,
    Umbral,
    Violet,
}

/// The three kinds of playable cards.
#[derive(Debug, Clone, Copy, PartialEq, Eq, Structural)]
pub enum CardType {
    Creature,
    Feign,
    Effect,
}

/// The four ordered stages of a turn.
#[derive(Debug, Clone, Copy, PartialEq, Eq, Structural)]
pub enum GamePhase {
    Draw,
    Placement,
    Attack,
    EndTurn,
}

/// An immutable card definition.
#[derive(Debug, PartialEq)]
pub struct Card {
    pub id: u32,
    pub name: String,
    pub card_type: CardType,
    pub color: Color,
    pub mana_cost: u32,
    pub description: String,
    /// Creature-specific stats (`None` for non-creatures).
    pub attack: Option<u32>,
    pub defense: Option<u32>,
    /// Effect-specific duration (`None` for non-effects).
    pub duration: Option<u32>,
}

/// A creature instance on the battlefield.
#[derive(Debug, PartialEq)]
pub struct Creature {
    pub card: Card,
    pub current_attack: u32,
    pub current_defense: u32,
    pub is_tapped: bool,
}

/// A face-down feign (trap) instance.
#[derive(Debug, PartialEq)]
pub struct FeignCard {
    pub card: Card,
    pub is_revealed: bool,
}

/// The single active global effect, ticking down once per turn cycle.
#[derive(Debug, PartialEq)]
pub struct GlobalEffect {
    pub card: Card,
    pub remaining_duration: u32,
}

/// A player's board: two independently indexed column sequences.
#[derive(Debug, PartialEq)]
pub struct PlayerBoard {
    pub creatures: Vec<Creature>,
    pub feigns: Vec<FeignCard>,
}

/// A player of the game.
#[derive(Debug, PartialEq)]
pub struct Player {
    pub id: u32,
    pub name: String,
    pub life: u32,
    pub mana: u32,
    pub hand: Vec<Card>,
    pub deck: Vec<Card>,
    pub board: PlayerBoard,
}

/// The full authoritative game state.
#[derive(Debug, PartialEq)]
pub struct GameState {
    pub player1: Player,
    pub player2: Player,
    /// 1 or 2.
    pub current_player: u32,
    pub turn_number: u32,
    pub phase: GamePhase,
    pub global_effect: Option<GlobalEffect>,
    /// Append-only log of human-readable entries.
    pub game_log: Vec<String>,
}

/// An action submitted by a player.
#[derive(Debug, Clone, Copy, PartialEq, Eq, Structural)]
pub enum PlayerAction {
    PlayCreature { card_id: u32 },
    PlayFeign { card_id: u32 },
    PlayEffect { card_id: u32 },
    Attack { creature_index: usize },
    RevealFeign { feign_index: usize },
    EndPhase,
}

/// The outcome of one action: a success flag, a message, and on success a
/// full snapshot of the new state.
#[derive(Debug, PartialEq)]
pub struct ActionResult {
    pub success: bool,
    pub message: String,
    pub new_state: Option<GameState>,
}

// ---------------------------------------------------------------------------
// Mathematical views
// ---------------------------------------------------------------------------

/// The mathematical view of a [`Card`].
#[verifier::ext_equal]
pub ghost struct CardV {
    pub id: u32,
    pub name: Seq<char>,
    pub card_type: CardType,
    pub color: Color,
    pub mana_cost: u32,
    pub description: Seq<char>,
    pub attack: Option<u32>,
    pub defense: Option<u32>,
    pub duration: Option<u32>,
}

/// The mathematical view of a [`Creature`].
#[verifier::ext_equal]
pub ghost struct CreatureV {
    pub card: CardV,
    pub current_attack: u32,
    pub current_defense: u32,
    pub is_tapped: bool,
}

/// The mathematical view of a [`FeignCard`].
#[verifier::ext_equal]
pub ghost struct FeignCardV {
    pub card: CardV,
    pub is_revealed: bool,
}

/// The mathematical view of a [`GlobalEffect`].
#[verifier::ext_equal]
pub ghost struct GlobalEffectV {
    pub card: CardV,
    pub remaining_duration: u32,
}

/// The mathematical view of a [`PlayerBoard`].
#[verifier::ext_equal]
pub ghost struct PlayerBoardV {
    pub creatures: Seq<CreatureV>,
    pub feigns: Seq<FeignCardV>,
}

/// The mathematical view of a [`Player`].
#[verifier::ext_equal]
pub ghost struct PlayerV {
    pub id: u32,
    pub name: Seq<char>,
    pub life: u32,
    pub mana: u32,
    pub hand: Seq<CardV>,
    pub deck: Seq<CardV>,
    pub board: PlayerBoardV,
}

/// The mathematical view of a [`GameState`].
#[verifier::ext_equal]
pub ghost struct GameStateV {
    pub player1: PlayerV,
    pub player2: PlayerV,
    pub current_player: u32,
    pub turn_number: u32,
    pub phase: GamePhase,
    pub global_effect: Option<GlobalEffectV>,
    pub game_log: Seq<Seq<char>>,
}

impl View for Card {
    type V = CardV;

    open spec fn view(&self) -> CardV {
        CardV {
            id: self.id,
            name: self.name@,
            card_type: self.card_type,
            color: self.color,
            mana_cost: self.mana_cost,
            description: self.description@,
            attack: self.attack,
            defense: self.defense,
            duration: self.duration,
        }
    }
}

impl DeepView for Card {
    type V = CardV;

    open spec fn deep_view(&self) -> CardV {
        self.view()
    }
}

impl View for Creature {
    type V = CreatureV;

    open spec fn view(&self) -> CreatureV {
        CreatureV {
            card: self.card@,
            current_attack: self.current_attack,
            current_defense: self.current_defense,
            is_tapped: self.is_tapped,
        }
    }
}

impl DeepView for Creature {
    type V = CreatureV;

    open spec fn deep_view(&self) -> CreatureV {
        self.view()
    }
}

impl View for FeignCard {
    type V = FeignCardV;

    open spec fn view(&self) -> FeignCardV {
        FeignCardV { card: self.card@, is_revealed: self.is_revealed }
    }
}

impl DeepView for FeignCard {
    type V = FeignCardV;

    open spec fn deep_view(&self) -> FeignCardV {
        self.view()
    }
}

impl View for GlobalEffect {
    type V = GlobalEffectV;

    open spec fn view(&self) -> GlobalEffectV {
        GlobalEffectV { card: self.card@, remaining_duration: self.remaining_duration }
    }
}

impl DeepView for GlobalEffect {
    type V = GlobalEffectV;

    open spec fn deep_view(&self) -> GlobalEffectV {
        self.view()
    }
}

impl View for PlayerBoard {
    type V = PlayerBoardV;

    open spec fn view(&self) -> PlayerBoardV {
        PlayerBoardV {
            creatures: self.creatures.deep_view(),
            feigns: self.feigns.deep_view(),
        }
    }
}

impl View for Player {
    type V = PlayerV;

    open spec fn view(&self) -> PlayerV {
        PlayerV {
            id: self.id,
            name: self.name@,
            life: self.life,
            mana: self.mana,
            hand: self.hand.deep_view(),
            deck: self.deck.deep_view(),
            board: self.board@,
        }
    }
}

impl View for GameState {
    type V = GameStateV;

    open spec fn view(&self) -> GameStateV {
        GameStateV {
            player1: self.player1@,
            player2: self.player2@,
            current_player: self.current_player,
            turn_number: self.turn_number,
            phase: self.phase,
            global_effect: match self.global_effect {
                Some(g) => Some(g@),
                None => None,
            },
            game_log: self.game_log.deep_view(),
        }
    }
}

// ---------------------------------------------------------------------------
// Well-formedness
// ---------------------------------------------------------------------------

/// An effect card that is present on the board never carries a zero duration.
pub open spec fn duration_ok(c: CardV) -> bool {
    c.duration matches Some(d) ==> d >= 1
}

/// All cards in a sequence satisfy [`duration_ok`].
pub open spec fn durations_ok(cards: Seq<CardV>) -> bool {
    forall|i: int| 0 <= i < cards.len() ==> duration_ok(#[trigger] cards[i])
}

/// A card's optional fields are populated consistently with its type:
/// attack and defense are present iff the card is a creature, and a
/// (positive) duration is present iff the card is an effect.
pub open spec fn wf_card(c: CardV) -> bool {
    &&& (c.card_type == CardType::Creature <==> (c.attack is Some && c.defense is Some))
    &&& (c.card_type == CardType::Effect <==> c.duration is Some)
    &&& duration_ok(c)
}

/// A player is well formed when it carries its fixed id and every card it
/// holds has a usable duration field.
pub open spec fn wf_player(p: PlayerV, id: u32) -> bool {
    &&& p.id == id
    &&& durations_ok(p.hand)
    &&& durations_ok(p.deck)
}

/// The game-state invariant: fixed player ids, a current player of 1 or 2,
/// a turn count starting at 1, and a global effect that, while present,
/// always has at least one tick remaining.
pub open spec fn wf_state(s: GameStateV) -> bool {
    &&& wf_player(s.player1, 1)
    &&& wf_player(s.player2, 2)
    &&& s.current_player == 1 || s.current_player == 2
    &&& s.turn_number >= 1
    &&& (s.global_effect matches Some(g) ==> g.remaining_duration >= 1)
}

impl GameState {
    /// The state invariant, stated over the view.
    pub open spec fn wf(&self) -> bool {
        wf_state(self@)
    }
}

// ---------------------------------------------------------------------------
// Hand lookup
// ---------------------------------------------------------------------------

/// No card in `hand` has the id `card_id`.
pub open spec fn no_card_with(hand: Seq<CardV>, card_id: u32) -> bool {
    forall|i: int| 0 <= i < hand.len() ==> (#[trigger] hand[i]).id != card_id
}

/// `i` is the first position in `hand` holding a card with id `card_id`.
pub open spec fn first_match(hand: Seq<CardV>, card_id: u32, i: int) -> bool {
    &&& 0 <= i < hand.len()
    &&& hand[i].id == card_id
    &&& forall|j: int| 0 <= j < i ==> (#[trigger] hand[j]).id != card_id
}

/// Removing a card keeps [`durations_ok`].
pub proof fn lemma_durations_ok_remove(cards: Seq<CardV>, i: int)
    requires
        durations_ok(cards),
        0 <= i < cards.len(),
    ensures
        durations_ok(cards.remove(i)),
{
    assert forall|j: int| 0 <= j < cards.remove(i).len() implies duration_ok(
        #[trigger] cards.remove(i)[j],
    ) by {
        if j < i {
            assert(cards.remove(i)[j] == cards[j]);
        } else {
            assert(cards.remove(i)[j] == cards[j + 1]);
        }
    }
}

/// The feign sequence after the feign at `column` is revealed.
pub open spec fn revealed_at(feigns: Seq<FeignCardV>, column: int) -> Seq<FeignCardV> {
    feigns.update(column, FeignCardV { is_revealed: true, ..feigns[column] })
}

// ---------------------------------------------------------------------------
// Laws
// ---------------------------------------------------------------------------

/// Life totals can never be negative: they are stored as unsigned counts and
/// every point of damage the engine or the combat resolver deals is
/// floor-clamped with a saturating subtraction, so no action sequence can
/// drive a life total below zero.
pub proof fn lemma_life_nonnegative(s: GameState)
    ensures
        s@.player1.life >= 0,
        s@.player2.life >= 0,
{
}

// ---------------------------------------------------------------------------
// Verified deep clones
// ---------------------------------------------------------------------------

impl Clone for Card {
    /// A cloned card equals the original.
    fn clone(&self) -> (res: Self)
        ensures
            res == *self,
    {
        Card {
            id: self.id,
            name: self.name.clone(),
            card_type: self.card_type,
            color: self.color,
            mana_cost: self.mana_cost,
            description: self.description.clone(),
            attack: self.attack,
            defense: self.defense,
            duration: self.duration,
        }
    }
}

impl Clone for Creature {
    /// A cloned creature equals the original.
    fn clone(&self) -> (res: Self)
        ensures
            res == *self,
    {
        Creature {
            card: self.card.clone(),
            current_attack: self.current_attack,
            current_defense: self.current_defense,
            is_tapped: self.is_tapped,
        }
    }
}

impl Clone for FeignCard {
    /// A cloned feign card equals the original.
    fn clone(&self) -> (res: Self)
        ensures
            res == *self,
    {
        FeignCard { card: self.card.clone(), is_revealed: self.is_revealed }
    }
}

impl Clone for GlobalEffect {
    /// A cloned global effect equals the original.
    fn clone(&self) -> (res: Self)
        ensures
            res == *self,
    {
        GlobalEffect { card: self.card.clone(), remaining_duration: self.remaining_duration }
    }
}

impl Clone for PlayerBoard {
    /// A cloned board has the same view as the original.
    fn clone(&self) -> (res: Self)
        ensures
            res@ == self@,
    {
        let creatures = self.creatures.clone();
        let feigns = self.feigns.clone();
        proof {
            assert forall|i: int| 0 <= i < creatures@.len() implies creatures@[i]
                == self.creatures@[i] by {
                assert(cloned::<Creature>(self.creatures[i], creatures[i]));
            }
            assert forall|i: int| 0 <= i < feigns@.len() implies feigns@[i]
                == self.feigns@[i] by {
                assert(cloned::<FeignCard>(self.feigns[i], feigns[i]));
            }
            assert(creatures.deep_view() =~= self.creatures.deep_view());
            assert(feigns.deep_view() =~= self.feigns.deep_view());
        }
        PlayerBoard { creatures, feigns }
    }
}

impl Clone for Player {
    /// A cloned player has the same view as the original.
    fn clone(&self) -> (res: Self)
        ensures
            res@ == self@,
    {
        let hand = self.hand.clone();
        let deck = self.deck.clone();
        proof {
            assert forall|i: int| 0 <= i < hand@.len() implies hand@[i] == self.hand@[i] by {
                assert(cloned::<Card>(self.hand[i], hand[i]));
            }
            assert forall|i: int| 0 <= i < deck@.len() implies deck@[i] == self.deck@[i] by {
                assert(cloned::<Card>(self.deck[i], deck[i]));
            }
            assert(hand.deep_view() =~= self.hand.deep_view());
            assert(deck.deep_view() =~= self.deck.deep_view());
        }
        Player {
            id: self.id,
            name: self.name.clone(),
            life: self.life,
            mana: self.mana,
            hand,
            deck,
            board: self.board.clone(),
        }
    }
}

impl Clone for GameState {
    /// A cloned game state has the same view as the original: this is the
    /// snapshot a successful action returns.
    fn clone(&self) -> (res: Self)
        ensures
            res@ == self@,
    {
        let game_log = self.game_log.clone();
        let global_effect = match &self.global_effect {
            Some(g) => Some(g.clone()),
            None => None,
        };
        proof {
            assert forall|i: int| 0 <= i < game_log@.len() implies game_log@[i]
                == self.game_log@[i] by {
                assert(cloned::<String>(self.game_log[i], game_log[i]));
            }
            assert(game_log.deep_view() =~= self.game_log.deep_view());
        }
        GameState {
            player1: self.player1.clone(),
            player2: self.player2.clone(),
            current_player: self.current_player,
            turn_number: self.turn_number,
            phase: self.phase,
            global_effect,
            game_log,
        }
    }
}

} // verus!
