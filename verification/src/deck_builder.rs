//! The starter deck: a fixed catalog of 25 cards, shuffled at game creation.

use vstd::prelude::*;

use rand::seq::SliceRandom;

use vstd::string::StringExecFns;

use crate::models::{Card, CardType, Color, wf_card};

verus! {

/// Number of cards in the starter deck.
pub const MOCK_DECK_SIZE: usize = 25;

/// Every card in the sequence is well formed.
pub open spec fn all_wf(cards: Seq<Card>) -> bool {
    forall|i: int| 0 <= i < cards.len() ==> wf_card((#[trigger] cards[i])@)
}

/// Relies on `rand::seq::SliceRandom::shuffle` (with `rand::thread_rng`),
/// which rearranges the elements of the slice in place: the deck afterwards
/// holds exactly the cards it held before, in some order.
#[verifier::external_body]
fn shuffle_deck(deck: &mut Vec<Card>)
    ensures
        final(deck)@.len() == old(deck)@.len(),
        final(deck)@.to_multiset() == old(deck)@.to_multiset(),
        forall|i: int| 0 <= i < final(deck)@.len() ==> old(deck)@.contains(final(deck)@[i]),
{
    deck.shuffle(&mut rand::thread_rng());
}

/// Appends a well-formed card, keeping the whole deck well formed.
fn push_card(deck: &mut Vec<Card>, card: Card)
    requires
        all_wf(old(deck)@),
        wf_card(card@),
    ensures
        final(deck)@ == old(deck)@.push(card),
        all_wf(final(deck)@),
{
    deck.push(card);
}

/// Builds the starter deck and shuffles it. The result always holds
/// [`MOCK_DECK_SIZE`] well-formed cards.
pub fn create_mock_deck() -> (r: Vec<Card>)
    ensures
        r@.len() == MOCK_DECK_SIZE,
        all_wf(r@),
{
    let mut deck: Vec<Card> = Vec::new();

    // Verdant (green) creatures: nature theme.
    push_card(&mut deck, Card {
        id: 1,
        name: String::from_str("Forest Wolf"),
        card_type: CardType::Creature,
        color: Color::Verdant,
        mana_cost: 2,
        description: String::from_str("A swift predator of the deep woods"),
        attack: Some(3),
        defense: Some(2),
        duration: None,
    });
    push_card(&mut deck, Card {
        id: 2,
        name: String::from_str("Ancient Treant"),
        card_type: CardType::Creature,
        color: Color::Verdant,
        mana_cost: 5,
        description: String::from_str("Guardian of the ancient forest"),
        attack: Some(4),
        defense: Some(6),
        duration: None,
    });
    push_card(&mut deck, Card {
        id: 3,
        name: String::from_str("Vine Sprite"),
        card_type: CardType::Creature,
        color: Color::Verdant,
        mana_cost: 1,
        description: String::from_str("Small but nimble forest spirit"),
        attack: Some(1),
        defense: Some(1),
        duration: None,
    });

    // Cinder (red) creatures: aggression theme.
    push_card(&mut deck, Card {
        id: 4,
        name: String::from_str("Fire Imp"),
        card_type: CardType::Creature,
        color: Color::Cinder,
        mana_cost: 1,
        description: String::from_str("Mischievous creature of flame"),
        attack: Some(2),
        defense: Some(1),
        duration: None,
    });
    push_card(&mut deck, Card {
        id: 5,
        name: String::from_str("Flame Dragon"),
        card_type: CardType::Creature,
        color: Color::Cinder,
        mana_cost: 6,
        description: String::from_str("Mighty dragon wreathed in fire"),
        attack: Some(7),
        defense: Some(5),
        duration: None,
    });
    push_card(&mut deck, Card {
        id: 6,
        name: String::from_str("Ember Warrior"),
        card_type: CardType::Creature,
        color: Color::Cinder,
        mana_cost: 3,
        description: String::from_str("Warrior forged in the heart of a volcano"),
        attack: Some(4),
        defense: Some(2),
        duration: None,
    });

    // Azure (blue) creatures: control theme.
    push_card(&mut deck, Card {
        id: 7,
        name: String::from_str("Frost Elemental"),
        card_type: CardType::Creature,
        color: Color::Azure,
        mana_cost: 3,
        description: String::from_str("Elemental born from winter's breath"),
        attack: Some(2),
        defense: Some(4),
        duration: None,
    });
    push_card(&mut deck, Card {
        id: 8,
        name: String::from_str("Storm Caller"),
        card_type: CardType::Creature,
        color: Color::Azure,
        mana_cost: 4,
        description: String::from_str("Mage who commands the tempest"),
        attack: Some(3),
        defense: Some(3),
        duration: None,
    });

    // Ivory (white) creatures: protection theme.
    push_card(&mut deck, Card {
        id: 9,
        name: String::from_str("Guardian Angel"),
        card_type: CardType::Creature,
        color: Color::Ivory,
        mana_cost: 4,
        description: String::from_str("Divine protector of the innocent"),
        attack: Some(2),
        defense: Some(5),
        duration: None,
    });
    push_card(&mut deck, Card {
        id: 10,
        name: String::from_str("Holy Knight"),
        card_type: CardType::Creature,
        color: Color::Ivory,
        mana_cost: 3,
        description: String::from_str("Righteous warrior blessed by light"),
        attack: Some(3),
        defense: Some(3),
        duration: None,
    });

    // Umbral (black) creatures: sacrifice theme.
    push_card(&mut deck, Card {
        id: 11,
        name: String::from_str("Shadow Wraith"),
        card_type: CardType::Creature,
        color: Color::Umbral,
        mana_cost: 2,
        description: String::from_str("Vengeful spirit from the void"),
        attack: Some(3),
        defense: Some(1),
        duration: None,
    });
    push_card(&mut deck, Card {
        id: 12,
        name: String::from_str("Bone Golem"),
        card_type: CardType::Creature,
        color: Color::Umbral,
        mana_cost: 4,
        description: String::from_str("Construct animated by dark magic"),
        attack: Some(4),
        defense: Some(4),
        duration: None,
    });

    // Violet (purple) creature: effect synergy.
    push_card(&mut deck, Card {
        id: 13,
        name: String::from_str("Mystic Scholar"),
        card_type: CardType::Creature,
        color: Color::Violet,
        mana_cost: 2,
        description: String::from_str("Student of arcane mysteries"),
        attack: Some(1),
        defense: Some(3),
        duration: None,
    });

    // Feign (trap) cards.
    push_card(&mut deck, Card {
        id: 14,
        name: String::from_str("Shield Trap"),
        card_type: CardType::Feign,
        color: Color::Ivory,
        mana_cost: 1,
        description: String::from_str("Reduces incoming damage when revealed"),
        attack: None,
        defense: None,
        duration: None,
    });
    push_card(&mut deck, Card {
        id: 15,
        name: String::from_str("Counter Strike"),
        card_type: CardType::Feign,
        color: Color::Cinder,
        mana_cost: 2,
        description: String::from_str("Deals damage to attacker when revealed"),
        attack: None,
        defense: None,
        duration: None,
    });
    push_card(&mut deck, Card {
        id: 16,
        name: String::from_str("Mana Boost"),
        card_type: CardType::Feign,
        color: Color::Verdant,
        mana_cost: 1,
        description: String::from_str("Grants extra mana when revealed"),
        attack: None,
        defense: None,
        duration: None,
    });
    push_card(&mut deck, Card {
        id: 17,
        name: String::from_str("Illusion"),
        card_type: CardType::Feign,
        color: Color::Azure,
        mana_cost: 2,
        description: String::from_str("Creates a temporary creature when revealed"),
        attack: None,
        defense: None,
        duration: None,
    });
    push_card(&mut deck, Card {
        id: 18,
        name: String::from_str("Soul Drain"),
        card_type: CardType::Feign,
        color: Color::Umbral,
        mana_cost: 2,
        description: String::from_str("Weakens enemy creatures when revealed"),
        attack: None,
        defense: None,
        duration: None,
    });
    push_card(&mut deck, Card {
        id: 19,
        name: String::from_str("Arcane Resonance"),
        card_type: CardType::Feign,
        color: Color::Violet,
        mana_cost: 1,
        description: String::from_str("Gains power from global effects"),
        attack: None,
        defense: None,
        duration: None,
    });

    // Effect cards.
    push_card(&mut deck, Card {
        id: 20,
        name: String::from_str("Blessing of Growth"),
        card_type: CardType::Effect,
        color: Color::Verdant,
        mana_cost: 3,
        description: String::from_str("All creatures gain +1/+1"),
        attack: None,
        defense: None,
        duration: Some(3),
    });
    push_card(&mut deck, Card {
        id: 21,
        name: String::from_str("Inferno"),
        card_type: CardType::Effect,
        color: Color::Cinder,
        mana_cost: 4,
        description: String::from_str("All creatures take 1 damage each turn"),
        attack: None,
        defense: None,
        duration: Some(2),
    });
    push_card(&mut deck, Card {
        id: 22,
        name: String::from_str("Frozen Time"),
        card_type: CardType::Effect,
        color: Color::Azure,
        mana_cost: 5,
        description: String::from_str("Players draw an extra card each turn"),
        attack: None,
        defense: None,
        duration: Some(4),
    });
    push_card(&mut deck, Card {
        id: 23,
        name: String::from_str("Divine Protection"),
        card_type: CardType::Effect,
        color: Color::Ivory,
        mana_cost: 3,
        description: String::from_str("All damage is reduced by 1"),
        attack: None,
        defense: None,
        duration: Some(3),
    });
    push_card(&mut deck, Card {
        id: 24,
        name: String::from_str("Curse of Weakness"),
        card_type: CardType::Effect,
        color: Color::Umbral,
        mana_cost: 2,
        description: String::from_str("All creatures have -1 attack"),
        attack: None,
        defense: None,
        duration: Some(2),
    });
    push_card(&mut deck, Card {
        id: 25,
        name: String::from_str("Arcane Amplification"),
        card_type: CardType::Effect,
        color: Color::Violet,
        mana_cost: 4,
        description: String::from_str("Violet creatures gain +2/+2"),
        attack: None,
        defense: None,
        duration: Some(3),
    });

    let ghost unshuffled = deck@;

    shuffle_deck(&mut deck);

    proof {
        assert forall|i: int| 0 <= i < deck@.len() implies wf_card((#[trigger] deck@[i])@) by {
            assert(unshuffled.contains(deck@[i]));
            let j = choose|j: int| 0 <= j < unshuffled.len() && unshuffled[j] == deck@[i];
            assert(wf_card(unshuffled[j]@));
        }
    }

    deck
}

} // verus!
