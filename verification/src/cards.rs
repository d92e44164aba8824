use vstd::prelude::*;
use crate::character::CharacterCard;
use crate::action::ActionCard;
use crate::card_trait::PlayingCard;

verus! {

/// Represents any card in the game: a character card or an action card.
#[derive(Debug, Hash, Clone, Copy, PartialEq, Eq, Structural)]
pub enum Card {
    Character(CharacterCard),
    Action(ActionCard),
}

impl Card {
    /// The display name of the card, at the contract level.
    pub open spec fn spec_name(self) -> Seq<char> {
        match self {
            Card::Character(card) => card.spec_name(),
            Card::Action(card) => card.spec_name(),
        }
    }

    pub fn name(&self) -> (r: &'static str)
        ensures
            r@ == self.spec_name(),
    {
        match self {
            Card::Character(card) => card.name(),
            Card::Action(card) => card.name(),
        }
    }
}

impl From<CharacterCard> for Card {
    fn from(card: CharacterCard) -> Card {
        Card::Character(card)
    }
}

impl vstd::std_specs::convert::FromSpecImpl<CharacterCard> for Card {
    open spec fn obeys_from_spec() -> bool {
        true
    }

    open spec fn from_spec(card: CharacterCard) -> Card {
        Card::Character(card)
    }
}

impl From<ActionCard> for Card {
    fn from(card: ActionCard) -> Card {
        Card::Action(card)
    }
}

impl vstd::std_specs::convert::FromSpecImpl<ActionCard> for Card {
    open spec fn obeys_from_spec() -> bool {
        true
    }

    open spec fn from_spec(card: ActionCard) -> Card {
        Card::Action(card)
    }
}

} // verus!
