use vstd::prelude::*;
use crate::element::Element;

verus! {

/// Which kind of dice may pay for a card.
#[derive(Debug, Hash, Clone, Copy, PartialEq, Eq, Structural)]
pub enum DiceCost {
    /// Any dice can be used for this card
    Any,
    /// All dice used must be of the same element
    Same,
    /// The dice used must be of a given specific element
    Exact(Element),
}

/// What playing a card costs: a dice requirement, a dice amount, and a
/// character-energy amount.
#[derive(Debug, Hash, Clone, Copy, PartialEq, Eq, Structural)]
pub struct CardCost {
    pub dice: DiceCost,
    pub amount: u8,
    pub energy: u8,
}

impl CardCost {
    #[verifier::allow_in_spec]
    pub fn new(dice: DiceCost, amount: u8, energy: u8) -> CardCost
        returns (CardCost { dice, amount, energy }),
    {
        CardCost { dice, amount, energy }
    }

    /// For cards that cost nothing
    #[verifier::allow_in_spec]
    pub fn zero() -> CardCost
        returns (CardCost { dice: DiceCost::Same, amount: 0, energy: 0 }),
    {
        CardCost { dice: DiceCost::Same, amount: 0, energy: 0 }
    }

    /// For cards that cost one die of any element
    #[verifier::allow_in_spec]
    pub fn one() -> CardCost
        returns (CardCost { dice: DiceCost::Same, amount: 1, energy: 0 }),
    {
        CardCost { dice: DiceCost::Same, amount: 1, energy: 0 }
    }

    /// For cards that cost any two dice of any type
    #[verifier::allow_in_spec]
    pub fn any2() -> CardCost
        returns (CardCost { dice: DiceCost::Any, amount: 2, energy: 0 }),
    {
        CardCost { dice: DiceCost::Any, amount: 2, energy: 0 }
    }

    /// For cards that cost two dice of the same type
    #[verifier::allow_in_spec]
    pub fn match2() -> CardCost
        returns (CardCost { dice: DiceCost::Same, amount: 2, energy: 0 }),
    {
        CardCost { dice: DiceCost::Same, amount: 2, energy: 0 }
    }

    /// For cards that cost three dice of the same type
    #[verifier::allow_in_spec]
    pub fn match3() -> CardCost
        returns (CardCost { dice: DiceCost::Same, amount: 3, energy: 0 }),
    {
        CardCost { dice: DiceCost::Same, amount: 3, energy: 0 }
    }

    /// Retrieves which type of dice is required to play the given card
    pub fn dice_type(&self) -> (r: DiceCost)
        ensures
            r == self.spec_dice_type(),
    {
        self.dice
    }

    /// The amount of dice required to play the given card
    pub fn amount(&self) -> (r: u8)
        ensures
            r == self.spec_amount(),
    {
        self.amount
    }

    /// The amount of character energy required to play this card
    ///
    /// Most cards don't require energy, which means zero
    pub fn energy(&self) -> (r: u8)
        ensures
            r == self.spec_energy(),
    {
        self.energy
    }

    pub open spec fn spec_dice_type(self) -> DiceCost {
        self.dice
    }

    pub open spec fn spec_amount(self) -> u8 {
        self.amount
    }

    pub open spec fn spec_energy(self) -> u8 {
        self.energy
    }
}

} // verus!
