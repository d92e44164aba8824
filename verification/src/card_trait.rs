use vstd::prelude::*;
use crate::cost::CardCost;

verus! {

/// Supertrait that closes [`PlayingCard`] over the card types of this crate.
pub trait Trait {}

/// The catalog interface every action-card type offers: a display name, a
/// play cost, and an optional shop price.
pub trait PlayingCard: Trait {
    /// The display name of the card, as the contract-level view of [`Self::name`].
    spec fn spec_name(&self) -> Seq<char>;

    /// The play cost of the card, as the contract-level view of [`Self::cost`].
    spec fn spec_cost(&self) -> CardCost;

    /// The shop price of the card, as the contract-level view of [`Self::shop_price`].
    spec fn spec_shop_price(&self) -> Option<u16>;

    /// The display name of the card
    fn name(&self) -> (r: &'static str)
        ensures
            r@ == self.spec_name(),
    ;

    /// How much it costs to play this card ingame
    fn cost(&self) -> (r: CardCost)
        ensures
            r == self.spec_cost(),
    ;

    /// Returns the price for buying this card in the shop (in Lucky Coins)
    ///
    /// If this card is not obtainable from the shop, returns `None`
    fn shop_price(&self) -> (r: Option<u16>)
        ensures
            r == self.spec_shop_price(),
    ;
}

} // verus!
