use vstd::prelude::*;
use crate::cost::CardCost;
use crate::card_trait::{PlayingCard, Trait};
use crate::equip::{ArtifactCard, EquipmentCard, TalentCard, WeaponCard, equip_rank, equip_rank_exec, lemma_equip_rank_injective, lemma_equip_rank_bounds};
use crate::support::{CompanionCard, ItemCard, LocationCard, SupportCard, support_rank, support_rank_exec, lemma_support_rank_injective, lemma_support_rank_bounds};
use crate::event::{ElementalResonanceCard, EventCard, FoodCard, NormalEventCard, event_rank, event_rank_exec, lemma_event_rank_injective, lemma_event_rank_bounds};

verus! {

/// Any action card: an equipment, a support, or an event card.
#[derive(Debug, Hash, Clone, Copy, PartialEq, Eq, Structural)]
pub enum ActionCard {
    Equipment(EquipmentCard),
    Support(SupportCard),
    Event(EventCard),
}

impl ActionCard {
    /// The an equipment this card is, at the contract level.
    pub open spec fn spec_equipment(self) -> Option<EquipmentCard> {
        match self {
            ActionCard::Equipment(card) => Some(card),
            _ => None,
        }
    }

    /// Attempts to view `self` as an equipment card. Returns `None`
    /// if this card is of another type/subtype
    pub fn equipment(&self) -> (r: Option<EquipmentCard>)
        ensures
            r == self.spec_equipment(),
    {
        if let ActionCard::Equipment(card) = self {
            Some(*card)
        } else {
            None
        }
    }

    /// The a support this card is, at the contract level.
    pub open spec fn spec_support(self) -> Option<SupportCard> {
        match self {
            ActionCard::Support(card) => Some(card),
            _ => None,
        }
    }

    /// Attempts to view `self` as a support card. Returns `None`
    /// if this card is of another type/subtype
    pub fn support(&self) -> (r: Option<SupportCard>)
        ensures
            r == self.spec_support(),
    {
        if let ActionCard::Support(card) = self {
            Some(*card)
        } else {
            None
        }
    }

    /// The an event this card is, at the contract level.
    pub open spec fn spec_event(self) -> Option<EventCard> {
        match self {
            ActionCard::Event(card) => Some(card),
            _ => None,
        }
    }

    /// Attempts to view `self` as an event card. Returns `None`
    /// if this card is of another type/subtype
    pub fn event(&self) -> (r: Option<EventCard>)
        ensures
            r == self.spec_event(),
    {
        if let ActionCard::Event(card) = self {
            Some(*card)
        } else {
            None
        }
    }

    /// The a talent this card is, at the contract level.
    pub open spec fn spec_talent(self) -> Option<TalentCard> {
        match self {
            ActionCard::Equipment(EquipmentCard::Talent(card)) => Some(card),
            _ => None,
        }
    }

    /// Attempts to view `self` as a talent card. Returns `None`
    /// if this card is of another type/subtype
    pub fn talent(&self) -> (r: Option<TalentCard>)
        ensures
            r == self.spec_talent(),
    {
        if let ActionCard::Equipment(EquipmentCard::Talent(card)) = self {
            Some(*card)
        } else {
            None
        }
    }

    /// The a weapon this card is, at the contract level.
    pub open spec fn spec_weapon(self) -> Option<WeaponCard> {
        match self {
            ActionCard::Equipment(EquipmentCard::Weapon(card)) => Some(card),
            _ => None,
        }
    }

    /// Attempts to view `self` as a weapon card. Returns `None`
    /// if this card is of another type/subtype
    pub fn weapon(&self) -> (r: Option<WeaponCard>)
        ensures
            r == self.spec_weapon(),
    {
        if let ActionCard::Equipment(EquipmentCard::Weapon(card)) = self {
            Some(*card)
        } else {
            None
        }
    }

    /// The an artifact this card is, at the contract level.
    pub open spec fn spec_artifact(self) -> Option<ArtifactCard> {
        match self {
            ActionCard::Equipment(EquipmentCard::Artifact(card)) => Some(card),
            _ => None,
        }
    }

    /// Attempts to view `self` as an artifact card. Returns `None`
    /// if this card is of another type/subtype
    pub fn artifact(&self) -> (r: Option<ArtifactCard>)
        ensures
            r == self.spec_artifact(),
    {
        if let ActionCard::Equipment(EquipmentCard::Artifact(card)) = self {
            Some(*card)
        } else {
            None
        }
    }

    /// The a companion this card is, at the contract level.
    pub open spec fn spec_companion(self) -> Option<CompanionCard> {
        match self {
            ActionCard::Support(SupportCard::Companion(card)) => Some(card),
            _ => None,
        }
    }

    /// Attempts to view `self` as a companion card. Returns `None`
    /// if this card is of another type/subtype
    pub fn companion(&self) -> (r: Option<CompanionCard>)
        ensures
            r == self.spec_companion(),
    {
        if let ActionCard::Support(SupportCard::Companion(card)) = self {
            Some(*card)
        } else {
            None
        }
    }

    /// The a location this card is, at the contract level.
    pub open spec fn spec_location(self) -> Option<LocationCard> {
        match self {
            ActionCard::Support(SupportCard::Location(card)) => Some(card),
            _ => None,
        }
    }

    /// Attempts to view `self` as a location card. Returns `None`
    /// if this card is of another type/subtype
    pub fn location(&self) -> (r: Option<LocationCard>)
        ensures
            r == self.spec_location(),
    {
        if let ActionCard::Support(SupportCard::Location(card)) = self {
            Some(*card)
        } else {
            None
        }
    }

    /// The an item this card is, at the contract level.
    pub open spec fn spec_item(self) -> Option<ItemCard> {
        match self {
            ActionCard::Support(SupportCard::Item(card)) => Some(card),
            _ => None,
        }
    }

    /// Attempts to view `self` as an item card. Returns `None`
    /// if this card is of another type/subtype
    pub fn item(&self) -> (r: Option<ItemCard>)
        ensures
            r == self.spec_item(),
    {
        if let ActionCard::Support(SupportCard::Item(card)) = self {
            Some(*card)
        } else {
            None
        }
    }

    /// The a normal event this card is, at the contract level.
    pub open spec fn spec_normal_event(self) -> Option<NormalEventCard> {
        match self {
            ActionCard::Event(EventCard::Normal(card)) => Some(card),
            _ => None,
        }
    }

    /// Attempts to view `self` as a normal event card. Returns `None`
    /// if this card is of another type/subtype
    pub fn normal_event(&self) -> (r: Option<NormalEventCard>)
        ensures
            r == self.spec_normal_event(),
    {
        if let ActionCard::Event(EventCard::Normal(card)) = self {
            Some(*card)
        } else {
            None
        }
    }

    /// The a resonance this card is, at the contract level.
    pub open spec fn spec_resonance(self) -> Option<ElementalResonanceCard> {
        match self {
            ActionCard::Event(EventCard::Resonance(card)) => Some(card),
            _ => None,
        }
    }

    /// Attempts to view `self` as a resonance card. Returns `None`
    /// if this card is of another type/subtype
    pub fn resonance(&self) -> (r: Option<ElementalResonanceCard>)
        ensures
            r == self.spec_resonance(),
    {
        if let ActionCard::Event(EventCard::Resonance(card)) = self {
            Some(*card)
        } else {
            None
        }
    }

    /// The a food this card is, at the contract level.
    pub open spec fn spec_food(self) -> Option<FoodCard> {
        match self {
            ActionCard::Event(EventCard::Food(card)) => Some(card),
            _ => None,
        }
    }

    /// Attempts to view `self` as a food card. Returns `None`
    /// if this card is of another type/subtype
    pub fn food(&self) -> (r: Option<FoodCard>)
        ensures
            r == self.spec_food(),
    {
        if let ActionCard::Event(EventCard::Food(card)) = self {
            Some(*card)
        } else {
            None
        }
    }
}

impl Trait for ActionCard {}

impl PlayingCard for ActionCard {
    open spec fn spec_name(&self) -> Seq<char> {
        match *self {
            ActionCard::Equipment(c) => c.spec_name(),
            ActionCard::Support(c) => c.spec_name(),
            ActionCard::Event(c) => c.spec_name(),
        }
    }

    open spec fn spec_cost(&self) -> CardCost {
        match *self {
            ActionCard::Equipment(c) => c.spec_cost(),
            ActionCard::Support(c) => c.spec_cost(),
            ActionCard::Event(c) => c.spec_cost(),
        }
    }

    open spec fn spec_shop_price(&self) -> Option<u16> {
        match *self {
            ActionCard::Equipment(c) => c.spec_shop_price(),
            ActionCard::Support(c) => c.spec_shop_price(),
            ActionCard::Event(c) => c.spec_shop_price(),
        }
    }

    fn name(&self) -> &'static str {
        match self {
            ActionCard::Equipment(card) => card.name(),
            ActionCard::Support(card) => card.name(),
            ActionCard::Event(card) => card.name(),
        }
    }

    fn cost(&self) -> CardCost {
        match self {
            ActionCard::Equipment(card) => card.cost(),
            ActionCard::Support(card) => card.cost(),
            ActionCard::Event(card) => card.cost(),
        }
    }

    fn shop_price(&self) -> Option<u16> {
        match self {
            ActionCard::Equipment(card) => card.shop_price(),
            ActionCard::Support(card) => card.shop_price(),
            ActionCard::Event(card) => card.shop_price(),
        }
    }
}

/// The canonical rank of a `ActionCard`: sub-categories occupy disjoint
/// bands, and cards within one sub-category order by declaration index.
pub open spec fn action_rank(c: ActionCard) -> int {
    match c {
        ActionCard::Equipment(c) => equip_rank(c),
        ActionCard::Support(c) => 300 + support_rank(c),
        ActionCard::Event(c) => 600 + event_rank(c),
    }
}

pub(crate) fn action_rank_exec(c: &ActionCard) -> (r: u16)
    ensures
        r as int == action_rank(*c),
        r < 900,
{
    match c {
        ActionCard::Equipment(c) => equip_rank_exec(c),
        ActionCard::Support(c) => 300 + support_rank_exec(c),
        ActionCard::Event(c) => 600 + event_rank_exec(c),
    }
}

pub proof fn lemma_action_rank_injective(a: ActionCard, b: ActionCard)
    ensures
        action_rank(a) == action_rank(b) ==> a == b,
{
    match (a, b) {
        (ActionCard::Equipment(x), ActionCard::Equipment(y)) => lemma_equip_rank_injective(x, y),
        (ActionCard::Equipment(x), ActionCard::Support(y)) => {
            lemma_equip_rank_bounds(x);
            lemma_support_rank_bounds(y);
        },
        (ActionCard::Equipment(x), ActionCard::Event(y)) => {
            lemma_equip_rank_bounds(x);
            lemma_event_rank_bounds(y);
        },
        (ActionCard::Support(x), ActionCard::Equipment(y)) => {
            lemma_support_rank_bounds(x);
            lemma_equip_rank_bounds(y);
        },
        (ActionCard::Support(x), ActionCard::Support(y)) => lemma_support_rank_injective(x, y),
        (ActionCard::Support(x), ActionCard::Event(y)) => {
            lemma_support_rank_bounds(x);
            lemma_event_rank_bounds(y);
        },
        (ActionCard::Event(x), ActionCard::Equipment(y)) => {
            lemma_event_rank_bounds(x);
            lemma_equip_rank_bounds(y);
        },
        (ActionCard::Event(x), ActionCard::Support(y)) => {
            lemma_event_rank_bounds(x);
            lemma_support_rank_bounds(y);
        },
        (ActionCard::Event(x), ActionCard::Event(y)) => lemma_event_rank_injective(x, y),
    }
}

} // verus!
