use vstd::prelude::*;
use crate::element::Element;
use crate::cost::{CardCost, DiceCost};
use crate::card_trait::{PlayingCard, Trait};
use crate::action::ActionCard;
use crate::cards::Card;

verus! {

/// A normal event card, with no subtype.
#[derive(Debug, Hash, Clone, Copy, PartialEq, Eq, Structural)]
#[non_exhaustive]
pub enum NormalEventCard {
    TossUp,
    SendOff,
    Starsigns,
    CalxsArts,
    QuickKnit,
    Strategize,
    LeaveItToMe,
    GuardiansOath,
    ChangingShifts,
    IHaventLostYet,
    AbyssalSummons,
    MasterOfWeaponry,
    WhenTheCraneReturned,
    TheBestestTravelCompanion,
    BlessingOfTheDivineRelicsInstallation,
}

impl NormalEventCard {
    /// The catalog row of this event: name, shop price, and cost.
    pub open spec fn spec_info(self) -> (Seq<char>, Option<u16>, CardCost) {
        match self {
            NormalEventCard::TossUp => ("Toss-Up"@, None, CardCost::zero()),
            NormalEventCard::SendOff => ("Send Off"@, Some(500), CardCost::any2()),
            NormalEventCard::Starsigns => ("Starsigns"@, Some(500), CardCost::any2()),
            NormalEventCard::CalxsArts => ("Calx's Arts"@, Some(500), CardCost::one()),
            NormalEventCard::QuickKnit => ("Quick Knit"@, Some(500), CardCost::one()),
            NormalEventCard::Strategize => ("Strategize"@, Some(500), CardCost::one()),
            NormalEventCard::LeaveItToMe => ("Leave It To Me!"@, Some(500), CardCost::zero()),
            NormalEventCard::GuardiansOath => ("Guardian's Oath"@, Some(500), CardCost::new(DiceCost::Same, 4, 0)),
            NormalEventCard::ChangingShifts => ("Changing Shifts"@, Some(500), CardCost::zero()),
            NormalEventCard::IHaventLostYet => ("I haven't Lost Yet!"@, Some(500), CardCost::zero()),
            NormalEventCard::AbyssalSummons => ("Abyssal Summons"@, Some(500), CardCost::match2()),
            NormalEventCard::MasterOfWeaponry => ("Master of Weaponry"@, Some(500), CardCost::zero()),
            NormalEventCard::WhenTheCraneReturned => ("When The Crane Returned"@, Some(500), CardCost::one()),
            NormalEventCard::TheBestestTravelCompanion => ("The Bestest Travel Companion!"@, None, CardCost::any2()),
            NormalEventCard::BlessingOfTheDivineRelicsInstallation => ("Blessing of the Divine Relic's Installation"@, Some(500), CardCost::zero()),
        }
    }
    fn info_dump(&self) -> (r: (&'static str, Option<u16>, CardCost))
        ensures
            r.0@ == self.spec_info().0,
            r.1 == self.spec_info().1,
            r.2 == self.spec_info().2,
    {
        match self {
            NormalEventCard::TossUp => ("Toss-Up", None, CardCost::zero()),
            NormalEventCard::SendOff => ("Send Off", Some(500), CardCost::any2()),
            NormalEventCard::Starsigns => ("Starsigns", Some(500), CardCost::any2()),
            NormalEventCard::CalxsArts => ("Calx's Arts", Some(500), CardCost::one()),
            NormalEventCard::QuickKnit => ("Quick Knit", Some(500), CardCost::one()),
            NormalEventCard::Strategize => ("Strategize", Some(500), CardCost::one()),
            NormalEventCard::LeaveItToMe => ("Leave It To Me!", Some(500), CardCost::zero()),
            NormalEventCard::GuardiansOath => ("Guardian's Oath", Some(500), CardCost::new(DiceCost::Same, 4, 0)),
            NormalEventCard::ChangingShifts => ("Changing Shifts", Some(500), CardCost::zero()),
            NormalEventCard::IHaventLostYet => ("I haven't Lost Yet!", Some(500), CardCost::zero()),
            NormalEventCard::AbyssalSummons => ("Abyssal Summons", Some(500), CardCost::match2()),
            NormalEventCard::MasterOfWeaponry => ("Master of Weaponry", Some(500), CardCost::zero()),
            NormalEventCard::WhenTheCraneReturned => ("When The Crane Returned", Some(500), CardCost::one()),
            NormalEventCard::TheBestestTravelCompanion => ("The Bestest Travel Companion!", None, CardCost::any2()),
            NormalEventCard::BlessingOfTheDivineRelicsInstallation => ("Blessing of the Divine Relic's Installation", Some(500), CardCost::zero()),
        }
    }
}

impl Trait for NormalEventCard {}

impl PlayingCard for NormalEventCard {
    open spec fn spec_name(&self) -> Seq<char> {
        self.spec_info().0
    }

    open spec fn spec_cost(&self) -> CardCost {
        self.spec_info().2
    }

    open spec fn spec_shop_price(&self) -> Option<u16> {
        self.spec_info().1
    }

    fn name(&self) -> &'static str {
        self.info_dump().0
    }

    fn cost(&self) -> CardCost {
        self.info_dump().2
    }

    fn shop_price(&self) -> Option<u16> {
        self.info_dump().1
    }
}

/// The declaration index of a `NormalEventCard` variant: the fixed canonical order
/// in which cards of this category are sorted inside a deck.
pub open spec fn normal_event_index(c: NormalEventCard) -> int {
    match c {
        NormalEventCard::TossUp => 0,
        NormalEventCard::SendOff => 1,
        NormalEventCard::Starsigns => 2,
        NormalEventCard::CalxsArts => 3,
        NormalEventCard::QuickKnit => 4,
        NormalEventCard::Strategize => 5,
        NormalEventCard::LeaveItToMe => 6,
        NormalEventCard::GuardiansOath => 7,
        NormalEventCard::ChangingShifts => 8,
        NormalEventCard::IHaventLostYet => 9,
        NormalEventCard::AbyssalSummons => 10,
        NormalEventCard::MasterOfWeaponry => 11,
        NormalEventCard::WhenTheCraneReturned => 12,
        NormalEventCard::TheBestestTravelCompanion => 13,
        NormalEventCard::BlessingOfTheDivineRelicsInstallation => 14,
    }
}

pub(crate) fn normal_event_index_exec(c: &NormalEventCard) -> (r: u16)
    ensures
        r as int == normal_event_index(*c),
        r < 100,
{
    match c {
        NormalEventCard::TossUp => 0,
        NormalEventCard::SendOff => 1,
        NormalEventCard::Starsigns => 2,
        NormalEventCard::CalxsArts => 3,
        NormalEventCard::QuickKnit => 4,
        NormalEventCard::Strategize => 5,
        NormalEventCard::LeaveItToMe => 6,
        NormalEventCard::GuardiansOath => 7,
        NormalEventCard::ChangingShifts => 8,
        NormalEventCard::IHaventLostYet => 9,
        NormalEventCard::AbyssalSummons => 10,
        NormalEventCard::MasterOfWeaponry => 11,
        NormalEventCard::WhenTheCraneReturned => 12,
        NormalEventCard::TheBestestTravelCompanion => 13,
        NormalEventCard::BlessingOfTheDivineRelicsInstallation => 14,
    }
}

/// No two normal event cards share a declaration index.
pub proof fn lemma_normal_event_index_injective(a: NormalEventCard, b: NormalEventCard)
    ensures
        normal_event_index(a) == normal_event_index(b) ==> a == b,
{
}

pub proof fn lemma_normal_event_index_bounds(a: NormalEventCard)
    ensures
        0 <= normal_event_index(a) < 100,
{
}

/// An elemental resonance card, bound to one element.
#[derive(Debug, Hash, Clone, Copy, PartialEq, Eq, Structural)]
#[non_exhaustive]
pub enum ElementalResonanceCard {
    WovenIce,
    ShatteringIce,
    WovenWaters,
    SoothingWater,
    WovenFlames,
    FerventFlames,
    WovenThunder,
    HighVoltage,
    WovenWinds,
    ImpetuousWinds,
    WovenStone,
    EnduringRock,
    WovenWeeds,
    SprawlingGreenery,
}

impl ElementalResonanceCard {
    /// The catalog row of this resonance card: name, element, and cost.
    pub open spec fn spec_info(self) -> (Seq<char>, Element, CardCost) {
        match self {
            ElementalResonanceCard::WovenIce => ("Woven Ice"@, Element::Cryo, CardCost::zero()),
            ElementalResonanceCard::ShatteringIce => ("Shattering Ice"@, Element::Cryo, CardCost::new(DiceCost::Exact(Element::Cryo), 1, 0)),
            ElementalResonanceCard::WovenWaters => ("Woven Waters"@, Element::Hydro, CardCost::zero()),
            ElementalResonanceCard::SoothingWater => ("Soothing Water"@, Element::Hydro, CardCost::new(DiceCost::Exact(Element::Hydro), 1, 0)),
            ElementalResonanceCard::WovenFlames => ("Woven Flames"@, Element::Pyro, CardCost::zero()),
            ElementalResonanceCard::FerventFlames => ("Fervent Flames"@, Element::Pyro, CardCost::new(DiceCost::Exact(Element::Pyro), 1, 0)),
            ElementalResonanceCard::WovenThunder => ("Woven Thunder"@, Element::Electro, CardCost::zero()),
            ElementalResonanceCard::HighVoltage => ("High Voltage"@, Element::Electro, CardCost::new(DiceCost::Exact(Element::Electro), 1, 0)),
            ElementalResonanceCard::WovenWinds => ("Woven Winds"@, Element::Anemo, CardCost::zero()),
            ElementalResonanceCard::ImpetuousWinds => ("Impetuous Winds"@, Element::Anemo, CardCost::new(DiceCost::Exact(Element::Anemo), 1, 0)),
            ElementalResonanceCard::WovenStone => ("Woven Stone"@, Element::Geo, CardCost::zero()),
            ElementalResonanceCard::EnduringRock => ("Enduring Rock"@, Element::Geo, CardCost::new(DiceCost::Exact(Element::Geo), 1, 0)),
            ElementalResonanceCard::WovenWeeds => ("Woven Weeds"@, Element::Dendro, CardCost::zero()),
            ElementalResonanceCard::SprawlingGreenery => ("Sprawling Greenery"@, Element::Dendro, CardCost::new(DiceCost::Exact(Element::Dendro), 1, 0)),
        }
    }

    /// The element this resonance card is bound to, at the contract level.
    pub open spec fn spec_element(self) -> Element {
        self.spec_info().1
    }

    /// Returns which element this resonance card is attached to
    pub fn element(&self) -> (r: Element)
        ensures
            r == self.spec_element(),
    {
        self.info_dump().1
    }

    fn info_dump(&self) -> (r: (&'static str, Element, CardCost))
        ensures
            r.0@ == self.spec_info().0,
            r.1 == self.spec_info().1,
            r.2 == self.spec_info().2,
    {
        match self {
            ElementalResonanceCard::WovenIce => ("Woven Ice", Element::Cryo, CardCost::zero()),
            ElementalResonanceCard::ShatteringIce => ("Shattering Ice", Element::Cryo, CardCost::new(DiceCost::Exact(Element::Cryo), 1, 0)),
            ElementalResonanceCard::WovenWaters => ("Woven Waters", Element::Hydro, CardCost::zero()),
            ElementalResonanceCard::SoothingWater => ("Soothing Water", Element::Hydro, CardCost::new(DiceCost::Exact(Element::Hydro), 1, 0)),
            ElementalResonanceCard::WovenFlames => ("Woven Flames", Element::Pyro, CardCost::zero()),
            ElementalResonanceCard::FerventFlames => ("Fervent Flames", Element::Pyro, CardCost::new(DiceCost::Exact(Element::Pyro), 1, 0)),
            ElementalResonanceCard::WovenThunder => ("Woven Thunder", Element::Electro, CardCost::zero()),
            ElementalResonanceCard::HighVoltage => ("High Voltage", Element::Electro, CardCost::new(DiceCost::Exact(Element::Electro), 1, 0)),
            ElementalResonanceCard::WovenWinds => ("Woven Winds", Element::Anemo, CardCost::zero()),
            ElementalResonanceCard::ImpetuousWinds => ("Impetuous Winds", Element::Anemo, CardCost::new(DiceCost::Exact(Element::Anemo), 1, 0)),
            ElementalResonanceCard::WovenStone => ("Woven Stone", Element::Geo, CardCost::zero()),
            ElementalResonanceCard::EnduringRock => ("Enduring Rock", Element::Geo, CardCost::new(DiceCost::Exact(Element::Geo), 1, 0)),
            ElementalResonanceCard::WovenWeeds => ("Woven Weeds", Element::Dendro, CardCost::zero()),
            ElementalResonanceCard::SprawlingGreenery => ("Sprawling Greenery", Element::Dendro, CardCost::new(DiceCost::Exact(Element::Dendro), 1, 0)),
        }
    }
}

impl Trait for ElementalResonanceCard {}

impl PlayingCard for ElementalResonanceCard {
    open spec fn spec_name(&self) -> Seq<char> {
        self.spec_info().0
    }

    open spec fn spec_cost(&self) -> CardCost {
        self.spec_info().2
    }

    open spec fn spec_shop_price(&self) -> Option<u16> {
        Some(500u16)
    }

    fn name(&self) -> &'static str {
        self.info_dump().0
    }

    fn cost(&self) -> CardCost {
        self.info_dump().2
    }

    fn shop_price(&self) -> Option<u16> {
        Some(500)
    }
}

/// The declaration index of a `ElementalResonanceCard` variant: the fixed canonical order
/// in which cards of this category are sorted inside a deck.
pub open spec fn resonance_index(c: ElementalResonanceCard) -> int {
    match c {
        ElementalResonanceCard::WovenIce => 0,
        ElementalResonanceCard::ShatteringIce => 1,
        ElementalResonanceCard::WovenWaters => 2,
        ElementalResonanceCard::SoothingWater => 3,
        ElementalResonanceCard::WovenFlames => 4,
        ElementalResonanceCard::FerventFlames => 5,
        ElementalResonanceCard::WovenThunder => 6,
        ElementalResonanceCard::HighVoltage => 7,
        ElementalResonanceCard::WovenWinds => 8,
        ElementalResonanceCard::ImpetuousWinds => 9,
        ElementalResonanceCard::WovenStone => 10,
        ElementalResonanceCard::EnduringRock => 11,
        ElementalResonanceCard::WovenWeeds => 12,
        ElementalResonanceCard::SprawlingGreenery => 13,
    }
}

pub(crate) fn resonance_index_exec(c: &ElementalResonanceCard) -> (r: u16)
    ensures
        r as int == resonance_index(*c),
        r < 100,
{
    match c {
        ElementalResonanceCard::WovenIce => 0,
        ElementalResonanceCard::ShatteringIce => 1,
        ElementalResonanceCard::WovenWaters => 2,
        ElementalResonanceCard::SoothingWater => 3,
        ElementalResonanceCard::WovenFlames => 4,
        ElementalResonanceCard::FerventFlames => 5,
        ElementalResonanceCard::WovenThunder => 6,
        ElementalResonanceCard::HighVoltage => 7,
        ElementalResonanceCard::WovenWinds => 8,
        ElementalResonanceCard::ImpetuousWinds => 9,
        ElementalResonanceCard::WovenStone => 10,
        ElementalResonanceCard::EnduringRock => 11,
        ElementalResonanceCard::WovenWeeds => 12,
        ElementalResonanceCard::SprawlingGreenery => 13,
    }
}

/// No two resonance cards share a declaration index.
pub proof fn lemma_resonance_index_injective(a: ElementalResonanceCard, b: ElementalResonanceCard)
    ensures
        resonance_index(a) == resonance_index(b) ==> a == b,
{
}

pub proof fn lemma_resonance_index_bounds(a: ElementalResonanceCard)
    ensures
        0 <= resonance_index(a) < 100,
{
}

/// A food buff card.
#[derive(Debug, Hash, Clone, Copy, PartialEq, Eq, Structural)]
#[non_exhaustive]
pub enum FoodCard {
    MondstadtHashBrown,
    JueyunGuoba,
    AdeptusTemptation,
    LotusFlowerCrisp,
    NorthernSmokedChicken,
    SweetMadame,
    MushroomPizza,
    MintyMeatRolls,
}

impl FoodCard {
    /// The catalog row of this food card: name, shop price, and cost.
    pub open spec fn spec_info(self) -> (Seq<char>, Option<u16>, CardCost) {
        match self {
            FoodCard::MondstadtHashBrown => ("Mondstadt Hash Brown"@, None, CardCost::one()),
            FoodCard::JueyunGuoba => ("Jueyun Guoba"@, Some(500), CardCost::zero()),
            FoodCard::AdeptusTemptation => ("Adeptus' Temptation"@, Some(500), CardCost::any2()),
            FoodCard::LotusFlowerCrisp => ("Lotus Flower Crisp"@, Some(500), CardCost::one()),
            FoodCard::NorthernSmokedChicken => ("Northern Smoked Chicken"@, Some(500), CardCost::zero()),
            FoodCard::SweetMadame => ("Sweet Madame"@, Some(500), CardCost::zero()),
            FoodCard::MushroomPizza => ("Mushroom Pizza"@, Some(500), CardCost::one()),
            FoodCard::MintyMeatRolls => ("Minty Meat Rolls"@, Some(500), CardCost::one()),
        }
    }
    fn info_dump(&self) -> (r: (&'static str, Option<u16>, CardCost))
        ensures
            r.0@ == self.spec_info().0,
            r.1 == self.spec_info().1,
            r.2 == self.spec_info().2,
    {
        match self {
            FoodCard::MondstadtHashBrown => ("Mondstadt Hash Brown", None, CardCost::one()),
            FoodCard::JueyunGuoba => ("Jueyun Guoba", Some(500), CardCost::zero()),
            FoodCard::AdeptusTemptation => ("Adeptus' Temptation", Some(500), CardCost::any2()),
            FoodCard::LotusFlowerCrisp => ("Lotus Flower Crisp", Some(500), CardCost::one()),
            FoodCard::NorthernSmokedChicken => ("Northern Smoked Chicken", Some(500), CardCost::zero()),
            FoodCard::SweetMadame => ("Sweet Madame", Some(500), CardCost::zero()),
            FoodCard::MushroomPizza => ("Mushroom Pizza", Some(500), CardCost::one()),
            FoodCard::MintyMeatRolls => ("Minty Meat Rolls", Some(500), CardCost::one()),
        }
    }
}

impl Trait for FoodCard {}

impl PlayingCard for FoodCard {
    open spec fn spec_name(&self) -> Seq<char> {
        self.spec_info().0
    }

    open spec fn spec_cost(&self) -> CardCost {
        self.spec_info().2
    }

    open spec fn spec_shop_price(&self) -> Option<u16> {
        self.spec_info().1
    }

    fn name(&self) -> &'static str {
        self.info_dump().0
    }

    fn cost(&self) -> CardCost {
        self.info_dump().2
    }

    fn shop_price(&self) -> Option<u16> {
        self.info_dump().1
    }
}

/// The declaration index of a `FoodCard` variant: the fixed canonical order
/// in which cards of this category are sorted inside a deck.
pub open spec fn food_index(c: FoodCard) -> int {
    match c {
        FoodCard::MondstadtHashBrown => 0,
        FoodCard::JueyunGuoba => 1,
        FoodCard::AdeptusTemptation => 2,
        FoodCard::LotusFlowerCrisp => 3,
        FoodCard::NorthernSmokedChicken => 4,
        FoodCard::SweetMadame => 5,
        FoodCard::MushroomPizza => 6,
        FoodCard::MintyMeatRolls => 7,
    }
}

pub(crate) fn food_index_exec(c: &FoodCard) -> (r: u16)
    ensures
        r as int == food_index(*c),
        r < 100,
{
    match c {
        FoodCard::MondstadtHashBrown => 0,
        FoodCard::JueyunGuoba => 1,
        FoodCard::AdeptusTemptation => 2,
        FoodCard::LotusFlowerCrisp => 3,
        FoodCard::NorthernSmokedChicken => 4,
        FoodCard::SweetMadame => 5,
        FoodCard::MushroomPizza => 6,
        FoodCard::MintyMeatRolls => 7,
    }
}

/// No two food cards share a declaration index.
pub proof fn lemma_food_index_injective(a: FoodCard, b: FoodCard)
    ensures
        food_index(a) == food_index(b) ==> a == b,
{
}

pub proof fn lemma_food_index_bounds(a: FoodCard)
    ensures
        0 <= food_index(a) < 100,
{
}

/// An event card: a resonance, a normal event, or a food card.
#[derive(Debug, Hash, Clone, Copy, PartialEq, Eq, Structural)]
pub enum EventCard {
    /// Normal types of event cards, with no subtypes
    Normal(NormalEventCard),
    /// Elemental Resonance cards
    Resonance(ElementalResonanceCard),
    /// Food buff cards
    Food(FoodCard),
}

impl EventCard {
    /// The an event this card is, at the contract level.
    pub open spec fn spec_event(self) -> Option<EventCard> {
        Some(self)
    }

    /// Attempts to view `self` as an event card. Returns `None`
    /// if this card is of another type/subtype
    pub fn event(&self) -> (r: Option<EventCard>)
        ensures
            r == self.spec_event(),
    {
        Some(*self)
    }

    /// The a normal event this card is, at the contract level.
    pub open spec fn spec_normal_event(self) -> Option<NormalEventCard> {
        match self {
            EventCard::Normal(card) => Some(card),
            _ => None,
        }
    }

    /// Attempts to view `self` as a normal event card. Returns `None`
    /// if this card is of another type/subtype
    pub fn normal_event(&self) -> (r: Option<NormalEventCard>)
        ensures
            r == self.spec_normal_event(),
    {
        if let EventCard::Normal(card) = self {
            Some(*card)
        } else {
            None
        }
    }

    /// The a resonance this card is, at the contract level.
    pub open spec fn spec_resonance(self) -> Option<ElementalResonanceCard> {
        match self {
            EventCard::Resonance(card) => Some(card),
            _ => None,
        }
    }

    /// Attempts to view `self` as a resonance card. Returns `None`
    /// if this card is of another type/subtype
    pub fn resonance(&self) -> (r: Option<ElementalResonanceCard>)
        ensures
            r == self.spec_resonance(),
    {
        if let EventCard::Resonance(card) = self {
            Some(*card)
        } else {
            None
        }
    }

    /// The a food this card is, at the contract level.
    pub open spec fn spec_food(self) -> Option<FoodCard> {
        match self {
            EventCard::Food(card) => Some(card),
            _ => None,
        }
    }

    /// Attempts to view `self` as a food card. Returns `None`
    /// if this card is of another type/subtype
    pub fn food(&self) -> (r: Option<FoodCard>)
        ensures
            r == self.spec_food(),
    {
        if let EventCard::Food(card) = self {
            Some(*card)
        } else {
            None
        }
    }
}

impl Trait for EventCard {}

impl PlayingCard for EventCard {
    open spec fn spec_name(&self) -> Seq<char> {
        match *self {
            EventCard::Normal(c) => c.spec_name(),
            EventCard::Resonance(c) => c.spec_name(),
            EventCard::Food(c) => c.spec_name(),
        }
    }

    open spec fn spec_cost(&self) -> CardCost {
        match *self {
            EventCard::Normal(c) => c.spec_cost(),
            EventCard::Resonance(c) => c.spec_cost(),
            EventCard::Food(c) => c.spec_cost(),
        }
    }

    open spec fn spec_shop_price(&self) -> Option<u16> {
        match *self {
            EventCard::Normal(c) => c.spec_shop_price(),
            EventCard::Resonance(c) => c.spec_shop_price(),
            EventCard::Food(c) => c.spec_shop_price(),
        }
    }

    fn name(&self) -> &'static str {
        match self {
            EventCard::Normal(card) => card.name(),
            EventCard::Resonance(card) => card.name(),
            EventCard::Food(card) => card.name(),
        }
    }

    fn cost(&self) -> CardCost {
        match self {
            EventCard::Normal(card) => card.cost(),
            EventCard::Resonance(card) => card.cost(),
            EventCard::Food(card) => card.cost(),
        }
    }

    fn shop_price(&self) -> Option<u16> {
        match self {
            EventCard::Normal(card) => card.shop_price(),
            EventCard::Resonance(card) => card.shop_price(),
            EventCard::Food(card) => card.shop_price(),
        }
    }
}

/// The canonical rank of a `EventCard`: sub-categories occupy disjoint
/// bands, and cards within one sub-category order by declaration index.
pub open spec fn event_rank(c: EventCard) -> int {
    match c {
        EventCard::Resonance(c) => resonance_index(c),
        EventCard::Normal(c) => 100 + normal_event_index(c),
        EventCard::Food(c) => 200 + food_index(c),
    }
}

pub(crate) fn event_rank_exec(c: &EventCard) -> (r: u16)
    ensures
        r as int == event_rank(*c),
        r < 300,
{
    match c {
        EventCard::Resonance(c) => resonance_index_exec(c),
        EventCard::Normal(c) => 100 + normal_event_index_exec(c),
        EventCard::Food(c) => 200 + food_index_exec(c),
    }
}

pub proof fn lemma_event_rank_injective(a: EventCard, b: EventCard)
    ensures
        event_rank(a) == event_rank(b) ==> a == b,
{
    match (a, b) {
        (EventCard::Resonance(x), EventCard::Resonance(y)) => lemma_resonance_index_injective(x, y),
        (EventCard::Resonance(x), EventCard::Normal(y)) => {
            lemma_resonance_index_bounds(x);
            lemma_normal_event_index_bounds(y);
        },
        (EventCard::Resonance(x), EventCard::Food(y)) => {
            lemma_resonance_index_bounds(x);
            lemma_food_index_bounds(y);
        },
        (EventCard::Normal(x), EventCard::Resonance(y)) => {
            lemma_normal_event_index_bounds(x);
            lemma_resonance_index_bounds(y);
        },
        (EventCard::Normal(x), EventCard::Normal(y)) => lemma_normal_event_index_injective(x, y),
        (EventCard::Normal(x), EventCard::Food(y)) => {
            lemma_normal_event_index_bounds(x);
            lemma_food_index_bounds(y);
        },
        (EventCard::Food(x), EventCard::Resonance(y)) => {
            lemma_food_index_bounds(x);
            lemma_resonance_index_bounds(y);
        },
        (EventCard::Food(x), EventCard::Normal(y)) => {
            lemma_food_index_bounds(x);
            lemma_normal_event_index_bounds(y);
        },
        (EventCard::Food(x), EventCard::Food(y)) => lemma_food_index_injective(x, y),
    }
}

pub proof fn lemma_event_rank_bounds(a: EventCard)
    ensures
        0 <= event_rank(a) < 300,
{
    match a {
        EventCard::Resonance(x) => lemma_resonance_index_bounds(x),
        EventCard::Normal(x) => lemma_normal_event_index_bounds(x),
        EventCard::Food(x) => lemma_food_index_bounds(x),
    }
}

impl From<NormalEventCard> for EventCard {
    fn from(card: NormalEventCard) -> EventCard {
        EventCard::Normal(card)
    }
}

impl vstd::std_specs::convert::FromSpecImpl<NormalEventCard> for EventCard {
    open spec fn obeys_from_spec() -> bool {
        true
    }

    open spec fn from_spec(card: NormalEventCard) -> EventCard {
        EventCard::Normal(card)
    }
}

impl From<NormalEventCard> for ActionCard {
    fn from(card: NormalEventCard) -> ActionCard {
        ActionCard::Event(EventCard::Normal(card))
    }
}

impl vstd::std_specs::convert::FromSpecImpl<NormalEventCard> for ActionCard {
    open spec fn obeys_from_spec() -> bool {
        true
    }

    open spec fn from_spec(card: NormalEventCard) -> ActionCard {
        ActionCard::Event(EventCard::Normal(card))
    }
}

impl From<NormalEventCard> for Card {
    fn from(card: NormalEventCard) -> Card {
        Card::Action(ActionCard::Event(EventCard::Normal(card)))
    }
}

impl vstd::std_specs::convert::FromSpecImpl<NormalEventCard> for Card {
    open spec fn obeys_from_spec() -> bool {
        true
    }

    open spec fn from_spec(card: NormalEventCard) -> Card {
        Card::Action(ActionCard::Event(EventCard::Normal(card)))
    }
}

impl From<ElementalResonanceCard> for EventCard {
    fn from(card: ElementalResonanceCard) -> EventCard {
        EventCard::Resonance(card)
    }
}

impl vstd::std_specs::convert::FromSpecImpl<ElementalResonanceCard> for EventCard {
    open spec fn obeys_from_spec() -> bool {
        true
    }

    open spec fn from_spec(card: ElementalResonanceCard) -> EventCard {
        EventCard::Resonance(card)
    }
}

impl From<ElementalResonanceCard> for ActionCard {
    fn from(card: ElementalResonanceCard) -> ActionCard {
        ActionCard::Event(EventCard::Resonance(card))
    }
}

impl vstd::std_specs::convert::FromSpecImpl<ElementalResonanceCard> for ActionCard {
    open spec fn obeys_from_spec() -> bool {
        true
    }

    open spec fn from_spec(card: ElementalResonanceCard) -> ActionCard {
        ActionCard::Event(EventCard::Resonance(card))
    }
}

impl From<ElementalResonanceCard> for Card {
    fn from(card: ElementalResonanceCard) -> Card {
        Card::Action(ActionCard::Event(EventCard::Resonance(card)))
    }
}

impl vstd::std_specs::convert::FromSpecImpl<ElementalResonanceCard> for Card {
    open spec fn obeys_from_spec() -> bool {
        true
    }

    open spec fn from_spec(card: ElementalResonanceCard) -> Card {
        Card::Action(ActionCard::Event(EventCard::Resonance(card)))
    }
}

impl From<FoodCard> for EventCard {
    fn from(card: FoodCard) -> EventCard {
        EventCard::Food(card)
    }
}

impl vstd::std_specs::convert::FromSpecImpl<FoodCard> for EventCard {
    open spec fn obeys_from_spec() -> bool {
        true
    }

    open spec fn from_spec(card: FoodCard) -> EventCard {
        EventCard::Food(card)
    }
}

impl From<FoodCard> for ActionCard {
    fn from(card: FoodCard) -> ActionCard {
        ActionCard::Event(EventCard::Food(card))
    }
}

impl vstd::std_specs::convert::FromSpecImpl<FoodCard> for ActionCard {
    open spec fn obeys_from_spec() -> bool {
        true
    }

    open spec fn from_spec(card: FoodCard) -> ActionCard {
        ActionCard::Event(EventCard::Food(card))
    }
}

impl From<FoodCard> for Card {
    fn from(card: FoodCard) -> Card {
        Card::Action(ActionCard::Event(EventCard::Food(card)))
    }
}

impl vstd::std_specs::convert::FromSpecImpl<FoodCard> for Card {
    open spec fn obeys_from_spec() -> bool {
        true
    }

    open spec fn from_spec(card: FoodCard) -> Card {
        Card::Action(ActionCard::Event(EventCard::Food(card)))
    }
}

impl From<EventCard> for ActionCard {
    fn from(card: EventCard) -> ActionCard {
        ActionCard::Event(card)
    }
}

impl vstd::std_specs::convert::FromSpecImpl<EventCard> for ActionCard {
    open spec fn obeys_from_spec() -> bool {
        true
    }

    open spec fn from_spec(card: EventCard) -> ActionCard {
        ActionCard::Event(card)
    }
}

impl From<EventCard> for Card {
    fn from(card: EventCard) -> Card {
        Card::Action(ActionCard::Event(card))
    }
}

impl vstd::std_specs::convert::FromSpecImpl<EventCard> for Card {
    open spec fn obeys_from_spec() -> bool {
        true
    }

    open spec fn from_spec(card: EventCard) -> Card {
        Card::Action(ActionCard::Event(card))
    }
}

} // verus!
