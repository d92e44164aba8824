use vstd::prelude::*;
use crate::cost::{CardCost, DiceCost};
use crate::card_trait::{PlayingCard, Trait};
use crate::action::ActionCard;
use crate::cards::Card;

verus! {

/// A companion support card.
#[derive(Debug, Hash, Clone, Copy, PartialEq, Eq, Structural)]
#[non_exhaustive]
pub enum CompanionCard {
    Paimon,
    Katheryne,
    Timaeus,
    Wagner,
    ChefMao,
    Tubby,
    Timmie,
    Liben,
    Ellin,
    LiuSu,
    ChangTheNinth,
    IronTongueTian,
}

impl CompanionCard {
    /// The catalog row of this companion: name, shop price, and cost.
    pub open spec fn spec_info(self) -> (Seq<char>, Option<u16>, CardCost) {
        match self {
            CompanionCard::Paimon => ("Paimon"@, None, CardCost::match3()),
            CompanionCard::Katheryne => ("Katheryne"@, Some(700), CardCost::any2()),
            CompanionCard::Timaeus => ("Timaeus"@, Some(700), CardCost::match2()),
            CompanionCard::Wagner => ("Wagner"@, Some(700), CardCost::match2()),
            CompanionCard::ChefMao => ("Chef Mao"@, Some(700), CardCost::one()),
            CompanionCard::Tubby => ("Tubby"@, Some(700), CardCost::match2()),
            CompanionCard::Timmie => ("Timmie"@, Some(700), CardCost::zero()),
            CompanionCard::Liben => ("Liben"@, Some(700), CardCost::zero()),
            CompanionCard::Ellin => ("Ellin"@, Some(700), CardCost::match2()),
            CompanionCard::LiuSu => ("Liu Su"@, Some(700), CardCost::one()),
            CompanionCard::ChangTheNinth => ("Chang the Ninth"@, Some(700), CardCost::zero()),
            CompanionCard::IronTongueTian => ("Iron Tongue Tian"@, Some(700), CardCost::any2()),
        }
    }
    fn info_dump(&self) -> (r: (&'static str, Option<u16>, CardCost))
        ensures
            r.0@ == self.spec_info().0,
            r.1 == self.spec_info().1,
            r.2 == self.spec_info().2,
    {
        match self {
            CompanionCard::Paimon => ("Paimon", None, CardCost::match3()),
            CompanionCard::Katheryne => ("Katheryne", Some(700), CardCost::any2()),
            CompanionCard::Timaeus => ("Timaeus", Some(700), CardCost::match2()),
            CompanionCard::Wagner => ("Wagner", Some(700), CardCost::match2()),
            CompanionCard::ChefMao => ("Chef Mao", Some(700), CardCost::one()),
            CompanionCard::Tubby => ("Tubby", Some(700), CardCost::match2()),
            CompanionCard::Timmie => ("Timmie", Some(700), CardCost::zero()),
            CompanionCard::Liben => ("Liben", Some(700), CardCost::zero()),
            CompanionCard::Ellin => ("Ellin", Some(700), CardCost::match2()),
            CompanionCard::LiuSu => ("Liu Su", Some(700), CardCost::one()),
            CompanionCard::ChangTheNinth => ("Chang the Ninth", Some(700), CardCost::zero()),
            CompanionCard::IronTongueTian => ("Iron Tongue Tian", Some(700), CardCost::any2()),
        }
    }
}

impl Trait for CompanionCard {}

impl PlayingCard for CompanionCard {
    open spec fn spec_name(&self) -> Seq<char> {
        self.spec_info().0
    }

    open spec fn spec_cost(&self) -> CardCost {
        self.spec_info().2
    }

    open spec fn spec_shop_price(&self) -> Option<u16> {
        self.spec_info().1
    }

    fn name(&self) -> &'static str {
        self.info_dump().0
    }

    fn cost(&self) -> CardCost {
        self.info_dump().2
    }

    fn shop_price(&self) -> Option<u16> {
        self.info_dump().1
    }
}

/// The declaration index of a `CompanionCard` variant: the fixed canonical order
/// in which cards of this category are sorted inside a deck.
pub open spec fn companion_index(c: CompanionCard) -> int {
    match c {
        CompanionCard::Paimon => 0,
        CompanionCard::Katheryne => 1,
        CompanionCard::Timaeus => 2,
        CompanionCard::Wagner => 3,
        CompanionCard::ChefMao => 4,
        CompanionCard::Tubby => 5,
        CompanionCard::Timmie => 6,
        CompanionCard::Liben => 7,
        CompanionCard::Ellin => 8,
        CompanionCard::LiuSu => 9,
        CompanionCard::ChangTheNinth => 10,
        CompanionCard::IronTongueTian => 11,
    }
}

pub(crate) fn companion_index_exec(c: &CompanionCard) -> (r: u16)
    ensures
        r as int == companion_index(*c),
        r < 100,
{
    match c {
        CompanionCard::Paimon => 0,
        CompanionCard::Katheryne => 1,
        CompanionCard::Timaeus => 2,
        CompanionCard::Wagner => 3,
        CompanionCard::ChefMao => 4,
        CompanionCard::Tubby => 5,
        CompanionCard::Timmie => 6,
        CompanionCard::Liben => 7,
        CompanionCard::Ellin => 8,
        CompanionCard::LiuSu => 9,
        CompanionCard::ChangTheNinth => 10,
        CompanionCard::IronTongueTian => 11,
    }
}

/// No two companion cards share a declaration index.
pub proof fn lemma_companion_index_injective(a: CompanionCard, b: CompanionCard)
    ensures
        companion_index(a) == companion_index(b) ==> a == b,
{
}

pub proof fn lemma_companion_index_bounds(a: CompanionCard)
    ensures
        0 <= companion_index(a) < 100,
{
}

/// A location support card.
#[derive(Debug, Hash, Clone, Copy, PartialEq, Eq, Structural)]
#[non_exhaustive]
pub enum LocationCard {
    DawnWinery,
    FavoniusCathedral,
    KnightsOfFavoniusLibrary,
    JadeChamber,
    LiyueHarborWharf,
    WangshuInn,
}

impl LocationCard {
    /// The catalog row of this location: name and cost.
    pub open spec fn spec_info(self) -> (Seq<char>, CardCost) {
        match self {
            LocationCard::DawnWinery => ("Dawn Winery"@, CardCost::match2()),
            LocationCard::FavoniusCathedral => ("Favonius Cathedral"@, CardCost::match2()),
            LocationCard::KnightsOfFavoniusLibrary => ("Knights of Favonius Library"@, CardCost::one()),
            LocationCard::JadeChamber => ("Jade Chamber"@, CardCost::one()),
            LocationCard::LiyueHarborWharf => ("Liyue Harbor Wharf"@, CardCost::match2()),
            LocationCard::WangshuInn => ("Wangshu Inn"@, CardCost::match2()),
        }
    }
    fn info_dump(&self) -> (r: (&'static str, CardCost))
        ensures
            r.0@ == self.spec_info().0,
            r.1 == self.spec_info().1,
    {
        match self {
            LocationCard::DawnWinery => ("Dawn Winery", CardCost::match2()),
            LocationCard::FavoniusCathedral => ("Favonius Cathedral", CardCost::match2()),
            LocationCard::KnightsOfFavoniusLibrary => ("Knights of Favonius Library", CardCost::one()),
            LocationCard::JadeChamber => ("Jade Chamber", CardCost::one()),
            LocationCard::LiyueHarborWharf => ("Liyue Harbor Wharf", CardCost::match2()),
            LocationCard::WangshuInn => ("Wangshu Inn", CardCost::match2()),
        }
    }
}

impl Trait for LocationCard {}

impl PlayingCard for LocationCard {
    open spec fn spec_name(&self) -> Seq<char> {
        self.spec_info().0
    }

    open spec fn spec_cost(&self) -> CardCost {
        self.spec_info().1
    }

    open spec fn spec_shop_price(&self) -> Option<u16> {
        Some(700u16)
    }

    fn name(&self) -> &'static str {
        self.info_dump().0
    }

    fn cost(&self) -> CardCost {
        self.info_dump().1
    }

    fn shop_price(&self) -> Option<u16> {
        Some(700)
    }
}

/// The declaration index of a `LocationCard` variant: the fixed canonical order
/// in which cards of this category are sorted inside a deck.
pub open spec fn location_index(c: LocationCard) -> int {
    match c {
        LocationCard::DawnWinery => 0,
        LocationCard::FavoniusCathedral => 1,
        LocationCard::KnightsOfFavoniusLibrary => 2,
        LocationCard::JadeChamber => 3,
        LocationCard::LiyueHarborWharf => 4,
        LocationCard::WangshuInn => 5,
    }
}

pub(crate) fn location_index_exec(c: &LocationCard) -> (r: u16)
    ensures
        r as int == location_index(*c),
        r < 100,
{
    match c {
        LocationCard::DawnWinery => 0,
        LocationCard::FavoniusCathedral => 1,
        LocationCard::KnightsOfFavoniusLibrary => 2,
        LocationCard::JadeChamber => 3,
        LocationCard::LiyueHarborWharf => 4,
        LocationCard::WangshuInn => 5,
    }
}

/// No two location cards share a declaration index.
pub proof fn lemma_location_index_injective(a: LocationCard, b: LocationCard)
    ensures
        location_index(a) == location_index(b) ==> a == b,
{
}

pub proof fn lemma_location_index_bounds(a: LocationCard)
    ensures
        0 <= location_index(a) < 100,
{
}

/// An item support card.
#[derive(Debug, Hash, Clone, Copy, PartialEq, Eq, Structural)]
#[non_exhaustive]
pub enum ItemCard {
    ParametricTransformer,
    NRE,
}

impl ItemCard {
    /// The catalog row of this item: name, shop price, and cost.
    pub open spec fn spec_info(self) -> (Seq<char>, u16, CardCost) {
        match self {
            ItemCard::ParametricTransformer => ("Parametric Transformer"@, 700, CardCost::any2()),
            ItemCard::NRE => ("NRE"@, 700, CardCost::any2()),
        }
    }
    fn info_dump(&self) -> (r: (&'static str, u16, CardCost))
        ensures
            r.0@ == self.spec_info().0,
            r.1 == self.spec_info().1,
            r.2 == self.spec_info().2,
    {
        match self {
            ItemCard::ParametricTransformer => ("Parametric Transformer", 700, CardCost::any2()),
            ItemCard::NRE => ("NRE", 700, CardCost::any2()),
        }
    }
}

impl Trait for ItemCard {}

impl PlayingCard for ItemCard {
    open spec fn spec_name(&self) -> Seq<char> {
        self.spec_info().0
    }

    open spec fn spec_cost(&self) -> CardCost {
        self.spec_info().2
    }

    open spec fn spec_shop_price(&self) -> Option<u16> {
        Some(self.spec_info().1)
    }

    fn name(&self) -> &'static str {
        self.info_dump().0
    }

    fn cost(&self) -> CardCost {
        self.info_dump().2
    }

    fn shop_price(&self) -> Option<u16> {
        Some(self.info_dump().1)
    }
}

/// The declaration index of a `ItemCard` variant: the fixed canonical order
/// in which cards of this category are sorted inside a deck.
pub open spec fn item_index(c: ItemCard) -> int {
    match c {
        ItemCard::ParametricTransformer => 0,
        ItemCard::NRE => 1,
    }
}

pub(crate) fn item_index_exec(c: &ItemCard) -> (r: u16)
    ensures
        r as int == item_index(*c),
        r < 100,
{
    match c {
        ItemCard::ParametricTransformer => 0,
        ItemCard::NRE => 1,
    }
}

/// No two item cards share a declaration index.
pub proof fn lemma_item_index_injective(a: ItemCard, b: ItemCard)
    ensures
        item_index(a) == item_index(b) ==> a == b,
{
}

pub proof fn lemma_item_index_bounds(a: ItemCard)
    ensures
        0 <= item_index(a) < 100,
{
}

/// A support card: a companion, a location, or an item.
#[derive(Debug, Hash, Clone, Copy, PartialEq, Eq, Structural)]
pub enum SupportCard {
    Companion(CompanionCard),
    Location(LocationCard),
    Item(ItemCard),
}

impl SupportCard {
    /// The a support this card is, at the contract level.
    pub open spec fn spec_support(self) -> Option<SupportCard> {
        Some(self)
    }

    /// Attempts to view `self` as a support card. Returns `None`
    /// if this card is of another type/subtype
    pub fn support(&self) -> (r: Option<SupportCard>)
        ensures
            r == self.spec_support(),
    {
        Some(*self)
    }

    /// The a companion this card is, at the contract level.
    pub open spec fn spec_companion(self) -> Option<CompanionCard> {
        match self {
            SupportCard::Companion(card) => Some(card),
            _ => None,
        }
    }

    /// Attempts to view `self` as a companion card. Returns `None`
    /// if this card is of another type/subtype
    pub fn companion(&self) -> (r: Option<CompanionCard>)
        ensures
            r == self.spec_companion(),
    {
        if let SupportCard::Companion(card) = self {
            Some(*card)
        } else {
            None
        }
    }

    /// The a location this card is, at the contract level.
    pub open spec fn spec_location(self) -> Option<LocationCard> {
        match self {
            SupportCard::Location(card) => Some(card),
            _ => None,
        }
    }

    /// Attempts to view `self` as a location card. Returns `None`
    /// if this card is of another type/subtype
    pub fn location(&self) -> (r: Option<LocationCard>)
        ensures
            r == self.spec_location(),
    {
        if let SupportCard::Location(card) = self {
            Some(*card)
        } else {
            None
        }
    }

    /// The an item this card is, at the contract level.
    pub open spec fn spec_item(self) -> Option<ItemCard> {
        match self {
            SupportCard::Item(card) => Some(card),
            _ => None,
        }
    }

    /// Attempts to view `self` as an item card. Returns `None`
    /// if this card is of another type/subtype
    pub fn item(&self) -> (r: Option<ItemCard>)
        ensures
            r == self.spec_item(),
    {
        if let SupportCard::Item(card) = self {
            Some(*card)
        } else {
            None
        }
    }
}

impl Trait for SupportCard {}

impl PlayingCard for SupportCard {
    open spec fn spec_name(&self) -> Seq<char> {
        match *self {
            SupportCard::Companion(c) => c.spec_name(),
            SupportCard::Location(c) => c.spec_name(),
            SupportCard::Item(c) => c.spec_name(),
        }
    }

    open spec fn spec_cost(&self) -> CardCost {
        match *self {
            SupportCard::Companion(c) => c.spec_cost(),
            SupportCard::Location(c) => c.spec_cost(),
            SupportCard::Item(c) => c.spec_cost(),
        }
    }

    open spec fn spec_shop_price(&self) -> Option<u16> {
        match *self {
            SupportCard::Companion(c) => c.spec_shop_price(),
            SupportCard::Location(c) => c.spec_shop_price(),
            SupportCard::Item(c) => c.spec_shop_price(),
        }
    }

    fn name(&self) -> &'static str {
        match self {
            SupportCard::Companion(card) => card.name(),
            SupportCard::Location(card) => card.name(),
            SupportCard::Item(card) => card.name(),
        }
    }

    fn cost(&self) -> CardCost {
        match self {
            SupportCard::Companion(card) => card.cost(),
            SupportCard::Location(card) => card.cost(),
            SupportCard::Item(card) => card.cost(),
        }
    }

    fn shop_price(&self) -> Option<u16> {
        match self {
            SupportCard::Companion(card) => card.shop_price(),
            SupportCard::Location(card) => card.shop_price(),
            SupportCard::Item(card) => card.shop_price(),
        }
    }
}

/// The canonical rank of a `SupportCard`: sub-categories occupy disjoint
/// bands, and cards within one sub-category order by declaration index.
pub open spec fn support_rank(c: SupportCard) -> int {
    match c {
        SupportCard::Location(c) => location_index(c),
        SupportCard::Companion(c) => 100 + companion_index(c),
        SupportCard::Item(c) => 200 + item_index(c),
    }
}

pub(crate) fn support_rank_exec(c: &SupportCard) -> (r: u16)
    ensures
        r as int == support_rank(*c),
        r < 300,
{
    match c {
        SupportCard::Location(c) => location_index_exec(c),
        SupportCard::Companion(c) => 100 + companion_index_exec(c),
        SupportCard::Item(c) => 200 + item_index_exec(c),
    }
}

pub proof fn lemma_support_rank_injective(a: SupportCard, b: SupportCard)
    ensures
        support_rank(a) == support_rank(b) ==> a == b,
{
    match (a, b) {
        (SupportCard::Location(x), SupportCard::Location(y)) => lemma_location_index_injective(x, y),
        (SupportCard::Location(x), SupportCard::Companion(y)) => {
            lemma_location_index_bounds(x);
            lemma_companion_index_bounds(y);
        },
        (SupportCard::Location(x), SupportCard::Item(y)) => {
            lemma_location_index_bounds(x);
            lemma_item_index_bounds(y);
        },
        (SupportCard::Companion(x), SupportCard::Location(y)) => {
            lemma_companion_index_bounds(x);
            lemma_location_index_bounds(y);
        },
        (SupportCard::Companion(x), SupportCard::Companion(y)) => lemma_companion_index_injective(x, y),
        (SupportCard::Companion(x), SupportCard::Item(y)) => {
            lemma_companion_index_bounds(x);
            lemma_item_index_bounds(y);
        },
        (SupportCard::Item(x), SupportCard::Location(y)) => {
            lemma_item_index_bounds(x);
            lemma_location_index_bounds(y);
        },
        (SupportCard::Item(x), SupportCard::Companion(y)) => {
            lemma_item_index_bounds(x);
            lemma_companion_index_bounds(y);
        },
        (SupportCard::Item(x), SupportCard::Item(y)) => lemma_item_index_injective(x, y),
    }
}

pub proof fn lemma_support_rank_bounds(a: SupportCard)
    ensures
        0 <= support_rank(a) < 300,
{
    match a {
        SupportCard::Location(x) => lemma_location_index_bounds(x),
        SupportCard::Companion(x) => lemma_companion_index_bounds(x),
        SupportCard::Item(x) => lemma_item_index_bounds(x),
    }
}

impl From<CompanionCard> for SupportCard {
    fn from(card: CompanionCard) -> SupportCard {
        SupportCard::Companion(card)
    }
}

impl vstd::std_specs::convert::FromSpecImpl<CompanionCard> for SupportCard {
    open spec fn obeys_from_spec() -> bool {
        true
    }

    open spec fn from_spec(card: CompanionCard) -> SupportCard {
        SupportCard::Companion(card)
    }
}

impl From<CompanionCard> for ActionCard {
    fn from(card: CompanionCard) -> ActionCard {
        ActionCard::Support(SupportCard::Companion(card))
    }
}

impl vstd::std_specs::convert::FromSpecImpl<CompanionCard> for ActionCard {
    open spec fn obeys_from_spec() -> bool {
        true
    }

    open spec fn from_spec(card: CompanionCard) -> ActionCard {
        ActionCard::Support(SupportCard::Companion(card))
    }
}

impl From<CompanionCard> for Card {
    fn from(card: CompanionCard) -> Card {
        Card::Action(ActionCard::Support(SupportCard::Companion(card)))
    }
}

impl vstd::std_specs::convert::FromSpecImpl<CompanionCard> for Card {
    open spec fn obeys_from_spec() -> bool {
        true
    }

    open spec fn from_spec(card: CompanionCard) -> Card {
        Card::Action(ActionCard::Support(SupportCard::Companion(card)))
    }
}

impl From<LocationCard> for SupportCard {
    fn from(card: LocationCard) -> SupportCard {
        SupportCard::Location(card)
    }
}

impl vstd::std_specs::convert::FromSpecImpl<LocationCard> for SupportCard {
    open spec fn obeys_from_spec() -> bool {
        true
    }

    open spec fn from_spec(card: LocationCard) -> SupportCard {
        SupportCard::Location(card)
    }
}

impl From<LocationCard> for ActionCard {
    fn from(card: LocationCard) -> ActionCard {
        ActionCard::Support(SupportCard::Location(card))
    }
}

impl vstd::std_specs::convert::FromSpecImpl<LocationCard> for ActionCard {
    open spec fn obeys_from_spec() -> bool {
        true
    }

    open spec fn from_spec(card: LocationCard) -> ActionCard {
        ActionCard::Support(SupportCard::Location(card))
    }
}

impl From<LocationCard> for Card {
    fn from(card: LocationCard) -> Card {
        Card::Action(ActionCard::Support(SupportCard::Location(card)))
    }
}

impl vstd::std_specs::convert::FromSpecImpl<LocationCard> for Card {
    open spec fn obeys_from_spec() -> bool {
        true
    }

    open spec fn from_spec(card: LocationCard) -> Card {
        Card::Action(ActionCard::Support(SupportCard::Location(card)))
    }
}

impl From<ItemCard> for SupportCard {
    fn from(card: ItemCard) -> SupportCard {
        SupportCard::Item(card)
    }
}

impl vstd::std_specs::convert::FromSpecImpl<ItemCard> for SupportCard {
    open spec fn obeys_from_spec() -> bool {
        true
    }

    open spec fn from_spec(card: ItemCard) -> SupportCard {
        SupportCard::Item(card)
    }
}

impl From<ItemCard> for ActionCard {
    fn from(card: ItemCard) -> ActionCard {
        ActionCard::Support(SupportCard::Item(card))
    }
}

impl vstd::std_specs::convert::FromSpecImpl<ItemCard> for ActionCard {
    open spec fn obeys_from_spec() -> bool {
        true
    }

    open spec fn from_spec(card: ItemCard) -> ActionCard {
        ActionCard::Support(SupportCard::Item(card))
    }
}

impl From<ItemCard> for Card {
    fn from(card: ItemCard) -> Card {
        Card::Action(ActionCard::Support(SupportCard::Item(card)))
    }
}

impl vstd::std_specs::convert::FromSpecImpl<ItemCard> for Card {
    open spec fn obeys_from_spec() -> bool {
        true
    }

    open spec fn from_spec(card: ItemCard) -> Card {
        Card::Action(ActionCard::Support(SupportCard::Item(card)))
    }
}

impl From<SupportCard> for ActionCard {
    fn from(card: SupportCard) -> ActionCard {
        ActionCard::Support(card)
    }
}

impl vstd::std_specs::convert::FromSpecImpl<SupportCard> for ActionCard {
    open spec fn obeys_from_spec() -> bool {
        true
    }

    open spec fn from_spec(card: SupportCard) -> ActionCard {
        ActionCard::Support(card)
    }
}

impl From<SupportCard> for Card {
    fn from(card: SupportCard) -> Card {
        Card::Action(ActionCard::Support(card))
    }
}

impl vstd::std_specs::convert::FromSpecImpl<SupportCard> for Card {
    open spec fn obeys_from_spec() -> bool {
        true
    }

    open spec fn from_spec(card: SupportCard) -> Card {
        Card::Action(ActionCard::Support(card))
    }
}

} // verus!
