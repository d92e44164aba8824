use vstd::prelude::*;
use crate::element::Element;
use crate::weapon_type::WeaponType;
use crate::cost::{CardCost, DiceCost};
use crate::character::CharacterCard;
use crate::card_trait::{PlayingCard, Trait};
use crate::action::ActionCard;
use crate::cards::Card;

verus! {

/// A talent card, bound to exactly one specific character.
#[derive(Debug, Hash, Clone, Copy, PartialEq, Eq, Structural)]
#[non_exhaustive]
pub enum TalentCard {
    KantenSenmyouBlessing,
    SteadyBreathing,
    ShakenNotPurred,
    UndividedHeart,
    ColdBloodedStrike,
    GloriousSeason,
    ProphecyOfSubmersion,
    TheScentRemained,
    FeatherfallJudgment,
    StellarPredator,
    ThunderingPenance,
    Awakening,
    StrategicReserve,
    IGotYourBack,
    FloralSidewinder,
    LandsOfDandelion,
    ChaoticEntropy,
    GrandExpectation,
    FlowingFlame,
    Crossfire,
    NaganoharaMeteorSwarm,
    MirrorCage,
    StreamingSurge,
    StonehideReforged,
    ProliferatingSpores,
    TranscendentAutomaton,
    PaidInFull,
}

impl TalentCard {
    /// The catalog row of this talent: name, cost, and required character.
    pub open spec fn spec_info(self) -> (Seq<char>, CardCost, CharacterCard) {
        match self {
            TalentCard::KantenSenmyouBlessing => ("Kanten Senmyou Blessing"@, CardCost::new(DiceCost::Exact(Element::Cryo), 2, 0), CharacterCard::KamisatoAyaka),
            TalentCard::SteadyBreathing => ("Steady Breathing"@, CardCost::new(DiceCost::Exact(Element::Cryo), 4, 0), CharacterCard::Chongyun),
            TalentCard::ShakenNotPurred => ("Shaken, Not Purred"@, CardCost::new(DiceCost::Exact(Element::Cryo), 4, 0), CharacterCard::Diona),
            TalentCard::UndividedHeart => ("Undivided Heart"@, CardCost::new(DiceCost::Exact(Element::Cryo), 5, 0), CharacterCard::Ganyu),
            TalentCard::ColdBloodedStrike => ("Cold-Blooded Strike"@, CardCost::new(DiceCost::Exact(Element::Cryo), 4, 0), CharacterCard::Kaeya),
            TalentCard::GloriousSeason => ("Glorious Season"@, CardCost::new(DiceCost::Exact(Element::Hydro), 4, 0), CharacterCard::Barbara),
            TalentCard::ProphecyOfSubmersion => ("Prophecy of Submersion"@, CardCost::new(DiceCost::Exact(Element::Hydro), 3, 3), CharacterCard::Mona),
            TalentCard::TheScentRemained => ("The Scent Remained"@, CardCost::new(DiceCost::Exact(Element::Hydro), 4, 0), CharacterCard::Xingqiu),
            TalentCard::FeatherfallJudgment => ("Featherfall Judgment"@, CardCost::new(DiceCost::Exact(Element::Electro), 3, 0), CharacterCard::Cyno),
            TalentCard::StellarPredator => ("Stellar Predator"@, CardCost::new(DiceCost::Exact(Element::Electro), 3, 0), CharacterCard::Fischl),
            TalentCard::ThunderingPenance => ("Thundering Penance"@, CardCost::new(DiceCost::Exact(Element::Electro), 3, 0), CharacterCard::Keqing),
            TalentCard::Awakening => ("Awakening"@, CardCost::new(DiceCost::Exact(Element::Electro), 4, 0), CharacterCard::Razor),
            TalentCard::StrategicReserve => ("Strategic Reserve"@, CardCost::new(DiceCost::Exact(Element::Geo), 4, 0), CharacterCard::Ningguang),
            TalentCard::IGotYourBack => ("I Got Your Back"@, CardCost::new(DiceCost::Exact(Element::Geo), 3, 0), CharacterCard::Noelle),
            TalentCard::FloralSidewinder => ("Floral Sidewinder"@, CardCost::new(DiceCost::Exact(Element::Dendro), 3, 0), CharacterCard::Collei),
            TalentCard::LandsOfDandelion => ("Lands of Dandelion"@, CardCost::new(DiceCost::Exact(Element::Anemo), 4, 3), CharacterCard::Jean),
            TalentCard::ChaoticEntropy => ("Chaotic Entropy"@, CardCost::new(DiceCost::Exact(Element::Anemo), 3, 2), CharacterCard::Sucrose),
            TalentCard::GrandExpectation => ("Grand Expectation"@, CardCost::new(DiceCost::Exact(Element::Pyro), 4, 2), CharacterCard::Bennett),
            TalentCard::FlowingFlame => ("Flowing Flame"@, CardCost::new(DiceCost::Exact(Element::Pyro), 3, 0), CharacterCard::Diluc),
            TalentCard::Crossfire => ("Crossfire"@, CardCost::new(DiceCost::Exact(Element::Pyro), 4, 0), CharacterCard::Xiangling),
            TalentCard::NaganoharaMeteorSwarm => ("Naganohara Meteor Swarm"@, CardCost::new(DiceCost::Exact(Element::Pyro), 2, 0), CharacterCard::Yoimiya),
            TalentCard::MirrorCage => ("Mirror Cage"@, CardCost::new(DiceCost::Exact(Element::Hydro), 4, 0), CharacterCard::MirrorMaiden),
            TalentCard::StreamingSurge => ("Streaming Surge"@, CardCost::new(DiceCost::Exact(Element::Hydro), 4, 3), CharacterCard::RhodeiaOfLoch),
            TalentCard::StonehideReforged => ("Stonehide Reforged"@, CardCost::new(DiceCost::Exact(Element::Geo), 4, 2), CharacterCard::StonehideLawachurl),
            TalentCard::ProliferatingSpores => ("Proliferating Spores"@, CardCost::new(DiceCost::Exact(Element::Dendro), 3, 0), CharacterCard::JadeplumeTerrorshroom),
            TalentCard::TranscendentAutomaton => ("Transcendent Automaton"@, CardCost::new(DiceCost::Exact(Element::Anemo), 3, 0), CharacterCard::MaguuKenki),
            TalentCard::PaidInFull => ("Paid in Full"@, CardCost::new(DiceCost::Exact(Element::Pyro), 3, 0), CharacterCard::FatuiPyroAgent),
        }
    }

    /// The character this talent is attached to, at the contract level.
    pub open spec fn spec_character(self) -> CharacterCard {
        self.spec_info().2
    }

    /// Retrieves the character card this talent is attached to
    pub fn character(&self) -> (r: CharacterCard)
        ensures
            r == self.spec_character(),
    {
        self.info_dump().2
    }

    fn info_dump(&self) -> (r: (&'static str, CardCost, CharacterCard))
        ensures
            r.0@ == self.spec_info().0,
            r.1 == self.spec_info().1,
            r.2 == self.spec_info().2,
    {
        match self {
            TalentCard::KantenSenmyouBlessing => ("Kanten Senmyou Blessing", CardCost::new(DiceCost::Exact(Element::Cryo), 2, 0), CharacterCard::KamisatoAyaka),
            TalentCard::SteadyBreathing => ("Steady Breathing", CardCost::new(DiceCost::Exact(Element::Cryo), 4, 0), CharacterCard::Chongyun),
            TalentCard::ShakenNotPurred => ("Shaken, Not Purred", CardCost::new(DiceCost::Exact(Element::Cryo), 4, 0), CharacterCard::Diona),
            TalentCard::UndividedHeart => ("Undivided Heart", CardCost::new(DiceCost::Exact(Element::Cryo), 5, 0), CharacterCard::Ganyu),
            TalentCard::ColdBloodedStrike => ("Cold-Blooded Strike", CardCost::new(DiceCost::Exact(Element::Cryo), 4, 0), CharacterCard::Kaeya),
            TalentCard::GloriousSeason => ("Glorious Season", CardCost::new(DiceCost::Exact(Element::Hydro), 4, 0), CharacterCard::Barbara),
            TalentCard::ProphecyOfSubmersion => ("Prophecy of Submersion", CardCost::new(DiceCost::Exact(Element::Hydro), 3, 3), CharacterCard::Mona),
            TalentCard::TheScentRemained => ("The Scent Remained", CardCost::new(DiceCost::Exact(Element::Hydro), 4, 0), CharacterCard::Xingqiu),
            TalentCard::FeatherfallJudgment => ("Featherfall Judgment", CardCost::new(DiceCost::Exact(Element::Electro), 3, 0), CharacterCard::Cyno),
            TalentCard::StellarPredator => ("Stellar Predator", CardCost::new(DiceCost::Exact(Element::Electro), 3, 0), CharacterCard::Fischl),
            TalentCard::ThunderingPenance => ("Thundering Penance", CardCost::new(DiceCost::Exact(Element::Electro), 3, 0), CharacterCard::Keqing),
            TalentCard::Awakening => ("Awakening", CardCost::new(DiceCost::Exact(Element::Electro), 4, 0), CharacterCard::Razor),
            TalentCard::StrategicReserve => ("Strategic Reserve", CardCost::new(DiceCost::Exact(Element::Geo), 4, 0), CharacterCard::Ningguang),
            TalentCard::IGotYourBack => ("I Got Your Back", CardCost::new(DiceCost::Exact(Element::Geo), 3, 0), CharacterCard::Noelle),
            TalentCard::FloralSidewinder => ("Floral Sidewinder", CardCost::new(DiceCost::Exact(Element::Dendro), 3, 0), CharacterCard::Collei),
            TalentCard::LandsOfDandelion => ("Lands of Dandelion", CardCost::new(DiceCost::Exact(Element::Anemo), 4, 3), CharacterCard::Jean),
            TalentCard::ChaoticEntropy => ("Chaotic Entropy", CardCost::new(DiceCost::Exact(Element::Anemo), 3, 2), CharacterCard::Sucrose),
            TalentCard::GrandExpectation => ("Grand Expectation", CardCost::new(DiceCost::Exact(Element::Pyro), 4, 2), CharacterCard::Bennett),
            TalentCard::FlowingFlame => ("Flowing Flame", CardCost::new(DiceCost::Exact(Element::Pyro), 3, 0), CharacterCard::Diluc),
            TalentCard::Crossfire => ("Crossfire", CardCost::new(DiceCost::Exact(Element::Pyro), 4, 0), CharacterCard::Xiangling),
            TalentCard::NaganoharaMeteorSwarm => ("Naganohara Meteor Swarm", CardCost::new(DiceCost::Exact(Element::Pyro), 2, 0), CharacterCard::Yoimiya),
            TalentCard::MirrorCage => ("Mirror Cage", CardCost::new(DiceCost::Exact(Element::Hydro), 4, 0), CharacterCard::MirrorMaiden),
            TalentCard::StreamingSurge => ("Streaming Surge", CardCost::new(DiceCost::Exact(Element::Hydro), 4, 3), CharacterCard::RhodeiaOfLoch),
            TalentCard::StonehideReforged => ("Stonehide Reforged", CardCost::new(DiceCost::Exact(Element::Geo), 4, 2), CharacterCard::StonehideLawachurl),
            TalentCard::ProliferatingSpores => ("Proliferating Spores", CardCost::new(DiceCost::Exact(Element::Dendro), 3, 0), CharacterCard::JadeplumeTerrorshroom),
            TalentCard::TranscendentAutomaton => ("Transcendent Automaton", CardCost::new(DiceCost::Exact(Element::Anemo), 3, 0), CharacterCard::MaguuKenki),
            TalentCard::PaidInFull => ("Paid in Full", CardCost::new(DiceCost::Exact(Element::Pyro), 3, 0), CharacterCard::FatuiPyroAgent),
        }
    }
}

impl Trait for TalentCard {}

impl PlayingCard for TalentCard {
    open spec fn spec_name(&self) -> Seq<char> {
        self.spec_info().0
    }

    open spec fn spec_cost(&self) -> CardCost {
        self.spec_info().1
    }

    open spec fn spec_shop_price(&self) -> Option<u16> {
        None
    }

    fn name(&self) -> &'static str {
        self.info_dump().0
    }

    fn cost(&self) -> CardCost {
        self.info_dump().1
    }

    fn shop_price(&self) -> Option<u16> {
        None
    }
}

/// The declaration index of a `TalentCard` variant: the fixed canonical order
/// in which cards of this category are sorted inside a deck.
pub open spec fn talent_index(c: TalentCard) -> int {
    match c {
        TalentCard::KantenSenmyouBlessing => 0,
        TalentCard::SteadyBreathing => 1,
        TalentCard::ShakenNotPurred => 2,
        TalentCard::UndividedHeart => 3,
        TalentCard::ColdBloodedStrike => 4,
        TalentCard::GloriousSeason => 5,
        TalentCard::ProphecyOfSubmersion => 6,
        TalentCard::TheScentRemained => 7,
        TalentCard::FeatherfallJudgment => 8,
        TalentCard::StellarPredator => 9,
        TalentCard::ThunderingPenance => 10,
        TalentCard::Awakening => 11,
        TalentCard::StrategicReserve => 12,
        TalentCard::IGotYourBack => 13,
        TalentCard::FloralSidewinder => 14,
        TalentCard::LandsOfDandelion => 15,
        TalentCard::ChaoticEntropy => 16,
        TalentCard::GrandExpectation => 17,
        TalentCard::FlowingFlame => 18,
        TalentCard::Crossfire => 19,
        TalentCard::NaganoharaMeteorSwarm => 20,
        TalentCard::MirrorCage => 21,
        TalentCard::StreamingSurge => 22,
        TalentCard::StonehideReforged => 23,
        TalentCard::ProliferatingSpores => 24,
        TalentCard::TranscendentAutomaton => 25,
        TalentCard::PaidInFull => 26,
    }
}

pub(crate) fn talent_index_exec(c: &TalentCard) -> (r: u16)
    ensures
        r as int == talent_index(*c),
        r < 100,
{
    match c {
        TalentCard::KantenSenmyouBlessing => 0,
        TalentCard::SteadyBreathing => 1,
        TalentCard::ShakenNotPurred => 2,
        TalentCard::UndividedHeart => 3,
        TalentCard::ColdBloodedStrike => 4,
        TalentCard::GloriousSeason => 5,
        TalentCard::ProphecyOfSubmersion => 6,
        TalentCard::TheScentRemained => 7,
        TalentCard::FeatherfallJudgment => 8,
        TalentCard::StellarPredator => 9,
        TalentCard::ThunderingPenance => 10,
        TalentCard::Awakening => 11,
        TalentCard::StrategicReserve => 12,
        TalentCard::IGotYourBack => 13,
        TalentCard::FloralSidewinder => 14,
        TalentCard::LandsOfDandelion => 15,
        TalentCard::ChaoticEntropy => 16,
        TalentCard::GrandExpectation => 17,
        TalentCard::FlowingFlame => 18,
        TalentCard::Crossfire => 19,
        TalentCard::NaganoharaMeteorSwarm => 20,
        TalentCard::MirrorCage => 21,
        TalentCard::StreamingSurge => 22,
        TalentCard::StonehideReforged => 23,
        TalentCard::ProliferatingSpores => 24,
        TalentCard::TranscendentAutomaton => 25,
        TalentCard::PaidInFull => 26,
    }
}

/// No two talent cards share a declaration index.
pub proof fn lemma_talent_index_injective(a: TalentCard, b: TalentCard)
    ensures
        talent_index(a) == talent_index(b) ==> a == b,
{
}

pub proof fn lemma_talent_index_bounds(a: TalentCard)
    ensures
        0 <= talent_index(a) < 100,
{
}

/// A weapon card, equippable by characters of its weapon class.
#[derive(Debug, Hash, Clone, Copy, PartialEq, Eq, Structural)]
#[non_exhaustive]
pub enum WeaponCard {
    MagicGuide,
    SacrificialFragments,
    SkywardAtlas,
    RavenBow,
    SacrificialBow,
    SkywardHarp,
    WhiteIronGreatsword,
    SacrificialGreatsword,
    WolfsGravestone,
    WhiteTassel,
    LithicSpear,
    SkywardSpine,
    TravelersHandySword,
    SacrificialSword,
    AquilaFavonia,
}

impl WeaponCard {
    /// The catalog row of this weapon: name, shop price, cost, and weapon class.
    pub open spec fn spec_info(self) -> (Seq<char>, u16, CardCost, WeaponType) {
        match self {
            WeaponCard::MagicGuide => ("Magic Guide"@, 500, CardCost::match2(), WeaponType::Catalyst),
            WeaponCard::SacrificialFragments => ("Sacrificial Fragments"@, 700, CardCost::match3(), WeaponType::Catalyst),
            WeaponCard::SkywardAtlas => ("Skyward Atlas"@, 1000, CardCost::match3(), WeaponType::Catalyst),
            WeaponCard::RavenBow => ("Raven Bow"@, 500, CardCost::match2(), WeaponType::Bow),
            WeaponCard::SacrificialBow => ("Sacrificial Bow"@, 700, CardCost::match3(), WeaponType::Bow),
            WeaponCard::SkywardHarp => ("Skyward Harp"@, 1000, CardCost::match3(), WeaponType::Bow),
            WeaponCard::WhiteIronGreatsword => ("White Iron Greatsword"@, 500, CardCost::match2(), WeaponType::Claymore),
            WeaponCard::SacrificialGreatsword => ("Sacrificial Greatsword"@, 700, CardCost::match3(), WeaponType::Claymore),
            WeaponCard::WolfsGravestone => ("Wolf's Gravestone"@, 1000, CardCost::match3(), WeaponType::Claymore),
            WeaponCard::WhiteTassel => ("White Tassel"@, 500, CardCost::match2(), WeaponType::Polearm),
            WeaponCard::LithicSpear => ("Lithic Spear"@, 700, CardCost::match3(), WeaponType::Polearm),
            WeaponCard::SkywardSpine => ("Skyward Spine"@, 1000, CardCost::match3(), WeaponType::Polearm),
            WeaponCard::TravelersHandySword => ("Traveler's Handy Sword"@, 500, CardCost::match2(), WeaponType::Sword),
            WeaponCard::SacrificialSword => ("Sacrificial Sword"@, 700, CardCost::match3(), WeaponType::Sword),
            WeaponCard::AquilaFavonia => ("Aquila Favonia"@, 1000, CardCost::match3(), WeaponType::Sword),
        }
    }

    /// The weapon class this card equips onto, at the contract level.
    pub open spec fn spec_subtype(self) -> Option<WeaponType> {
        Some(self.spec_info().3)
    }

    /// Retrieves the weapon type for this card
    ///
    /// Currently, this method never returns `None`, but since some character
    /// cards have the "Other Weapons" subtype, cards may exist in the future
    /// that fit no weapon type, which would return `None` here
    pub fn subtype(&self) -> (r: Option<WeaponType>)
        ensures
            r == self.spec_subtype(),
    {
        Some(self.info_dump().3)
    }

    fn info_dump(&self) -> (r: (&'static str, u16, CardCost, WeaponType))
        ensures
            r.0@ == self.spec_info().0,
            r.1 == self.spec_info().1,
            r.2 == self.spec_info().2,
            r.3 == self.spec_info().3,
    {
        match self {
            WeaponCard::MagicGuide => ("Magic Guide", 500, CardCost::match2(), WeaponType::Catalyst),
            WeaponCard::SacrificialFragments => ("Sacrificial Fragments", 700, CardCost::match3(), WeaponType::Catalyst),
            WeaponCard::SkywardAtlas => ("Skyward Atlas", 1000, CardCost::match3(), WeaponType::Catalyst),
            WeaponCard::RavenBow => ("Raven Bow", 500, CardCost::match2(), WeaponType::Bow),
            WeaponCard::SacrificialBow => ("Sacrificial Bow", 700, CardCost::match3(), WeaponType::Bow),
            WeaponCard::SkywardHarp => ("Skyward Harp", 1000, CardCost::match3(), WeaponType::Bow),
            WeaponCard::WhiteIronGreatsword => ("White Iron Greatsword", 500, CardCost::match2(), WeaponType::Claymore),
            WeaponCard::SacrificialGreatsword => ("Sacrificial Greatsword", 700, CardCost::match3(), WeaponType::Claymore),
            WeaponCard::WolfsGravestone => ("Wolf's Gravestone", 1000, CardCost::match3(), WeaponType::Claymore),
            WeaponCard::WhiteTassel => ("White Tassel", 500, CardCost::match2(), WeaponType::Polearm),
            WeaponCard::LithicSpear => ("Lithic Spear", 700, CardCost::match3(), WeaponType::Polearm),
            WeaponCard::SkywardSpine => ("Skyward Spine", 1000, CardCost::match3(), WeaponType::Polearm),
            WeaponCard::TravelersHandySword => ("Traveler's Handy Sword", 500, CardCost::match2(), WeaponType::Sword),
            WeaponCard::SacrificialSword => ("Sacrificial Sword", 700, CardCost::match3(), WeaponType::Sword),
            WeaponCard::AquilaFavonia => ("Aquila Favonia", 1000, CardCost::match3(), WeaponType::Sword),
        }
    }
}

impl Trait for WeaponCard {}

impl PlayingCard for WeaponCard {
    open spec fn spec_name(&self) -> Seq<char> {
        self.spec_info().0
    }

    open spec fn spec_cost(&self) -> CardCost {
        self.spec_info().2
    }

    open spec fn spec_shop_price(&self) -> Option<u16> {
        Some(self.spec_info().1)
    }

    fn name(&self) -> &'static str {
        self.info_dump().0
    }

    fn cost(&self) -> CardCost {
        self.info_dump().2
    }

    fn shop_price(&self) -> Option<u16> {
        Some(self.info_dump().1)
    }
}

/// The declaration index of a `WeaponCard` variant: the fixed canonical order
/// in which cards of this category are sorted inside a deck.
pub open spec fn weapon_index(c: WeaponCard) -> int {
    match c {
        WeaponCard::MagicGuide => 0,
        WeaponCard::SacrificialFragments => 1,
        WeaponCard::SkywardAtlas => 2,
        WeaponCard::RavenBow => 3,
        WeaponCard::SacrificialBow => 4,
        WeaponCard::SkywardHarp => 5,
        WeaponCard::WhiteIronGreatsword => 6,
        WeaponCard::SacrificialGreatsword => 7,
        WeaponCard::WolfsGravestone => 8,
        WeaponCard::WhiteTassel => 9,
        WeaponCard::LithicSpear => 10,
        WeaponCard::SkywardSpine => 11,
        WeaponCard::TravelersHandySword => 12,
        WeaponCard::SacrificialSword => 13,
        WeaponCard::AquilaFavonia => 14,
    }
}

pub(crate) fn weapon_index_exec(c: &WeaponCard) -> (r: u16)
    ensures
        r as int == weapon_index(*c),
        r < 100,
{
    match c {
        WeaponCard::MagicGuide => 0,
        WeaponCard::SacrificialFragments => 1,
        WeaponCard::SkywardAtlas => 2,
        WeaponCard::RavenBow => 3,
        WeaponCard::SacrificialBow => 4,
        WeaponCard::SkywardHarp => 5,
        WeaponCard::WhiteIronGreatsword => 6,
        WeaponCard::SacrificialGreatsword => 7,
        WeaponCard::WolfsGravestone => 8,
        WeaponCard::WhiteTassel => 9,
        WeaponCard::LithicSpear => 10,
        WeaponCard::SkywardSpine => 11,
        WeaponCard::TravelersHandySword => 12,
        WeaponCard::SacrificialSword => 13,
        WeaponCard::AquilaFavonia => 14,
    }
}

/// No two weapon cards share a declaration index.
pub proof fn lemma_weapon_index_injective(a: WeaponCard, b: WeaponCard)
    ensures
        weapon_index(a) == weapon_index(b) ==> a == b,
{
}

pub proof fn lemma_weapon_index_bounds(a: WeaponCard)
    ensures
        0 <= weapon_index(a) < 100,
{
}

/// An artifact card.
#[derive(Debug, Hash, Clone, Copy, PartialEq, Eq, Structural)]
#[non_exhaustive]
pub enum ArtifactCard {
    AdventurersBandana,
    LuckyDogsSilverCirclet,
    TravelingDoctorsHandkerchief,
    GamblersEarrings,
    InstructorsCap,
    ExilesCirclet,
    BrokenRimesEcho,
    BlizzardStrayer,
    WineStainedTricorne,
    HeartOfDepth,
    WitchsScorchingHat,
    CrimsonWitchOfFlames,
    ThunderSummonersCrown,
    ThunderingFury,
    ViridescentVenerersDiadem,
    ViridescentVenerer,
    MaskOfSolitudeBasalt,
    ArchaicPetra,
    LaurelCoronet,
    DeepwoodMemories,
}

impl ArtifactCard {
    /// The catalog row of this artifact: name, shop price, cost, and element.
    pub open spec fn spec_info(self) -> (Seq<char>, u16, CardCost, Option<Element>) {
        match self {
            ArtifactCard::AdventurersBandana => ("Adventurer's Bandana"@, 500, CardCost::one(), None),
            ArtifactCard::LuckyDogsSilverCirclet => ("Lucky Dog's Silver Circlet"@, 500, CardCost::any2(), None),
            ArtifactCard::TravelingDoctorsHandkerchief => ("Traveling Doctor's Handkerchief"@, 500, CardCost::one(), None),
            ArtifactCard::GamblersEarrings => ("Gambler's Earrings"@, 500, CardCost::one(), None),
            ArtifactCard::InstructorsCap => ("Instructor's Cap"@, 500, CardCost::any2(), None),
            ArtifactCard::ExilesCirclet => ("Exile's Circlet"@, 500, CardCost::any2(), None),
            ArtifactCard::BrokenRimesEcho => ("Broken Rime's Echo"@, 500, CardCost::match2(), Some(Element::Cryo)),
            ArtifactCard::BlizzardStrayer => ("Blizzard Strayer"@, 700, CardCost::match3(), Some(Element::Cryo)),
            ArtifactCard::WineStainedTricorne => ("Wine-Stained Tricorne"@, 500, CardCost::match2(), Some(Element::Hydro)),
            ArtifactCard::HeartOfDepth => ("Heart of Depth"@, 700, CardCost::match3(), Some(Element::Hydro)),
            ArtifactCard::WitchsScorchingHat => ("Witch's Scorching Hat"@, 500, CardCost::match2(), Some(Element::Pyro)),
            ArtifactCard::CrimsonWitchOfFlames => ("Crimson Witch of Flames"@, 700, CardCost::match3(), Some(Element::Pyro)),
            ArtifactCard::ThunderSummonersCrown => ("Thunder Summoner's Crown"@, 500, CardCost::match2(), Some(Element::Electro)),
            ArtifactCard::ThunderingFury => ("Thundering Fury"@, 700, CardCost::match3(), Some(Element::Electro)),
            ArtifactCard::ViridescentVenerersDiadem => ("Viridescent Venerer's Diadem"@, 500, CardCost::match2(), Some(Element::Anemo)),
            ArtifactCard::ViridescentVenerer => ("Viridescent Venerer"@, 700, CardCost::match3(), Some(Element::Anemo)),
            ArtifactCard::MaskOfSolitudeBasalt => ("Mask of Solitude Basalt"@, 500, CardCost::match2(), Some(Element::Geo)),
            ArtifactCard::ArchaicPetra => ("Archaic Petra"@, 700, CardCost::match3(), Some(Element::Geo)),
            ArtifactCard::LaurelCoronet => ("Laurel Coronet"@, 500, CardCost::match2(), Some(Element::Dendro)),
            ArtifactCard::DeepwoodMemories => ("Deepwood Memories"@, 700, CardCost::match3(), Some(Element::Dendro)),
        }
    }
    fn info_dump(&self) -> (r: (&'static str, u16, CardCost, Option<Element>))
        ensures
            r.0@ == self.spec_info().0,
            r.1 == self.spec_info().1,
            r.2 == self.spec_info().2,
            r.3 == self.spec_info().3,
    {
        match self {
            ArtifactCard::AdventurersBandana => ("Adventurer's Bandana", 500, CardCost::one(), None),
            ArtifactCard::LuckyDogsSilverCirclet => ("Lucky Dog's Silver Circlet", 500, CardCost::any2(), None),
            ArtifactCard::TravelingDoctorsHandkerchief => ("Traveling Doctor's Handkerchief", 500, CardCost::one(), None),
            ArtifactCard::GamblersEarrings => ("Gambler's Earrings", 500, CardCost::one(), None),
            ArtifactCard::InstructorsCap => ("Instructor's Cap", 500, CardCost::any2(), None),
            ArtifactCard::ExilesCirclet => ("Exile's Circlet", 500, CardCost::any2(), None),
            ArtifactCard::BrokenRimesEcho => ("Broken Rime's Echo", 500, CardCost::match2(), Some(Element::Cryo)),
            ArtifactCard::BlizzardStrayer => ("Blizzard Strayer", 700, CardCost::match3(), Some(Element::Cryo)),
            ArtifactCard::WineStainedTricorne => ("Wine-Stained Tricorne", 500, CardCost::match2(), Some(Element::Hydro)),
            ArtifactCard::HeartOfDepth => ("Heart of Depth", 700, CardCost::match3(), Some(Element::Hydro)),
            ArtifactCard::WitchsScorchingHat => ("Witch's Scorching Hat", 500, CardCost::match2(), Some(Element::Pyro)),
            ArtifactCard::CrimsonWitchOfFlames => ("Crimson Witch of Flames", 700, CardCost::match3(), Some(Element::Pyro)),
            ArtifactCard::ThunderSummonersCrown => ("Thunder Summoner's Crown", 500, CardCost::match2(), Some(Element::Electro)),
            ArtifactCard::ThunderingFury => ("Thundering Fury", 700, CardCost::match3(), Some(Element::Electro)),
            ArtifactCard::ViridescentVenerersDiadem => ("Viridescent Venerer's Diadem", 500, CardCost::match2(), Some(Element::Anemo)),
            ArtifactCard::ViridescentVenerer => ("Viridescent Venerer", 700, CardCost::match3(), Some(Element::Anemo)),
            ArtifactCard::MaskOfSolitudeBasalt => ("Mask of Solitude Basalt", 500, CardCost::match2(), Some(Element::Geo)),
            ArtifactCard::ArchaicPetra => ("Archaic Petra", 700, CardCost::match3(), Some(Element::Geo)),
            ArtifactCard::LaurelCoronet => ("Laurel Coronet", 500, CardCost::match2(), Some(Element::Dendro)),
            ArtifactCard::DeepwoodMemories => ("Deepwood Memories", 700, CardCost::match3(), Some(Element::Dendro)),
        }
    }
}

impl Trait for ArtifactCard {}

impl PlayingCard for ArtifactCard {
    open spec fn spec_name(&self) -> Seq<char> {
        self.spec_info().0
    }

    open spec fn spec_cost(&self) -> CardCost {
        self.spec_info().2
    }

    open spec fn spec_shop_price(&self) -> Option<u16> {
        Some(self.spec_info().1)
    }

    fn name(&self) -> &'static str {
        self.info_dump().0
    }

    fn cost(&self) -> CardCost {
        self.info_dump().2
    }

    fn shop_price(&self) -> Option<u16> {
        Some(self.info_dump().1)
    }
}

/// The declaration index of a `ArtifactCard` variant: the fixed canonical order
/// in which cards of this category are sorted inside a deck.
pub open spec fn artifact_index(c: ArtifactCard) -> int {
    match c {
        ArtifactCard::AdventurersBandana => 0,
        ArtifactCard::LuckyDogsSilverCirclet => 1,
        ArtifactCard::TravelingDoctorsHandkerchief => 2,
        ArtifactCard::GamblersEarrings => 3,
        ArtifactCard::InstructorsCap => 4,
        ArtifactCard::ExilesCirclet => 5,
        ArtifactCard::BrokenRimesEcho => 6,
        ArtifactCard::BlizzardStrayer => 7,
        ArtifactCard::WineStainedTricorne => 8,
        ArtifactCard::HeartOfDepth => 9,
        ArtifactCard::WitchsScorchingHat => 10,
        ArtifactCard::CrimsonWitchOfFlames => 11,
        ArtifactCard::ThunderSummonersCrown => 12,
        ArtifactCard::ThunderingFury => 13,
        ArtifactCard::ViridescentVenerersDiadem => 14,
        ArtifactCard::ViridescentVenerer => 15,
        ArtifactCard::MaskOfSolitudeBasalt => 16,
        ArtifactCard::ArchaicPetra => 17,
        ArtifactCard::LaurelCoronet => 18,
        ArtifactCard::DeepwoodMemories => 19,
    }
}

pub(crate) fn artifact_index_exec(c: &ArtifactCard) -> (r: u16)
    ensures
        r as int == artifact_index(*c),
        r < 100,
{
    match c {
        ArtifactCard::AdventurersBandana => 0,
        ArtifactCard::LuckyDogsSilverCirclet => 1,
        ArtifactCard::TravelingDoctorsHandkerchief => 2,
        ArtifactCard::GamblersEarrings => 3,
        ArtifactCard::InstructorsCap => 4,
        ArtifactCard::ExilesCirclet => 5,
        ArtifactCard::BrokenRimesEcho => 6,
        ArtifactCard::BlizzardStrayer => 7,
        ArtifactCard::WineStainedTricorne => 8,
        ArtifactCard::HeartOfDepth => 9,
        ArtifactCard::WitchsScorchingHat => 10,
        ArtifactCard::CrimsonWitchOfFlames => 11,
        ArtifactCard::ThunderSummonersCrown => 12,
        ArtifactCard::ThunderingFury => 13,
        ArtifactCard::ViridescentVenerersDiadem => 14,
        ArtifactCard::ViridescentVenerer => 15,
        ArtifactCard::MaskOfSolitudeBasalt => 16,
        ArtifactCard::ArchaicPetra => 17,
        ArtifactCard::LaurelCoronet => 18,
        ArtifactCard::DeepwoodMemories => 19,
    }
}

/// No two artifact cards share a declaration index.
pub proof fn lemma_artifact_index_injective(a: ArtifactCard, b: ArtifactCard)
    ensures
        artifact_index(a) == artifact_index(b) ==> a == b,
{
}

pub proof fn lemma_artifact_index_bounds(a: ArtifactCard)
    ensures
        0 <= artifact_index(a) < 100,
{
}

/// An equipment card: a talent, a weapon, or an artifact.
#[derive(Debug, Hash, Clone, Copy, PartialEq, Eq, Structural)]
pub enum EquipmentCard {
    Talent(TalentCard),
    Weapon(WeaponCard),
    Artifact(ArtifactCard),
}

impl EquipmentCard {
    /// The an equipment this card is, at the contract level.
    pub open spec fn spec_equipment(self) -> Option<EquipmentCard> {
        Some(self)
    }

    /// Attempts to view `self` as an equipment card. Returns `None`
    /// if this card is of another type/subtype
    pub fn equipment(&self) -> (r: Option<EquipmentCard>)
        ensures
            r == self.spec_equipment(),
    {
        Some(*self)
    }

    /// The a talent this card is, at the contract level.
    pub open spec fn spec_talent(self) -> Option<TalentCard> {
        match self {
            EquipmentCard::Talent(card) => Some(card),
            _ => None,
        }
    }

    /// Attempts to view `self` as a talent card. Returns `None`
    /// if this card is of another type/subtype
    pub fn talent(&self) -> (r: Option<TalentCard>)
        ensures
            r == self.spec_talent(),
    {
        if let EquipmentCard::Talent(card) = self {
            Some(*card)
        } else {
            None
        }
    }

    /// The a weapon this card is, at the contract level.
    pub open spec fn spec_weapon(self) -> Option<WeaponCard> {
        match self {
            EquipmentCard::Weapon(card) => Some(card),
            _ => None,
        }
    }

    /// Attempts to view `self` as a weapon card. Returns `None`
    /// if this card is of another type/subtype
    pub fn weapon(&self) -> (r: Option<WeaponCard>)
        ensures
            r == self.spec_weapon(),
    {
        if let EquipmentCard::Weapon(card) = self {
            Some(*card)
        } else {
            None
        }
    }

    /// The an artifact this card is, at the contract level.
    pub open spec fn spec_artifact(self) -> Option<ArtifactCard> {
        match self {
            EquipmentCard::Artifact(card) => Some(card),
            _ => None,
        }
    }

    /// Attempts to view `self` as an artifact card. Returns `None`
    /// if this card is of another type/subtype
    pub fn artifact(&self) -> (r: Option<ArtifactCard>)
        ensures
            r == self.spec_artifact(),
    {
        if let EquipmentCard::Artifact(card) = self {
            Some(*card)
        } else {
            None
        }
    }
}

impl Trait for EquipmentCard {}

impl PlayingCard for EquipmentCard {
    open spec fn spec_name(&self) -> Seq<char> {
        match *self {
            EquipmentCard::Talent(c) => c.spec_name(),
            EquipmentCard::Weapon(c) => c.spec_name(),
            EquipmentCard::Artifact(c) => c.spec_name(),
        }
    }

    open spec fn spec_cost(&self) -> CardCost {
        match *self {
            EquipmentCard::Talent(c) => c.spec_cost(),
            EquipmentCard::Weapon(c) => c.spec_cost(),
            EquipmentCard::Artifact(c) => c.spec_cost(),
        }
    }

    open spec fn spec_shop_price(&self) -> Option<u16> {
        match *self {
            EquipmentCard::Talent(_) => None,
            EquipmentCard::Weapon(c) => c.spec_shop_price(),
            EquipmentCard::Artifact(c) => c.spec_shop_price(),
        }
    }

    fn name(&self) -> &'static str {
        match self {
            EquipmentCard::Talent(card) => card.name(),
            EquipmentCard::Weapon(card) => card.name(),
            EquipmentCard::Artifact(card) => card.name(),
        }
    }

    fn cost(&self) -> CardCost {
        match self {
            EquipmentCard::Talent(card) => card.cost(),
            EquipmentCard::Weapon(card) => card.cost(),
            EquipmentCard::Artifact(card) => card.cost(),
        }
    }

    fn shop_price(&self) -> Option<u16> {
        match self {
            EquipmentCard::Talent(_) => None,
            EquipmentCard::Weapon(card) => card.shop_price(),
            EquipmentCard::Artifact(card) => card.shop_price(),
        }
    }
}

/// The canonical rank of a `EquipmentCard`: sub-categories occupy disjoint
/// bands, and cards within one sub-category order by declaration index.
pub open spec fn equip_rank(c: EquipmentCard) -> int {
    match c {
        EquipmentCard::Talent(c) => talent_index(c),
        EquipmentCard::Weapon(c) => 100 + weapon_index(c),
        EquipmentCard::Artifact(c) => 200 + artifact_index(c),
    }
}

pub(crate) fn equip_rank_exec(c: &EquipmentCard) -> (r: u16)
    ensures
        r as int == equip_rank(*c),
        r < 300,
{
    match c {
        EquipmentCard::Talent(c) => talent_index_exec(c),
        EquipmentCard::Weapon(c) => 100 + weapon_index_exec(c),
        EquipmentCard::Artifact(c) => 200 + artifact_index_exec(c),
    }
}

pub proof fn lemma_equip_rank_injective(a: EquipmentCard, b: EquipmentCard)
    ensures
        equip_rank(a) == equip_rank(b) ==> a == b,
{
    match (a, b) {
        (EquipmentCard::Talent(x), EquipmentCard::Talent(y)) => lemma_talent_index_injective(x, y),
        (EquipmentCard::Talent(x), EquipmentCard::Weapon(y)) => {
            lemma_talent_index_bounds(x);
            lemma_weapon_index_bounds(y);
        },
        (EquipmentCard::Talent(x), EquipmentCard::Artifact(y)) => {
            lemma_talent_index_bounds(x);
            lemma_artifact_index_bounds(y);
        },
        (EquipmentCard::Weapon(x), EquipmentCard::Talent(y)) => {
            lemma_weapon_index_bounds(x);
            lemma_talent_index_bounds(y);
        },
        (EquipmentCard::Weapon(x), EquipmentCard::Weapon(y)) => lemma_weapon_index_injective(x, y),
        (EquipmentCard::Weapon(x), EquipmentCard::Artifact(y)) => {
            lemma_weapon_index_bounds(x);
            lemma_artifact_index_bounds(y);
        },
        (EquipmentCard::Artifact(x), EquipmentCard::Talent(y)) => {
            lemma_artifact_index_bounds(x);
            lemma_talent_index_bounds(y);
        },
        (EquipmentCard::Artifact(x), EquipmentCard::Weapon(y)) => {
            lemma_artifact_index_bounds(x);
            lemma_weapon_index_bounds(y);
        },
        (EquipmentCard::Artifact(x), EquipmentCard::Artifact(y)) => lemma_artifact_index_injective(x, y),
    }
}

pub proof fn lemma_equip_rank_bounds(a: EquipmentCard)
    ensures
        0 <= equip_rank(a) < 300,
{
    match a {
        EquipmentCard::Talent(x) => lemma_talent_index_bounds(x),
        EquipmentCard::Weapon(x) => lemma_weapon_index_bounds(x),
        EquipmentCard::Artifact(x) => lemma_artifact_index_bounds(x),
    }
}

impl From<TalentCard> for EquipmentCard {
    fn from(card: TalentCard) -> EquipmentCard {
        EquipmentCard::Talent(card)
    }
}

impl vstd::std_specs::convert::FromSpecImpl<TalentCard> for EquipmentCard {
    open spec fn obeys_from_spec() -> bool {
        true
    }

    open spec fn from_spec(card: TalentCard) -> EquipmentCard {
        EquipmentCard::Talent(card)
    }
}

impl From<TalentCard> for ActionCard {
    fn from(card: TalentCard) -> ActionCard {
        ActionCard::Equipment(EquipmentCard::Talent(card))
    }
}

impl vstd::std_specs::convert::FromSpecImpl<TalentCard> for ActionCard {
    open spec fn obeys_from_spec() -> bool {
        true
    }

    open spec fn from_spec(card: TalentCard) -> ActionCard {
        ActionCard::Equipment(EquipmentCard::Talent(card))
    }
}

impl From<TalentCard> for Card {
    fn from(card: TalentCard) -> Card {
        Card::Action(ActionCard::Equipment(EquipmentCard::Talent(card)))
    }
}

impl vstd::std_specs::convert::FromSpecImpl<TalentCard> for Card {
    open spec fn obeys_from_spec() -> bool {
        true
    }

    open spec fn from_spec(card: TalentCard) -> Card {
        Card::Action(ActionCard::Equipment(EquipmentCard::Talent(card)))
    }
}

impl From<WeaponCard> for EquipmentCard {
    fn from(card: WeaponCard) -> EquipmentCard {
        EquipmentCard::Weapon(card)
    }
}

impl vstd::std_specs::convert::FromSpecImpl<WeaponCard> for EquipmentCard {
    open spec fn obeys_from_spec() -> bool {
        true
    }

    open spec fn from_spec(card: WeaponCard) -> EquipmentCard {
        EquipmentCard::Weapon(card)
    }
}

impl From<WeaponCard> for ActionCard {
    fn from(card: WeaponCard) -> ActionCard {
        ActionCard::Equipment(EquipmentCard::Weapon(card))
    }
}

impl vstd::std_specs::convert::FromSpecImpl<WeaponCard> for ActionCard {
    open spec fn obeys_from_spec() -> bool {
        true
    }

    open spec fn from_spec(card: WeaponCard) -> ActionCard {
        ActionCard::Equipment(EquipmentCard::Weapon(card))
    }
}

impl From<WeaponCard> for Card {
    fn from(card: WeaponCard) -> Card {
        Card::Action(ActionCard::Equipment(EquipmentCard::Weapon(card)))
    }
}

impl vstd::std_specs::convert::FromSpecImpl<WeaponCard> for Card {
    open spec fn obeys_from_spec() -> bool {
        true
    }

    open spec fn from_spec(card: WeaponCard) -> Card {
        Card::Action(ActionCard::Equipment(EquipmentCard::Weapon(card)))
    }
}

impl From<ArtifactCard> for EquipmentCard {
    fn from(card: ArtifactCard) -> EquipmentCard {
        EquipmentCard::Artifact(card)
    }
}

impl vstd::std_specs::convert::FromSpecImpl<ArtifactCard> for EquipmentCard {
    open spec fn obeys_from_spec() -> bool {
        true
    }

    open spec fn from_spec(card: ArtifactCard) -> EquipmentCard {
        EquipmentCard::Artifact(card)
    }
}

impl From<ArtifactCard> for ActionCard {
    fn from(card: ArtifactCard) -> ActionCard {
        ActionCard::Equipment(EquipmentCard::Artifact(card))
    }
}

impl vstd::std_specs::convert::FromSpecImpl<ArtifactCard> for ActionCard {
    open spec fn obeys_from_spec() -> bool {
        true
    }

    open spec fn from_spec(card: ArtifactCard) -> ActionCard {
        ActionCard::Equipment(EquipmentCard::Artifact(card))
    }
}

impl From<ArtifactCard> for Card {
    fn from(card: ArtifactCard) -> Card {
        Card::Action(ActionCard::Equipment(EquipmentCard::Artifact(card)))
    }
}

impl vstd::std_specs::convert::FromSpecImpl<ArtifactCard> for Card {
    open spec fn obeys_from_spec() -> bool {
        true
    }

    open spec fn from_spec(card: ArtifactCard) -> Card {
        Card::Action(ActionCard::Equipment(EquipmentCard::Artifact(card)))
    }
}

impl From<EquipmentCard> for ActionCard {
    fn from(card: EquipmentCard) -> ActionCard {
        ActionCard::Equipment(card)
    }
}

impl vstd::std_specs::convert::FromSpecImpl<EquipmentCard> for ActionCard {
    open spec fn obeys_from_spec() -> bool {
        true
    }

    open spec fn from_spec(card: EquipmentCard) -> ActionCard {
        ActionCard::Equipment(card)
    }
}

impl From<EquipmentCard> for Card {
    fn from(card: EquipmentCard) -> Card {
        Card::Action(ActionCard::Equipment(card))
    }
}

impl vstd::std_specs::convert::FromSpecImpl<EquipmentCard> for Card {
    open spec fn obeys_from_spec() -> bool {
        true
    }

    open spec fn from_spec(card: EquipmentCard) -> Card {
        Card::Action(ActionCard::Equipment(card))
    }
}

} // verus!
