use vstd::prelude::*;
use crate::element::Element;
use crate::weapon_type::WeaponType;
use crate::faction::Faction;

verus! {

/// A character card: one of the closed set of playable characters.
#[derive(Debug, Hash, Clone, Copy, PartialEq, Eq, Structural)]
#[non_exhaustive]
pub enum CharacterCard {
    KamisatoAyaka,
    Chongyun,
    Diona,
    Ganyu,
    Kaeya,
    Barbara,
    Mona,
    Xingqiu,
    Cyno,
    Fischl,
    Keqing,
    Razor,
    Ningguang,
    Noelle,
    Collei,
    Jean,
    Sucrose,
    Bennett,
    Diluc,
    Xiangling,
    Yoimiya,
    MirrorMaiden,
    RhodeiaOfLoch,
    StonehideLawachurl,
    JadeplumeTerrorshroom,
    MaguuKenki,
    FatuiPyroAgent,
}

impl CharacterCard {
    /// The catalog row of this character: display name, element, weapon
    /// class (`None` for characters listed as "Other Weapons"), and faction.
    pub open spec fn spec_info(self) -> (Seq<char>, Element, Option<WeaponType>, Faction) {
        match self {
            CharacterCard::KamisatoAyaka => ("Kamisato Ayaka"@, Element::Cryo, Some(WeaponType::Sword), Faction::Inazuma),
            CharacterCard::Chongyun => ("Chongyun"@, Element::Cryo, Some(WeaponType::Claymore), Faction::Liyue),
            CharacterCard::Diona => ("Diona"@, Element::Cryo, Some(WeaponType::Bow), Faction::Mondstadt),
            CharacterCard::Ganyu => ("Ganyu"@, Element::Cryo, Some(WeaponType::Bow), Faction::Liyue),
            CharacterCard::Kaeya => ("Kaeya"@, Element::Cryo, Some(WeaponType::Sword), Faction::Mondstadt),
            CharacterCard::Barbara => ("Barbara"@, Element::Hydro, Some(WeaponType::Catalyst), Faction::Mondstadt),
            CharacterCard::Mona => ("Mona"@, Element::Hydro, Some(WeaponType::Catalyst), Faction::Mondstadt),
            CharacterCard::Xingqiu => ("Xingqiu"@, Element::Hydro, Some(WeaponType::Sword), Faction::Liyue),
            CharacterCard::Cyno => ("Cyno"@, Element::Electro, Some(WeaponType::Polearm), Faction::Sumeru),
            CharacterCard::Fischl => ("Fischl"@, Element::Electro, Some(WeaponType::Bow), Faction::Mondstadt),
            CharacterCard::Keqing => ("Keqing"@, Element::Electro, Some(WeaponType::Sword), Faction::Liyue),
            CharacterCard::Razor => ("Razor"@, Element::Electro, Some(WeaponType::Claymore), Faction::Mondstadt),
            CharacterCard::Ningguang => ("Ningguang"@, Element::Geo, Some(WeaponType::Catalyst), Faction::Liyue),
            CharacterCard::Noelle => ("Noelle"@, Element::Geo, Some(WeaponType::Claymore), Faction::Mondstadt),
            CharacterCard::Collei => ("Collei"@, Element::Dendro, Some(WeaponType::Bow), Faction::Sumeru),
            CharacterCard::Jean => ("Jean"@, Element::Anemo, Some(WeaponType::Sword), Faction::Mondstadt),
            CharacterCard::Sucrose => ("Sucrose"@, Element::Anemo, Some(WeaponType::Catalyst), Faction::Mondstadt),
            CharacterCard::Bennett => ("Bennett"@, Element::Pyro, Some(WeaponType::Sword), Faction::Mondstadt),
            CharacterCard::Diluc => ("Diluc"@, Element::Pyro, Some(WeaponType::Claymore), Faction::Mondstadt),
            CharacterCard::Xiangling => ("Xiangling"@, Element::Pyro, Some(WeaponType::Polearm), Faction::Liyue),
            CharacterCard::Yoimiya => ("Yoimiya"@, Element::Pyro, Some(WeaponType::Bow), Faction::Inazuma),
            CharacterCard::MirrorMaiden => ("Mirror Maiden"@, Element::Hydro, None, Faction::Fatui),
            CharacterCard::RhodeiaOfLoch => ("Rhodeia of Loch"@, Element::Hydro, None, Faction::Monster),
            CharacterCard::StonehideLawachurl => ("Stonehide Lawachurl"@, Element::Geo, None, Faction::Monster),
            CharacterCard::JadeplumeTerrorshroom => ("Jadeplume Terrorshroom"@, Element::Dendro, None, Faction::Monster),
            CharacterCard::MaguuKenki => ("Maguu Kenki"@, Element::Anemo, None, Faction::Monster),
            CharacterCard::FatuiPyroAgent => ("Fatui Pyro Agent"@, Element::Pyro, None, Faction::Fatui),
        }
    }

    /// The display name of this character, at the contract level.
    pub open spec fn spec_name(self) -> Seq<char> {
        self.spec_info().0
    }

    /// The element of this character, at the contract level.
    pub open spec fn spec_element(self) -> Element {
        self.spec_info().1
    }

    /// The weapon class of this character, at the contract level.
    pub open spec fn spec_weapon(self) -> Option<WeaponType> {
        self.spec_info().2
    }

    /// The faction of this character, at the contract level.
    pub open spec fn spec_faction(self) -> Faction {
        self.spec_info().3
    }

    pub fn name(&self) -> (r: &'static str)
        ensures
            r@ == self.spec_name(),
    {
        self.info_dump().0
    }

    pub fn element(&self) -> (r: Element)
        ensures
            r == self.spec_element(),
    {
        self.info_dump().1
    }

    /// The weapon type this character can hold
    ///
    /// Returns `None` for characters listed as "Other Weapons"
    pub fn weapon(&self) -> (r: Option<WeaponType>)
        ensures
            r == self.spec_weapon(),
    {
        self.info_dump().2
    }

    pub fn faction(&self) -> (r: Faction)
        ensures
            r == self.spec_faction(),
    {
        self.info_dump().3
    }

    fn info_dump(&self) -> (r: (&'static str, Element, Option<WeaponType>, Faction))
        ensures
            r.0@ == self.spec_info().0,
            r.1 == self.spec_info().1,
            r.2 == self.spec_info().2,
            r.3 == self.spec_info().3,
    {
        match self {
            CharacterCard::KamisatoAyaka => ("Kamisato Ayaka", Element::Cryo, Some(WeaponType::Sword), Faction::Inazuma),
            CharacterCard::Chongyun => ("Chongyun", Element::Cryo, Some(WeaponType::Claymore), Faction::Liyue),
            CharacterCard::Diona => ("Diona", Element::Cryo, Some(WeaponType::Bow), Faction::Mondstadt),
            CharacterCard::Ganyu => ("Ganyu", Element::Cryo, Some(WeaponType::Bow), Faction::Liyue),
            CharacterCard::Kaeya => ("Kaeya", Element::Cryo, Some(WeaponType::Sword), Faction::Mondstadt),
            CharacterCard::Barbara => ("Barbara", Element::Hydro, Some(WeaponType::Catalyst), Faction::Mondstadt),
            CharacterCard::Mona => ("Mona", Element::Hydro, Some(WeaponType::Catalyst), Faction::Mondstadt),
            CharacterCard::Xingqiu => ("Xingqiu", Element::Hydro, Some(WeaponType::Sword), Faction::Liyue),
            CharacterCard::Cyno => ("Cyno", Element::Electro, Some(WeaponType::Polearm), Faction::Sumeru),
            CharacterCard::Fischl => ("Fischl", Element::Electro, Some(WeaponType::Bow), Faction::Mondstadt),
            CharacterCard::Keqing => ("Keqing", Element::Electro, Some(WeaponType::Sword), Faction::Liyue),
            CharacterCard::Razor => ("Razor", Element::Electro, Some(WeaponType::Claymore), Faction::Mondstadt),
            CharacterCard::Ningguang => ("Ningguang", Element::Geo, Some(WeaponType::Catalyst), Faction::Liyue),
            CharacterCard::Noelle => ("Noelle", Element::Geo, Some(WeaponType::Claymore), Faction::Mondstadt),
            CharacterCard::Collei => ("Collei", Element::Dendro, Some(WeaponType::Bow), Faction::Sumeru),
            CharacterCard::Jean => ("Jean", Element::Anemo, Some(WeaponType::Sword), Faction::Mondstadt),
            CharacterCard::Sucrose => ("Sucrose", Element::Anemo, Some(WeaponType::Catalyst), Faction::Mondstadt),
            CharacterCard::Bennett => ("Bennett", Element::Pyro, Some(WeaponType::Sword), Faction::Mondstadt),
            CharacterCard::Diluc => ("Diluc", Element::Pyro, Some(WeaponType::Claymore), Faction::Mondstadt),
            CharacterCard::Xiangling => ("Xiangling", Element::Pyro, Some(WeaponType::Polearm), Faction::Liyue),
            CharacterCard::Yoimiya => ("Yoimiya", Element::Pyro, Some(WeaponType::Bow), Faction::Inazuma),
            CharacterCard::MirrorMaiden => ("Mirror Maiden", Element::Hydro, None, Faction::Fatui),
            CharacterCard::RhodeiaOfLoch => ("Rhodeia of Loch", Element::Hydro, None, Faction::Monster),
            CharacterCard::StonehideLawachurl => ("Stonehide Lawachurl", Element::Geo, None, Faction::Monster),
            CharacterCard::JadeplumeTerrorshroom => ("Jadeplume Terrorshroom", Element::Dendro, None, Faction::Monster),
            CharacterCard::MaguuKenki => ("Maguu Kenki", Element::Anemo, None, Faction::Monster),
            CharacterCard::FatuiPyroAgent => ("Fatui Pyro Agent", Element::Pyro, None, Faction::Fatui),
        }
    }
}

/// The declaration index of a `CharacterCard` variant: the fixed canonical order
/// in which cards of this category are sorted inside a deck.
pub open spec fn char_index(c: CharacterCard) -> int {
    match c {
        CharacterCard::KamisatoAyaka => 0,
        CharacterCard::Chongyun => 1,
        CharacterCard::Diona => 2,
        CharacterCard::Ganyu => 3,
        CharacterCard::Kaeya => 4,
        CharacterCard::Barbara => 5,
        CharacterCard::Mona => 6,
        CharacterCard::Xingqiu => 7,
        CharacterCard::Cyno => 8,
        CharacterCard::Fischl => 9,
        CharacterCard::Keqing => 10,
        CharacterCard::Razor => 11,
        CharacterCard::Ningguang => 12,
        CharacterCard::Noelle => 13,
        CharacterCard::Collei => 14,
        CharacterCard::Jean => 15,
        CharacterCard::Sucrose => 16,
        CharacterCard::Bennett => 17,
        CharacterCard::Diluc => 18,
        CharacterCard::Xiangling => 19,
        CharacterCard::Yoimiya => 20,
        CharacterCard::MirrorMaiden => 21,
        CharacterCard::RhodeiaOfLoch => 22,
        CharacterCard::StonehideLawachurl => 23,
        CharacterCard::JadeplumeTerrorshroom => 24,
        CharacterCard::MaguuKenki => 25,
        CharacterCard::FatuiPyroAgent => 26,
    }
}

pub(crate) fn char_index_exec(c: &CharacterCard) -> (r: u16)
    ensures
        r as int == char_index(*c),
        r < 100,
{
    match c {
        CharacterCard::KamisatoAyaka => 0,
        CharacterCard::Chongyun => 1,
        CharacterCard::Diona => 2,
        CharacterCard::Ganyu => 3,
        CharacterCard::Kaeya => 4,
        CharacterCard::Barbara => 5,
        CharacterCard::Mona => 6,
        CharacterCard::Xingqiu => 7,
        CharacterCard::Cyno => 8,
        CharacterCard::Fischl => 9,
        CharacterCard::Keqing => 10,
        CharacterCard::Razor => 11,
        CharacterCard::Ningguang => 12,
        CharacterCard::Noelle => 13,
        CharacterCard::Collei => 14,
        CharacterCard::Jean => 15,
        CharacterCard::Sucrose => 16,
        CharacterCard::Bennett => 17,
        CharacterCard::Diluc => 18,
        CharacterCard::Xiangling => 19,
        CharacterCard::Yoimiya => 20,
        CharacterCard::MirrorMaiden => 21,
        CharacterCard::RhodeiaOfLoch => 22,
        CharacterCard::StonehideLawachurl => 23,
        CharacterCard::JadeplumeTerrorshroom => 24,
        CharacterCard::MaguuKenki => 25,
        CharacterCard::FatuiPyroAgent => 26,
    }
}

/// No two characters share a declaration index.
pub proof fn lemma_char_index_injective(a: CharacterCard, b: CharacterCard)
    ensures
        char_index(a) == char_index(b) ==> a == b,
{
}

} // verus!
