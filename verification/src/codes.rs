use vstd::prelude::*;
use crate::action::ActionCard;
use crate::cards::Card;
use crate::character::CharacterCard;
use crate::equip::{ArtifactCard, EquipmentCard, TalentCard, WeaponCard};
use crate::event::{ElementalResonanceCard, EventCard, FoodCard, NormalEventCard};
use crate::support::{CompanionCard, ItemCard, LocationCard, SupportCard};

verus! {

/// The fixed single-character alphabet of the sharing code: which
/// character card each one-character code denotes.
pub open spec fn spec_char_code(c: char) -> Option<Card> {
    match c {
        '0' => Some(Card::Character(CharacterCard::Ganyu)),
        '1' => Some(Card::Character(CharacterCard::Kaeya)),
        '2' => Some(Card::Character(CharacterCard::Chongyun)),
        '3' => Some(Card::Character(CharacterCard::KamisatoAyaka)),
        '4' => Some(Card::Character(CharacterCard::Xingqiu)),
        '5' => Some(Card::Character(CharacterCard::Mona)),
        '6' => Some(Card::Character(CharacterCard::Diluc)),
        '7' => Some(Card::Character(CharacterCard::Xiangling)),
        '8' => Some(Card::Character(CharacterCard::Bennett)),
        'a' => Some(Card::Character(CharacterCard::Yoimiya)),
        'b' => Some(Card::Character(CharacterCard::Fischl)),
        'c' => Some(Card::Character(CharacterCard::Razor)),
        'd' => Some(Card::Character(CharacterCard::Keqing)),
        'e' => Some(Card::Character(CharacterCard::Sucrose)),
        'f' => Some(Card::Character(CharacterCard::Jean)),
        'g' => Some(Card::Character(CharacterCard::Ningguang)),
        'h' => Some(Card::Character(CharacterCard::Noelle)),
        'i' => Some(Card::Character(CharacterCard::Collei)),
        'j' => Some(Card::Character(CharacterCard::RhodeiaOfLoch)),
        'k' => Some(Card::Character(CharacterCard::FatuiPyroAgent)),
        'l' => Some(Card::Character(CharacterCard::MaguuKenki)),
        'm' => Some(Card::Character(CharacterCard::StonehideLawachurl)),
        'n' => Some(Card::Character(CharacterCard::Diona)),
        'o' => Some(Card::Character(CharacterCard::Cyno)),
        'p' => Some(Card::Character(CharacterCard::Barbara)),
        'q' => Some(Card::Character(CharacterCard::MirrorMaiden)),
        'r' => Some(Card::Character(CharacterCard::JadeplumeTerrorshroom)),
        _ => None,
    }
}

/// Decodes a one-character code from the character-code table.
pub(crate) fn decode_character_card(c: char) -> (r: Option<Card>)
    ensures
        r == spec_char_code(c),
{
    match c {
        '0' => Some(Card::Character(CharacterCard::Ganyu)),
        '1' => Some(Card::Character(CharacterCard::Kaeya)),
        '2' => Some(Card::Character(CharacterCard::Chongyun)),
        '3' => Some(Card::Character(CharacterCard::KamisatoAyaka)),
        '4' => Some(Card::Character(CharacterCard::Xingqiu)),
        '5' => Some(Card::Character(CharacterCard::Mona)),
        '6' => Some(Card::Character(CharacterCard::Diluc)),
        '7' => Some(Card::Character(CharacterCard::Xiangling)),
        '8' => Some(Card::Character(CharacterCard::Bennett)),
        'a' => Some(Card::Character(CharacterCard::Yoimiya)),
        'b' => Some(Card::Character(CharacterCard::Fischl)),
        'c' => Some(Card::Character(CharacterCard::Razor)),
        'd' => Some(Card::Character(CharacterCard::Keqing)),
        'e' => Some(Card::Character(CharacterCard::Sucrose)),
        'f' => Some(Card::Character(CharacterCard::Jean)),
        'g' => Some(Card::Character(CharacterCard::Ningguang)),
        'h' => Some(Card::Character(CharacterCard::Noelle)),
        'i' => Some(Card::Character(CharacterCard::Collei)),
        'j' => Some(Card::Character(CharacterCard::RhodeiaOfLoch)),
        'k' => Some(Card::Character(CharacterCard::FatuiPyroAgent)),
        'l' => Some(Card::Character(CharacterCard::MaguuKenki)),
        'm' => Some(Card::Character(CharacterCard::StonehideLawachurl)),
        'n' => Some(Card::Character(CharacterCard::Diona)),
        'o' => Some(Card::Character(CharacterCard::Cyno)),
        'p' => Some(Card::Character(CharacterCard::Barbara)),
        'q' => Some(Card::Character(CharacterCard::MirrorMaiden)),
        'r' => Some(Card::Character(CharacterCard::JadeplumeTerrorshroom)),
        _ => None,
    }
}

/// The equipment rows of the two-character action-code table.
pub open spec fn spec_equip_code(a: char, b: char) -> Option<ActionCard> {
    match (a, b) {
        ('8', '4') => Some(ActionCard::Equipment(EquipmentCard::Talent(TalentCard::UndividedHeart))),
        ('8', '5') => Some(ActionCard::Equipment(EquipmentCard::Talent(TalentCard::ColdBloodedStrike))),
        ('8', '6') => Some(ActionCard::Equipment(EquipmentCard::Talent(TalentCard::SteadyBreathing))),
        ('8', '7') => Some(ActionCard::Equipment(EquipmentCard::Talent(TalentCard::KantenSenmyouBlessing))),
        ('8', '8') => Some(ActionCard::Equipment(EquipmentCard::Talent(TalentCard::TheScentRemained))),
        ('8', '9') => Some(ActionCard::Equipment(EquipmentCard::Talent(TalentCard::ProphecyOfSubmersion))),
        ('8', 'a') => Some(ActionCard::Equipment(EquipmentCard::Talent(TalentCard::FlowingFlame))),
        ('8', 'b') => Some(ActionCard::Equipment(EquipmentCard::Talent(TalentCard::Crossfire))),
        ('8', 'c') => Some(ActionCard::Equipment(EquipmentCard::Talent(TalentCard::GrandExpectation))),
        ('8', 'e') => Some(ActionCard::Equipment(EquipmentCard::Talent(TalentCard::NaganoharaMeteorSwarm))),
        ('8', 'f') => Some(ActionCard::Equipment(EquipmentCard::Talent(TalentCard::StellarPredator))),
        ('8', 'g') => Some(ActionCard::Equipment(EquipmentCard::Talent(TalentCard::Awakening))),
        ('8', 'h') => Some(ActionCard::Equipment(EquipmentCard::Talent(TalentCard::ThunderingPenance))),
        ('8', 'i') => Some(ActionCard::Equipment(EquipmentCard::Talent(TalentCard::ChaoticEntropy))),
        ('8', 'j') => Some(ActionCard::Equipment(EquipmentCard::Talent(TalentCard::LandsOfDandelion))),
        ('8', 'k') => Some(ActionCard::Equipment(EquipmentCard::Talent(TalentCard::StrategicReserve))),
        ('8', 'l') => Some(ActionCard::Equipment(EquipmentCard::Talent(TalentCard::IGotYourBack))),
        ('8', 'm') => Some(ActionCard::Equipment(EquipmentCard::Talent(TalentCard::FloralSidewinder))),
        ('8', 'n') => Some(ActionCard::Equipment(EquipmentCard::Talent(TalentCard::StreamingSurge))),
        ('8', 'o') => Some(ActionCard::Equipment(EquipmentCard::Talent(TalentCard::PaidInFull))),
        ('8', 'p') => Some(ActionCard::Equipment(EquipmentCard::Talent(TalentCard::TranscendentAutomaton))),
        ('8', 'q') => Some(ActionCard::Equipment(EquipmentCard::Talent(TalentCard::StonehideReforged))),
        ('8', 'r') => Some(ActionCard::Equipment(EquipmentCard::Talent(TalentCard::ShakenNotPurred))),
        ('8', 's') => Some(ActionCard::Equipment(EquipmentCard::Talent(TalentCard::FeatherfallJudgment))),
        ('8', 't') => Some(ActionCard::Equipment(EquipmentCard::Talent(TalentCard::GloriousSeason))),
        ('8', 'u') => Some(ActionCard::Equipment(EquipmentCard::Talent(TalentCard::MirrorCage))),
        ('8', 'v') => Some(ActionCard::Equipment(EquipmentCard::Talent(TalentCard::ProliferatingSpores))),
        ('g', '8') => Some(ActionCard::Equipment(EquipmentCard::Weapon(WeaponCard::MagicGuide))),
        ('g', '9') => Some(ActionCard::Equipment(EquipmentCard::Weapon(WeaponCard::SacrificialFragments))),
        ('g', 'a') => Some(ActionCard::Equipment(EquipmentCard::Weapon(WeaponCard::SkywardAtlas))),
        ('g', 'b') => Some(ActionCard::Equipment(EquipmentCard::Weapon(WeaponCard::RavenBow))),
        ('g', 'c') => Some(ActionCard::Equipment(EquipmentCard::Weapon(WeaponCard::SacrificialBow))),
        ('g', 'd') => Some(ActionCard::Equipment(EquipmentCard::Weapon(WeaponCard::SkywardHarp))),
        ('g', 'e') => Some(ActionCard::Equipment(EquipmentCard::Weapon(WeaponCard::WhiteIronGreatsword))),
        ('g', 'f') => Some(ActionCard::Equipment(EquipmentCard::Weapon(WeaponCard::SacrificialGreatsword))),
        ('g', 'g') => Some(ActionCard::Equipment(EquipmentCard::Weapon(WeaponCard::WolfsGravestone))),
        ('g', 'h') => Some(ActionCard::Equipment(EquipmentCard::Weapon(WeaponCard::WhiteTassel))),
        ('g', 'i') => Some(ActionCard::Equipment(EquipmentCard::Weapon(WeaponCard::LithicSpear))),
        ('g', 'j') => Some(ActionCard::Equipment(EquipmentCard::Weapon(WeaponCard::SkywardSpine))),
        ('g', 'k') => Some(ActionCard::Equipment(EquipmentCard::Weapon(WeaponCard::TravelersHandySword))),
        ('g', 'l') => Some(ActionCard::Equipment(EquipmentCard::Weapon(WeaponCard::SacrificialSword))),
        ('g', 'm') => Some(ActionCard::Equipment(EquipmentCard::Weapon(WeaponCard::AquilaFavonia))),
        ('g', 'n') => Some(ActionCard::Equipment(EquipmentCard::Artifact(ArtifactCard::AdventurersBandana))),
        ('g', 'o') => Some(ActionCard::Equipment(EquipmentCard::Artifact(ArtifactCard::LuckyDogsSilverCirclet))),
        ('g', 'p') => Some(ActionCard::Equipment(EquipmentCard::Artifact(ArtifactCard::TravelingDoctorsHandkerchief))),
        ('g', 'q') => Some(ActionCard::Equipment(EquipmentCard::Artifact(ArtifactCard::GamblersEarrings))),
        ('g', 'r') => Some(ActionCard::Equipment(EquipmentCard::Artifact(ArtifactCard::InstructorsCap))),
        ('g', 's') => Some(ActionCard::Equipment(EquipmentCard::Artifact(ArtifactCard::ExilesCirclet))),
        ('g', 't') => Some(ActionCard::Equipment(EquipmentCard::Artifact(ArtifactCard::BrokenRimesEcho))),
        ('g', 'u') => Some(ActionCard::Equipment(EquipmentCard::Artifact(ArtifactCard::BlizzardStrayer))),
        ('g', 'v') => Some(ActionCard::Equipment(EquipmentCard::Artifact(ArtifactCard::WineStainedTricorne))),
        ('g', 'w') => Some(ActionCard::Equipment(EquipmentCard::Artifact(ArtifactCard::HeartOfDepth))),
        ('g', 'x') => Some(ActionCard::Equipment(EquipmentCard::Artifact(ArtifactCard::WitchsScorchingHat))),
        ('g', 'y') => Some(ActionCard::Equipment(EquipmentCard::Artifact(ArtifactCard::CrimsonWitchOfFlames))),
        ('g', 'z') => Some(ActionCard::Equipment(EquipmentCard::Artifact(ArtifactCard::ThunderSummonersCrown))),
        ('g', 'A') => Some(ActionCard::Equipment(EquipmentCard::Artifact(ArtifactCard::ThunderingFury))),
        ('g', 'B') => Some(ActionCard::Equipment(EquipmentCard::Artifact(ArtifactCard::ViridescentVenerersDiadem))),
        ('g', 'C') => Some(ActionCard::Equipment(EquipmentCard::Artifact(ArtifactCard::ViridescentVenerer))),
        ('g', 'D') => Some(ActionCard::Equipment(EquipmentCard::Artifact(ArtifactCard::MaskOfSolitudeBasalt))),
        ('g', 'E') => Some(ActionCard::Equipment(EquipmentCard::Artifact(ArtifactCard::ArchaicPetra))),
        ('g', 'F') => Some(ActionCard::Equipment(EquipmentCard::Artifact(ArtifactCard::LaurelCoronet))),
        ('g', 'G') => Some(ActionCard::Equipment(EquipmentCard::Artifact(ArtifactCard::DeepwoodMemories))),
        _ => None,
    }
}

/// Decodes a two-character code from the equip table.
pub(crate) fn decode_equip_card(a: char, b: char) -> (r: Option<ActionCard>)
    ensures
        r == spec_equip_code(a, b),
{
    match (a, b) {
        ('8', '4') => Some(ActionCard::Equipment(EquipmentCard::Talent(TalentCard::UndividedHeart))),
        ('8', '5') => Some(ActionCard::Equipment(EquipmentCard::Talent(TalentCard::ColdBloodedStrike))),
        ('8', '6') => Some(ActionCard::Equipment(EquipmentCard::Talent(TalentCard::SteadyBreathing))),
        ('8', '7') => Some(ActionCard::Equipment(EquipmentCard::Talent(TalentCard::KantenSenmyouBlessing))),
        ('8', '8') => Some(ActionCard::Equipment(EquipmentCard::Talent(TalentCard::TheScentRemained))),
        ('8', '9') => Some(ActionCard::Equipment(EquipmentCard::Talent(TalentCard::ProphecyOfSubmersion))),
        ('8', 'a') => Some(ActionCard::Equipment(EquipmentCard::Talent(TalentCard::FlowingFlame))),
        ('8', 'b') => Some(ActionCard::Equipment(EquipmentCard::Talent(TalentCard::Crossfire))),
        ('8', 'c') => Some(ActionCard::Equipment(EquipmentCard::Talent(TalentCard::GrandExpectation))),
        ('8', 'e') => Some(ActionCard::Equipment(EquipmentCard::Talent(TalentCard::NaganoharaMeteorSwarm))),
        ('8', 'f') => Some(ActionCard::Equipment(EquipmentCard::Talent(TalentCard::StellarPredator))),
        ('8', 'g') => Some(ActionCard::Equipment(EquipmentCard::Talent(TalentCard::Awakening))),
        ('8', 'h') => Some(ActionCard::Equipment(EquipmentCard::Talent(TalentCard::ThunderingPenance))),
        ('8', 'i') => Some(ActionCard::Equipment(EquipmentCard::Talent(TalentCard::ChaoticEntropy))),
        ('8', 'j') => Some(ActionCard::Equipment(EquipmentCard::Talent(TalentCard::LandsOfDandelion))),
        ('8', 'k') => Some(ActionCard::Equipment(EquipmentCard::Talent(TalentCard::StrategicReserve))),
        ('8', 'l') => Some(ActionCard::Equipment(EquipmentCard::Talent(TalentCard::IGotYourBack))),
        ('8', 'm') => Some(ActionCard::Equipment(EquipmentCard::Talent(TalentCard::FloralSidewinder))),
        ('8', 'n') => Some(ActionCard::Equipment(EquipmentCard::Talent(TalentCard::StreamingSurge))),
        ('8', 'o') => Some(ActionCard::Equipment(EquipmentCard::Talent(TalentCard::PaidInFull))),
        ('8', 'p') => Some(ActionCard::Equipment(EquipmentCard::Talent(TalentCard::TranscendentAutomaton))),
        ('8', 'q') => Some(ActionCard::Equipment(EquipmentCard::Talent(TalentCard::StonehideReforged))),
        ('8', 'r') => Some(ActionCard::Equipment(EquipmentCard::Talent(TalentCard::ShakenNotPurred))),
        ('8', 's') => Some(ActionCard::Equipment(EquipmentCard::Talent(TalentCard::FeatherfallJudgment))),
        ('8', 't') => Some(ActionCard::Equipment(EquipmentCard::Talent(TalentCard::GloriousSeason))),
        ('8', 'u') => Some(ActionCard::Equipment(EquipmentCard::Talent(TalentCard::MirrorCage))),
        ('8', 'v') => Some(ActionCard::Equipment(EquipmentCard::Talent(TalentCard::ProliferatingSpores))),
        ('g', '8') => Some(ActionCard::Equipment(EquipmentCard::Weapon(WeaponCard::MagicGuide))),
        ('g', '9') => Some(ActionCard::Equipment(EquipmentCard::Weapon(WeaponCard::SacrificialFragments))),
        ('g', 'a') => Some(ActionCard::Equipment(EquipmentCard::Weapon(WeaponCard::SkywardAtlas))),
        ('g', 'b') => Some(ActionCard::Equipment(EquipmentCard::Weapon(WeaponCard::RavenBow))),
        ('g', 'c') => Some(ActionCard::Equipment(EquipmentCard::Weapon(WeaponCard::SacrificialBow))),
        ('g', 'd') => Some(ActionCard::Equipment(EquipmentCard::Weapon(WeaponCard::SkywardHarp))),
        ('g', 'e') => Some(ActionCard::Equipment(EquipmentCard::Weapon(WeaponCard::WhiteIronGreatsword))),
        ('g', 'f') => Some(ActionCard::Equipment(EquipmentCard::Weapon(WeaponCard::SacrificialGreatsword))),
        ('g', 'g') => Some(ActionCard::Equipment(EquipmentCard::Weapon(WeaponCard::WolfsGravestone))),
        ('g', 'h') => Some(ActionCard::Equipment(EquipmentCard::Weapon(WeaponCard::WhiteTassel))),
        ('g', 'i') => Some(ActionCard::Equipment(EquipmentCard::Weapon(WeaponCard::LithicSpear))),
        ('g', 'j') => Some(ActionCard::Equipment(EquipmentCard::Weapon(WeaponCard::SkywardSpine))),
        ('g', 'k') => Some(ActionCard::Equipment(EquipmentCard::Weapon(WeaponCard::TravelersHandySword))),
        ('g', 'l') => Some(ActionCard::Equipment(EquipmentCard::Weapon(WeaponCard::SacrificialSword))),
        ('g', 'm') => Some(ActionCard::Equipment(EquipmentCard::Weapon(WeaponCard::AquilaFavonia))),
        ('g', 'n') => Some(ActionCard::Equipment(EquipmentCard::Artifact(ArtifactCard::AdventurersBandana))),
        ('g', 'o') => Some(ActionCard::Equipment(EquipmentCard::Artifact(ArtifactCard::LuckyDogsSilverCirclet))),
        ('g', 'p') => Some(ActionCard::Equipment(EquipmentCard::Artifact(ArtifactCard::TravelingDoctorsHandkerchief))),
        ('g', 'q') => Some(ActionCard::Equipment(EquipmentCard::Artifact(ArtifactCard::GamblersEarrings))),
        ('g', 'r') => Some(ActionCard::Equipment(EquipmentCard::Artifact(ArtifactCard::InstructorsCap))),
        ('g', 's') => Some(ActionCard::Equipment(EquipmentCard::Artifact(ArtifactCard::ExilesCirclet))),
        ('g', 't') => Some(ActionCard::Equipment(EquipmentCard::Artifact(ArtifactCard::BrokenRimesEcho))),
        ('g', 'u') => Some(ActionCard::Equipment(EquipmentCard::Artifact(ArtifactCard::BlizzardStrayer))),
        ('g', 'v') => Some(ActionCard::Equipment(EquipmentCard::Artifact(ArtifactCard::WineStainedTricorne))),
        ('g', 'w') => Some(ActionCard::Equipment(EquipmentCard::Artifact(ArtifactCard::HeartOfDepth))),
        ('g', 'x') => Some(ActionCard::Equipment(EquipmentCard::Artifact(ArtifactCard::WitchsScorchingHat))),
        ('g', 'y') => Some(ActionCard::Equipment(EquipmentCard::Artifact(ArtifactCard::CrimsonWitchOfFlames))),
        ('g', 'z') => Some(ActionCard::Equipment(EquipmentCard::Artifact(ArtifactCard::ThunderSummonersCrown))),
        ('g', 'A') => Some(ActionCard::Equipment(EquipmentCard::Artifact(ArtifactCard::ThunderingFury))),
        ('g', 'B') => Some(ActionCard::Equipment(EquipmentCard::Artifact(ArtifactCard::ViridescentVenerersDiadem))),
        ('g', 'C') => Some(ActionCard::Equipment(EquipmentCard::Artifact(ArtifactCard::ViridescentVenerer))),
        ('g', 'D') => Some(ActionCard::Equipment(EquipmentCard::Artifact(ArtifactCard::MaskOfSolitudeBasalt))),
        ('g', 'E') => Some(ActionCard::Equipment(EquipmentCard::Artifact(ArtifactCard::ArchaicPetra))),
        ('g', 'F') => Some(ActionCard::Equipment(EquipmentCard::Artifact(ArtifactCard::LaurelCoronet))),
        ('g', 'G') => Some(ActionCard::Equipment(EquipmentCard::Artifact(ArtifactCard::DeepwoodMemories))),
        _ => None,
    }
}

/// The event rows of the two-character action-code table.
pub open spec fn spec_event_code(a: char, b: char) -> Option<ActionCard> {
    match (a, b) {
        ('M', 'o') => Some(ActionCard::Event(EventCard::Resonance(ElementalResonanceCard::WovenIce))),
        ('M', 'p') => Some(ActionCard::Event(EventCard::Resonance(ElementalResonanceCard::ShatteringIce))),
        ('M', 'q') => Some(ActionCard::Event(EventCard::Resonance(ElementalResonanceCard::WovenWaters))),
        ('M', 'r') => Some(ActionCard::Event(EventCard::Resonance(ElementalResonanceCard::SoothingWater))),
        ('M', 's') => Some(ActionCard::Event(EventCard::Resonance(ElementalResonanceCard::WovenFlames))),
        ('M', 't') => Some(ActionCard::Event(EventCard::Resonance(ElementalResonanceCard::FerventFlames))),
        ('M', 'u') => Some(ActionCard::Event(EventCard::Resonance(ElementalResonanceCard::WovenThunder))),
        ('M', 'v') => Some(ActionCard::Event(EventCard::Resonance(ElementalResonanceCard::HighVoltage))),
        ('M', 'w') => Some(ActionCard::Event(EventCard::Resonance(ElementalResonanceCard::WovenWinds))),
        ('M', 'x') => Some(ActionCard::Event(EventCard::Resonance(ElementalResonanceCard::ImpetuousWinds))),
        ('M', 'y') => Some(ActionCard::Event(EventCard::Resonance(ElementalResonanceCard::WovenStone))),
        ('M', 'z') => Some(ActionCard::Event(EventCard::Resonance(ElementalResonanceCard::EnduringRock))),
        ('M', 'A') => Some(ActionCard::Event(EventCard::Resonance(ElementalResonanceCard::WovenWeeds))),
        ('M', 'B') => Some(ActionCard::Event(EventCard::Resonance(ElementalResonanceCard::SprawlingGreenery))),
        ('M', 'C') => Some(ActionCard::Event(EventCard::Normal(NormalEventCard::TheBestestTravelCompanion))),
        ('M', 'D') => Some(ActionCard::Event(EventCard::Normal(NormalEventCard::ChangingShifts))),
        ('M', 'E') => Some(ActionCard::Event(EventCard::Normal(NormalEventCard::TossUp))),
        ('M', 'F') => Some(ActionCard::Event(EventCard::Normal(NormalEventCard::Strategize))),
        ('M', 'G') => Some(ActionCard::Event(EventCard::Normal(NormalEventCard::IHaventLostYet))),
        ('M', 'H') => Some(ActionCard::Event(EventCard::Normal(NormalEventCard::LeaveItToMe))),
        ('M', 'I') => Some(ActionCard::Event(EventCard::Normal(NormalEventCard::WhenTheCraneReturned))),
        ('M', 'J') => Some(ActionCard::Event(EventCard::Normal(NormalEventCard::Starsigns))),
        ('M', 'K') => Some(ActionCard::Event(EventCard::Normal(NormalEventCard::CalxsArts))),
        ('M', 'L') => Some(ActionCard::Event(EventCard::Normal(NormalEventCard::MasterOfWeaponry))),
        ('M', 'M') => Some(ActionCard::Event(EventCard::Normal(NormalEventCard::BlessingOfTheDivineRelicsInstallation))),
        ('M', 'N') => Some(ActionCard::Event(EventCard::Normal(NormalEventCard::QuickKnit))),
        ('M', 'O') => Some(ActionCard::Event(EventCard::Normal(NormalEventCard::SendOff))),
        ('M', 'P') => Some(ActionCard::Event(EventCard::Normal(NormalEventCard::GuardiansOath))),
        ('M', 'Q') => Some(ActionCard::Event(EventCard::Normal(NormalEventCard::AbyssalSummons))),
        ('M', 'R') => Some(ActionCard::Event(EventCard::Food(FoodCard::JueyunGuoba))),
        ('M', 'S') => Some(ActionCard::Event(EventCard::Food(FoodCard::AdeptusTemptation))),
        ('M', 'T') => Some(ActionCard::Event(EventCard::Food(FoodCard::LotusFlowerCrisp))),
        ('M', 'U') => Some(ActionCard::Event(EventCard::Food(FoodCard::NorthernSmokedChicken))),
        ('M', 'V') => Some(ActionCard::Event(EventCard::Food(FoodCard::SweetMadame))),
        ('M', 'W') => Some(ActionCard::Event(EventCard::Food(FoodCard::MondstadtHashBrown))),
        ('M', 'X') => Some(ActionCard::Event(EventCard::Food(FoodCard::MushroomPizza))),
        ('M', 'Y') => Some(ActionCard::Event(EventCard::Food(FoodCard::MintyMeatRolls))),
        _ => None,
    }
}

/// Decodes a two-character code from the event table.
pub(crate) fn decode_event_card(a: char, b: char) -> (r: Option<ActionCard>)
    ensures
        r == spec_event_code(a, b),
{
    match (a, b) {
        ('M', 'o') => Some(ActionCard::Event(EventCard::Resonance(ElementalResonanceCard::WovenIce))),
        ('M', 'p') => Some(ActionCard::Event(EventCard::Resonance(ElementalResonanceCard::ShatteringIce))),
        ('M', 'q') => Some(ActionCard::Event(EventCard::Resonance(ElementalResonanceCard::WovenWaters))),
        ('M', 'r') => Some(ActionCard::Event(EventCard::Resonance(ElementalResonanceCard::SoothingWater))),
        ('M', 's') => Some(ActionCard::Event(EventCard::Resonance(ElementalResonanceCard::WovenFlames))),
        ('M', 't') => Some(ActionCard::Event(EventCard::Resonance(ElementalResonanceCard::FerventFlames))),
        ('M', 'u') => Some(ActionCard::Event(EventCard::Resonance(ElementalResonanceCard::WovenThunder))),
        ('M', 'v') => Some(ActionCard::Event(EventCard::Resonance(ElementalResonanceCard::HighVoltage))),
        ('M', 'w') => Some(ActionCard::Event(EventCard::Resonance(ElementalResonanceCard::WovenWinds))),
        ('M', 'x') => Some(ActionCard::Event(EventCard::Resonance(ElementalResonanceCard::ImpetuousWinds))),
        ('M', 'y') => Some(ActionCard::Event(EventCard::Resonance(ElementalResonanceCard::WovenStone))),
        ('M', 'z') => Some(ActionCard::Event(EventCard::Resonance(ElementalResonanceCard::EnduringRock))),
        ('M', 'A') => Some(ActionCard::Event(EventCard::Resonance(ElementalResonanceCard::WovenWeeds))),
        ('M', 'B') => Some(ActionCard::Event(EventCard::Resonance(ElementalResonanceCard::SprawlingGreenery))),
        ('M', 'C') => Some(ActionCard::Event(EventCard::Normal(NormalEventCard::TheBestestTravelCompanion))),
        ('M', 'D') => Some(ActionCard::Event(EventCard::Normal(NormalEventCard::ChangingShifts))),
        ('M', 'E') => Some(ActionCard::Event(EventCard::Normal(NormalEventCard::TossUp))),
        ('M', 'F') => Some(ActionCard::Event(EventCard::Normal(NormalEventCard::Strategize))),
        ('M', 'G') => Some(ActionCard::Event(EventCard::Normal(NormalEventCard::IHaventLostYet))),
        ('M', 'H') => Some(ActionCard::Event(EventCard::Normal(NormalEventCard::LeaveItToMe))),
        ('M', 'I') => Some(ActionCard::Event(EventCard::Normal(NormalEventCard::WhenTheCraneReturned))),
        ('M', 'J') => Some(ActionCard::Event(EventCard::Normal(NormalEventCard::Starsigns))),
        ('M', 'K') => Some(ActionCard::Event(EventCard::Normal(NormalEventCard::CalxsArts))),
        ('M', 'L') => Some(ActionCard::Event(EventCard::Normal(NormalEventCard::MasterOfWeaponry))),
        ('M', 'M') => Some(ActionCard::Event(EventCard::Normal(NormalEventCard::BlessingOfTheDivineRelicsInstallation))),
        ('M', 'N') => Some(ActionCard::Event(EventCard::Normal(NormalEventCard::QuickKnit))),
        ('M', 'O') => Some(ActionCard::Event(EventCard::Normal(NormalEventCard::SendOff))),
        ('M', 'P') => Some(ActionCard::Event(EventCard::Normal(NormalEventCard::GuardiansOath))),
        ('M', 'Q') => Some(ActionCard::Event(EventCard::Normal(NormalEventCard::AbyssalSummons))),
        ('M', 'R') => Some(ActionCard::Event(EventCard::Food(FoodCard::JueyunGuoba))),
        ('M', 'S') => Some(ActionCard::Event(EventCard::Food(FoodCard::AdeptusTemptation))),
        ('M', 'T') => Some(ActionCard::Event(EventCard::Food(FoodCard::LotusFlowerCrisp))),
        ('M', 'U') => Some(ActionCard::Event(EventCard::Food(FoodCard::NorthernSmokedChicken))),
        ('M', 'V') => Some(ActionCard::Event(EventCard::Food(FoodCard::SweetMadame))),
        ('M', 'W') => Some(ActionCard::Event(EventCard::Food(FoodCard::MondstadtHashBrown))),
        ('M', 'X') => Some(ActionCard::Event(EventCard::Food(FoodCard::MushroomPizza))),
        ('M', 'Y') => Some(ActionCard::Event(EventCard::Food(FoodCard::MintyMeatRolls))),
        _ => None,
    }
}

/// The support rows of the two-character action-code table.
pub open spec fn spec_support_code(a: char, b: char) -> Option<ActionCard> {
    match (a, b) {
        ('w', 'g') => Some(ActionCard::Support(SupportCard::Location(LocationCard::LiyueHarborWharf))),
        ('w', 'h') => Some(ActionCard::Support(SupportCard::Location(LocationCard::KnightsOfFavoniusLibrary))),
        ('w', 'i') => Some(ActionCard::Support(SupportCard::Location(LocationCard::JadeChamber))),
        ('w', 'j') => Some(ActionCard::Support(SupportCard::Location(LocationCard::DawnWinery))),
        ('w', 'k') => Some(ActionCard::Support(SupportCard::Location(LocationCard::WangshuInn))),
        ('w', 'l') => Some(ActionCard::Support(SupportCard::Location(LocationCard::FavoniusCathedral))),
        ('w', 'm') => Some(ActionCard::Support(SupportCard::Companion(CompanionCard::Paimon))),
        ('w', 'n') => Some(ActionCard::Support(SupportCard::Companion(CompanionCard::Katheryne))),
        ('w', 'o') => Some(ActionCard::Support(SupportCard::Companion(CompanionCard::Timaeus))),
        ('w', 'p') => Some(ActionCard::Support(SupportCard::Companion(CompanionCard::Wagner))),
        ('w', 'q') => Some(ActionCard::Support(SupportCard::Companion(CompanionCard::ChefMao))),
        ('w', 'r') => Some(ActionCard::Support(SupportCard::Companion(CompanionCard::Tubby))),
        ('w', 's') => Some(ActionCard::Support(SupportCard::Companion(CompanionCard::Timmie))),
        ('w', 't') => Some(ActionCard::Support(SupportCard::Companion(CompanionCard::Liben))),
        ('w', 'u') => Some(ActionCard::Support(SupportCard::Companion(CompanionCard::ChangTheNinth))),
        ('w', 'v') => Some(ActionCard::Support(SupportCard::Companion(CompanionCard::Ellin))),
        ('w', 'w') => Some(ActionCard::Support(SupportCard::Companion(CompanionCard::IronTongueTian))),
        ('w', 'x') => Some(ActionCard::Support(SupportCard::Companion(CompanionCard::LiuSu))),
        ('w', 'y') => Some(ActionCard::Support(SupportCard::Item(ItemCard::ParametricTransformer))),
        ('w', 'z') => Some(ActionCard::Support(SupportCard::Item(ItemCard::NRE))),
        _ => None,
    }
}

/// Decodes a two-character code from the support table.
pub(crate) fn decode_support_card(a: char, b: char) -> (r: Option<ActionCard>)
    ensures
        r == spec_support_code(a, b),
{
    match (a, b) {
        ('w', 'g') => Some(ActionCard::Support(SupportCard::Location(LocationCard::LiyueHarborWharf))),
        ('w', 'h') => Some(ActionCard::Support(SupportCard::Location(LocationCard::KnightsOfFavoniusLibrary))),
        ('w', 'i') => Some(ActionCard::Support(SupportCard::Location(LocationCard::JadeChamber))),
        ('w', 'j') => Some(ActionCard::Support(SupportCard::Location(LocationCard::DawnWinery))),
        ('w', 'k') => Some(ActionCard::Support(SupportCard::Location(LocationCard::WangshuInn))),
        ('w', 'l') => Some(ActionCard::Support(SupportCard::Location(LocationCard::FavoniusCathedral))),
        ('w', 'm') => Some(ActionCard::Support(SupportCard::Companion(CompanionCard::Paimon))),
        ('w', 'n') => Some(ActionCard::Support(SupportCard::Companion(CompanionCard::Katheryne))),
        ('w', 'o') => Some(ActionCard::Support(SupportCard::Companion(CompanionCard::Timaeus))),
        ('w', 'p') => Some(ActionCard::Support(SupportCard::Companion(CompanionCard::Wagner))),
        ('w', 'q') => Some(ActionCard::Support(SupportCard::Companion(CompanionCard::ChefMao))),
        ('w', 'r') => Some(ActionCard::Support(SupportCard::Companion(CompanionCard::Tubby))),
        ('w', 's') => Some(ActionCard::Support(SupportCard::Companion(CompanionCard::Timmie))),
        ('w', 't') => Some(ActionCard::Support(SupportCard::Companion(CompanionCard::Liben))),
        ('w', 'u') => Some(ActionCard::Support(SupportCard::Companion(CompanionCard::ChangTheNinth))),
        ('w', 'v') => Some(ActionCard::Support(SupportCard::Companion(CompanionCard::Ellin))),
        ('w', 'w') => Some(ActionCard::Support(SupportCard::Companion(CompanionCard::IronTongueTian))),
        ('w', 'x') => Some(ActionCard::Support(SupportCard::Companion(CompanionCard::LiuSu))),
        ('w', 'y') => Some(ActionCard::Support(SupportCard::Item(ItemCard::ParametricTransformer))),
        ('w', 'z') => Some(ActionCard::Support(SupportCard::Item(ItemCard::NRE))),
        _ => None,
    }
}

/// The full two-character action-code table: equipment, then event,
/// then support rows.
pub open spec fn spec_action_code(a: char, b: char) -> Option<Card> {
    match spec_equip_code(a, b) {
        Some(card) => Some(Card::Action(card)),
        None => match spec_event_code(a, b) {
            Some(card) => Some(Card::Action(card)),
            None => match spec_support_code(a, b) {
                Some(card) => Some(Card::Action(card)),
                None => None,
            },
        },
    }
}

/// Decodes a two-character code against all three action tables.
pub(crate) fn decode_action_card(a: char, b: char) -> (r: Option<Card>)
    ensures
        r == spec_action_code(a, b),
{
    if let Some(decoded) = decode_equip_card(a, b) {
        return Some(Card::Action(decoded));
    }
    if let Some(decoded) = decode_event_card(a, b) {
        return Some(Card::Action(decoded));
    }
    if let Some(decoded) = decode_support_card(a, b) {
        return Some(Card::Action(decoded));
    }
    None
}

} // verus!
