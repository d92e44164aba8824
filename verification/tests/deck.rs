#![allow(dead_code)]

use genius_invokation::{
    ActionCard, ArtifactCard, Card, CharacterCard, CompanionCard, Deck, DeckError,
    ElementalResonanceCard, EquipmentCard, EventCard, FoodCard, ItemCard, LocationCard,
    NormalEventCard, SupportCard, TalentCard, WeaponCard,
};
use rand::seq::SliceRandom;
use rand::thread_rng;

const CH: CharacterCard = CharacterCard::Chongyun;
const XI: CharacterCard = CharacterCard::Xingqiu;
const FI: CharacterCard = CharacterCard::Fischl;
const KE: CharacterCard = CharacterCard::Keqing;
const RA: CharacterCard = CharacterCard::Razor;
const LA: CharacterCard = CharacterCard::StonehideLawachurl;
const NO: CharacterCard = CharacterCard::Noelle;
const CO: CharacterCard = CharacterCard::Collei;
const AG: CharacterCard = CharacterCard::FatuiPyroAgent;
const YO: CharacterCard = CharacterCard::Yoimiya;

const GA: ActionCard = ActionCard::Equipment(EquipmentCard::Artifact(ArtifactCard::GamblersEarrings));
const LU: ActionCard = ActionCard::Equipment(EquipmentCard::Artifact(ArtifactCard::LuckyDogsSilverCirclet));
const DE: ActionCard = ActionCard::Equipment(EquipmentCard::Artifact(ArtifactCard::DeepwoodMemories));
const VI: ActionCard = ActionCard::Equipment(EquipmentCard::Artifact(ArtifactCard::ViridescentVenerer));
const TH: ActionCard = ActionCard::Equipment(EquipmentCard::Talent(TalentCard::TheScentRemained));
const AW: ActionCard = ActionCard::Equipment(EquipmentCard::Talent(TalentCard::Awakening));
const IG: ActionCard = ActionCard::Equipment(EquipmentCard::Talent(TalentCard::IGotYourBack));
const SH: ActionCard = ActionCard::Equipment(EquipmentCard::Talent(TalentCard::ShakenNotPurred));
const AQ: ActionCard = ActionCard::Equipment(EquipmentCard::Weapon(WeaponCard::AquilaFavonia));
const WO: ActionCard = ActionCard::Equipment(EquipmentCard::Weapon(WeaponCard::WolfsGravestone));
const WH: ActionCard = ActionCard::Equipment(EquipmentCard::Weapon(WeaponCard::WhiteTassel));
const LO: ActionCard = ActionCard::Event(EventCard::Food(FoodCard::LotusFlowerCrisp));
const MI: ActionCard = ActionCard::Event(EventCard::Food(FoodCard::MintyMeatRolls));
const AD: ActionCard = ActionCard::Event(EventCard::Food(FoodCard::AdeptusTemptation));
const JU: ActionCard = ActionCard::Event(EventCard::Food(FoodCard::JueyunGuoba));
const LE: ActionCard = ActionCard::Event(EventCard::Normal(NormalEventCard::LeaveItToMe));
const ST: ActionCard = ActionCard::Event(EventCard::Normal(NormalEventCard::Strategize));
const MA: ActionCard = ActionCard::Event(EventCard::Normal(NormalEventCard::MasterOfWeaponry));
const AB: ActionCard = ActionCard::Event(EventCard::Normal(NormalEventCard::AbyssalSummons));
const HI: ActionCard = ActionCard::Event(EventCard::Resonance(ElementalResonanceCard::HighVoltage));
const EN: ActionCard = ActionCard::Event(EventCard::Resonance(ElementalResonanceCard::EnduringRock));
const PA: ActionCard = ActionCard::Support(SupportCard::Companion(CompanionCard::Paimon));
const LI: ActionCard = ActionCard::Support(SupportCard::Companion(CompanionCard::Liben));
const TI: ActionCard = ActionCard::Support(SupportCard::Companion(CompanionCard::Timaeus));
const TU: ActionCard = ActionCard::Support(SupportCard::Companion(CompanionCard::Tubby));
const NR: ActionCard = ActionCard::Support(SupportCard::Item(ItemCard::NRE));
const JA: ActionCard = ActionCard::Support(SupportCard::Location(LocationCard::JadeChamber));
const FA: ActionCard = ActionCard::Support(SupportCard::Location(LocationCard::FavoniusCathedral));
const DA: ActionCard = ActionCard::Support(SupportCard::Location(LocationCard::DawnWinery));
const WA: ActionCard = ActionCard::Support(SupportCard::Location(LocationCard::WangshuInn));

fn iter(characters: &[CharacterCard], actions: &[ActionCard]) -> Vec<Card> {
    characters
        .iter()
        .map(|x| Card::from(*x))
        .chain(actions.iter().map(|x| Card::from(*x)))
        .collect()
}

#[test]
fn eq_works() {
    let characters = [LA, CO, NO];
    let actions = [
        ST, PA, VI, DA, LU, WO, IG, NR, WA, JU, JA, WA, MI, WH, FA, LE, GA, LO, MA, AD, LI, TU,
        IG, TI, AQ, AB, TU, AB, EN, DE,
    ];

    let deck = iter(&characters, &actions);
    let original_deck = Deck::from_iter(deck.clone());

    let mut rng = thread_rng();

    for _ in 0..5 {
        let mut shuffled = deck.clone();
        shuffled.shuffle(&mut rng);

        let shuffled_deck = Deck::from_iter(shuffled);

        // Two decks should be considered equal as long as they have the same
        // cards, no matter what order they were declared in
        if original_deck != shuffled_deck {
            panic!(
                "These vec iterators produce different decks:\n{original_deck:?}\n{shuffled_deck:?}"
            )
        }
    }
}

#[test]
fn wrong_amounts() {
    let not_enough_chars = iter(
        &[LA, NO],
        &[
            ST, PA, VI, DA, LU, WO, IG, NR, WA, JU, JA, WA, MI, WH, FA, LE, GA, LO, MA, AD, LI,
            TU, IG, TI, AQ, AB, TU, AB, EN, DE,
        ],
    );

    let not_enough_actions = iter(
        &[LA, CO, NO],
        &[
            ST, PA, VI, DA, LU, WO, IG, NR, WA, JU, JA, WA, MI, WH, FA, LE, GA, LO, MA, AD, LI,
            TU, TI, AQ, AB, TU, AB, EN, DE,
        ],
    );

    let too_many_chars = iter(
        &[LA, CO, NO, CH],
        &[
            ST, PA, VI, DA, LU, WO, IG, NR, WA, JU, JA, WA, MI, WH, FA, LE, GA, LO, MA, AD, LI,
            TU, IG, TI, AQ, AB, TU, AB, EN, DE,
        ],
    );

    let too_many_actions = iter(
        &[LA, CO, NO],
        &[
            ST, PA, VI, DA, LU, WO, IG, NR, WA, JU, JA, WA, MI, WH, FA, LE, GA, LO, MA, AD, LI,
            LI, TU, IG, TI, AQ, AB, TU, AB, EN, DE,
        ],
    );

    assert_eq!(
        Deck::from_iter(not_enough_chars),
        Err(DeckError::NotEnoughCharacterCards(2))
    );
    assert_eq!(
        Deck::from_iter(not_enough_actions),
        Err(DeckError::NotEnoughActionCards(29))
    );
    assert_eq!(
        Deck::from_iter(too_many_chars),
        Err(DeckError::TooManyCharacterCards)
    );
    assert_eq!(
        Deck::from_iter(too_many_actions),
        Err(DeckError::TooManyActionCards)
    );
}

#[test]
fn talent_error() {
    let talent_missing_character = iter(
        &[FI, RA, AG],
        &[
            ST, PA, VI, DA, LU, WO, IG, NR, WA, JU, JA, WA, MI, WH, FA, LE, GA, LO, MA, AD, LI,
            TU, IG, TI, AQ, AB, TU, AB, AQ, DE,
        ],
    );

    assert_eq!(
        Deck::from_iter(talent_missing_character),
        Err(DeckError::TalentRequiresCharacter(TalentCard::IGotYourBack))
    );

    // including Noelle in the deck (character for TalentCard::IGotYourBack) fixes it
    let this_works = iter(
        &[FI, NO, AG],
        &[
            ST, PA, VI, DA, LU, WO, IG, NR, WA, JU, JA, WA, MI, WH, FA, LE, GA, LO, MA, AD, LI,
            TU, IG, TI, AQ, AB, TU, AB, AQ, DE,
        ],
    );

    assert!(Deck::from_iter(this_works).is_ok());
}

#[test]
fn resonance_error() {
    let actions = [
        ST, PA, VI, HI, LU, WO, WH, NR, WA, JU, JA, WA, MI, WH, FA, LE, GA, LO, MA, AD, HI, TU,
        MI, TI, AQ, AB, TU, AB, AQ, DE,
    ];

    let resonance_missing_chars = iter(&[FI, CH, XI], &actions);

    assert_eq!(
        Deck::from_iter(resonance_missing_chars),
        Err(DeckError::ResonanceRequiresAtLeastTwo(
            ElementalResonanceCard::HighVoltage
        ))
    );

    // having 2 or 3 characters of the resonance's element fixes it
    let resonance_with_two = iter(&[RA, FI, XI], &actions);
    let resonance_with_three = iter(&[KE, RA, FI], &actions);

    assert!(Deck::from_iter(resonance_with_two).is_ok());
    assert!(Deck::from_iter(resonance_with_three).is_ok());
}

#[test]
fn multiple_error() {
    let duplicate_char = iter(
        &[YO, AG, YO],
        &[
            ST, PA, VI, DE, LU, WO, WH, NR, WA, JU, JA, WA, MI, WH, FA, LE, GA, LO, MA, AD, PA,
            TU, MI, TI, AQ, AB, TU, AB, AQ, DE,
        ],
    );

    assert_eq!(
        Deck::from_iter(duplicate_char),
        Err(DeckError::CharacterAppearsMoreThanOnce(
            CharacterCard::Yoimiya
        )),
    );

    let triplicate_card = iter(
        &[LA, CO, NO],
        &[
            ST, PA, VI, TU, LU, WO, WH, NR, WA, JU, JA, WA, MI, WH, FA, LE, GA, LO, MA, AD, HI,
            TU, MI, TI, AQ, AB, TU, AB, AQ, DE,
        ],
    );

    assert_eq!(
        Deck::from_iter(triplicate_card),
        Err(DeckError::ActionCardAppearsMoreThanTwice(TU)),
    );
}

#[test]
fn two_copies_are_legal() {
    // the same deck as the triplicate case in `multiple_error`, with the
    // third Tubby replaced, builds fine: two copies stay within the limit
    let two_copies = iter(
        &[LA, CO, NO],
        &[
            ST, PA, VI, TU, LU, WO, WH, NR, WA, JU, JA, WA, MI, WH, FA, LE, GA, LO, MA, AD, LI,
            TU, MI, TI, AQ, AB, TU, AB, AQ, DE,
        ],
    );
    let mut cards = two_copies;
    assert_eq!(
        Deck::from_iter(cards.clone()),
        Err(DeckError::ActionCardAppearsMoreThanTwice(TU)),
    );
    let tubby_positions: Vec<usize> = cards
        .iter()
        .enumerate()
        .filter(|(_, c)| **c == Card::from(TU))
        .map(|(i, _)| i)
        .collect();
    assert_eq!(tubby_positions.len(), 3);
    cards[tubby_positions[2]] = Card::from(LI);
    assert!(Deck::from_iter(cards).is_ok());
}

#[test]
fn empty_input_lacks_characters() {
    assert_eq!(
        Deck::from_iter(Vec::new()),
        Err(DeckError::NotEnoughCharacterCards(0))
    );
}

#[test]
fn from_exact_works() {
    let characters = [LA, CO, NO];
    let actions = [
        ST, PA, VI, DA, LU, WO, IG, NR, WA, JU, JA, WA, MI, WH, FA, LE, GA, LO, MA, AD, LI, TU,
        IG, TI, AQ, AB, TU, AB, EN, DE,
    ];

    let card_vec = iter(&characters, &actions);

    assert_eq!(Deck::from_iter(card_vec), Deck::from_exact(characters, actions),);
}
