use genius_invokation::{
    ActionCard, ArtifactCard, Card, CharacterCard, CompanionCard, Deck, DeckError, DiceCost,
    Element, ElementalResonanceCard, EquipmentCard, EventCard, Faction, FoodCard, ItemCard,
    LocationCard, NormalEventCard, PlayingCard, SupportCard, TalentCard, WeaponCard, WeaponType,
};

#[test]
fn character_attributes() {
    let fischl = CharacterCard::Fischl;
    assert_eq!(fischl.name(), "Fischl");
    assert_eq!(fischl.element(), Element::Electro);
    assert_eq!(fischl.weapon(), Some(WeaponType::Bow));
    assert_eq!(fischl.faction(), Faction::Mondstadt);

    let kenki = CharacterCard::MaguuKenki;
    assert_eq!(kenki.name(), "Maguu Kenki");
    assert_eq!(kenki.element(), Element::Anemo);
    assert_eq!(kenki.weapon(), None);
    assert_eq!(kenki.faction(), Faction::Monster);
}

#[test]
fn talent_attributes() {
    let talent = TalentCard::ProphecyOfSubmersion;
    assert_eq!(talent.name(), "Prophecy of Submersion");
    assert_eq!(talent.character(), CharacterCard::Mona);
    assert_eq!(talent.shop_price(), None);
    let cost = talent.cost();
    assert_eq!(cost.dice_type(), DiceCost::Exact(Element::Hydro));
    assert_eq!(cost.amount(), 3);
    assert_eq!(cost.energy(), 3);
}

#[test]
fn weapon_attributes() {
    let weapon = WeaponCard::AquilaFavonia;
    assert_eq!(weapon.name(), "Aquila Favonia");
    assert_eq!(weapon.shop_price(), Some(1000));
    assert_eq!(weapon.subtype(), Some(WeaponType::Sword));
    let cost = weapon.cost();
    assert_eq!(cost.dice_type(), DiceCost::Same);
    assert_eq!(cost.amount(), 3);
    assert_eq!(cost.energy(), 0);
}

#[test]
fn resonance_attributes() {
    let card = ElementalResonanceCard::HighVoltage;
    assert_eq!(card.name(), "High Voltage");
    assert_eq!(card.element(), Element::Electro);
    assert_eq!(card.shop_price(), Some(500));
    let cost = card.cost();
    assert_eq!(cost.dice_type(), DiceCost::Exact(Element::Electro));
    assert_eq!(cost.amount(), 1);
}

#[test]
fn delegated_attributes() {
    let action = ActionCard::Support(SupportCard::Companion(CompanionCard::Paimon));
    assert_eq!(action.name(), "Paimon");
    assert_eq!(action.shop_price(), None);
    assert_eq!(action.cost().dice_type(), DiceCost::Same);
    assert_eq!(action.cost().amount(), 3);

    let event = EventCard::Normal(NormalEventCard::TheBestestTravelCompanion);
    assert_eq!(event.name(), "The Bestest Travel Companion!");
    assert_eq!(event.shop_price(), None);
    assert_eq!(event.cost().dice_type(), DiceCost::Any);
    assert_eq!(event.cost().amount(), 2);

    // talents have no shop price, also when asked through the wrapper level
    let equipment = EquipmentCard::Talent(TalentCard::Awakening);
    assert_eq!(equipment.shop_price(), None);

    let card = Card::from(ActionCard::Support(SupportCard::Location(
        LocationCard::DawnWinery,
    )));
    assert_eq!(card.name(), "Dawn Winery");
    let card = Card::from(CharacterCard::Ningguang);
    assert_eq!(card.name(), "Ningguang");
}

#[test]
fn downcasts_follow_the_hierarchy() {
    let action = ActionCard::Equipment(EquipmentCard::Talent(TalentCard::Awakening));
    assert_eq!(action.talent(), Some(TalentCard::Awakening));
    assert_eq!(action.weapon(), None);
    assert_eq!(action.support(), None);
    assert_eq!(
        action.equipment(),
        Some(EquipmentCard::Talent(TalentCard::Awakening))
    );

    let event = EventCard::Food(FoodCard::SweetMadame);
    assert_eq!(event.food(), Some(FoodCard::SweetMadame));
    assert_eq!(event.resonance(), None);
    assert_eq!(event.event(), Some(event));

    let support = SupportCard::Item(ItemCard::NRE);
    assert_eq!(support.item(), Some(ItemCard::NRE));
    assert_eq!(support.companion(), None);

    let action = ActionCard::Support(SupportCard::Location(LocationCard::JadeChamber));
    assert_eq!(action.location(), Some(LocationCard::JadeChamber));
    assert_eq!(action.normal_event(), None);
}

#[test]
fn conversions_build_the_hierarchy() {
    let card: Card = TalentCard::Awakening.into();
    assert_eq!(
        card,
        Card::Action(ActionCard::Equipment(EquipmentCard::Talent(
            TalentCard::Awakening
        )))
    );
    let action: ActionCard = FoodCard::SweetMadame.into();
    assert_eq!(
        action,
        ActionCard::Event(EventCard::Food(FoodCard::SweetMadame))
    );
    let support: SupportCard = CompanionCard::Paimon.into();
    assert_eq!(support, SupportCard::Companion(CompanionCard::Paimon));
    let card: Card = ActionCard::Support(support).into();
    assert_eq!(
        card,
        Card::Action(ActionCard::Support(SupportCard::Companion(
            CompanionCard::Paimon
        )))
    );
}

#[test]
fn error_messages() {
    assert_eq!(
        DeckError::TooManyCharacterCards.message(),
        "deck has more than three character cards"
    );
    assert_eq!(
        DeckError::TooManyActionCards.message(),
        "deck has more than 30 action cards"
    );
    assert_eq!(
        DeckError::NotEnoughCharacterCards(2).message(),
        "decks require 3 character cards, only retrieved 2"
    );
    assert_eq!(
        DeckError::NotEnoughActionCards(29).message(),
        "decks require 30 action cards, only retrieved 29"
    );
    assert_eq!(
        DeckError::TalentRequiresCharacter(TalentCard::IGotYourBack).message(),
        "`I Got Your Back` requires `Noelle` to be present in the deck"
    );
    assert_eq!(
        DeckError::ResonanceRequiresAtLeastTwo(ElementalResonanceCard::HighVoltage).message(),
        "`High Voltage` requires at least two Electro characters in the deck"
    );
    assert_eq!(
        DeckError::CharacterAppearsMoreThanOnce(CharacterCard::Yoimiya).message(),
        "deck contains more than one `Yoimiya`"
    );
    assert_eq!(
        DeckError::ActionCardAppearsMoreThanTwice(ActionCard::Support(SupportCard::Companion(
            CompanionCard::Tubby
        )))
        .message(),
        "deck contains more than two `Tubby`"
    );
}

fn sample_deck() -> Deck {
    const NR: ActionCard = ActionCard::Support(SupportCard::Item(ItemCard::NRE));
    const WA: ActionCard = ActionCard::Support(SupportCard::Location(LocationCard::WangshuInn));
    const ST: ActionCard = ActionCard::Event(EventCard::Normal(NormalEventCard::Strategize));
    const JU: ActionCard = ActionCard::Event(EventCard::Food(FoodCard::JueyunGuoba));
    let characters = [
        CharacterCard::StonehideLawachurl,
        CharacterCard::Collei,
        CharacterCard::Noelle,
    ];
    let mut actions = Vec::new();
    for _ in 0..2 {
        actions.push(NR);
        actions.push(WA);
        actions.push(ST);
        actions.push(JU);
    }
    for group in [
        ActionCard::Equipment(EquipmentCard::Weapon(WeaponCard::WolfsGravestone)),
        ActionCard::Equipment(EquipmentCard::Weapon(WeaponCard::WhiteTassel)),
        ActionCard::Equipment(EquipmentCard::Artifact(ArtifactCard::GamblersEarrings)),
        ActionCard::Equipment(EquipmentCard::Artifact(ArtifactCard::DeepwoodMemories)),
        ActionCard::Support(SupportCard::Companion(CompanionCard::Paimon)),
        ActionCard::Support(SupportCard::Companion(CompanionCard::Liben)),
        ActionCard::Support(SupportCard::Location(LocationCard::DawnWinery)),
        ActionCard::Event(EventCard::Normal(NormalEventCard::LeaveItToMe)),
        ActionCard::Event(EventCard::Normal(NormalEventCard::AbyssalSummons)),
        ActionCard::Event(EventCard::Food(FoodCard::MintyMeatRolls)),
        ActionCard::Event(EventCard::Food(FoodCard::SweetMadame)),
    ] {
        actions.push(group);
        actions.push(group);
    }
    let cards: Vec<Card> = characters
        .iter()
        .map(|c| Card::from(*c))
        .chain(actions.iter().map(|a| Card::from(*a)))
        .collect();
    match Deck::from_iter(cards) {
        Ok(deck) => deck,
        Err(e) => panic!("sample deck must be legal: {}", e.message()),
    }
}

#[test]
fn membership_queries() {
    let deck = sample_deck();
    assert!(deck.has_character(CharacterCard::Collei));
    assert!(!deck.has_character(CharacterCard::Mona));
    assert!(deck.contains(ActionCard::Support(SupportCard::Companion(
        CompanionCard::Paimon
    ))));
    assert!(!deck.contains(ActionCard::Support(SupportCard::Companion(
        CompanionCard::Wagner
    ))));
}

#[test]
fn iteration_visits_all_thirty() {
    let deck = sample_deck();
    let mut it = deck.iter();
    let mut seen = Vec::new();
    while let Some(card) = it.next() {
        seen.push(card);
    }
    assert_eq!(seen.len(), 30);
    for card in &seen {
        assert!(deck.contains(*card));
    }
}

#[test]
fn unique_iteration_skips_adjacent_duplicates() {
    let deck = sample_deck();
    let mut it = deck.iter_unique();
    let mut seen: Vec<ActionCard> = Vec::new();
    while let Some(card) = it.next() {
        seen.push(card);
    }
    // every action of the sample deck is present exactly twice, so the
    // unique cursor yields each distinct card once
    assert_eq!(seen.len(), 15);
    for window in seen.windows(2) {
        assert_ne!(window[0], window[1]);
    }
    for card in &seen {
        assert!(deck.contains(*card));
    }
}
