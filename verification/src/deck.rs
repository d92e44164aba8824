use vstd::prelude::*;
use vstd::relations::sorted_by;
use crate::action::ActionCard;
use crate::card_trait::PlayingCard;
use crate::cards::Card;
use crate::character::CharacterCard;
use crate::element::Element;
use crate::equip::{EquipmentCard, TalentCard};
use crate::event::{ElementalResonanceCard, EventCard};
use crate::order::{action_leq, char_leq};
use crate::sort::{sort_actions, sort_characters};

verus! {

/// A deck for Genius Invokation TCG: exactly three distinct characters and
/// thirty action cards, both buckets stored in one fixed canonical order so
/// that equality is independent of the order cards were supplied in.
#[derive(Debug, Clone, PartialEq, Eq)]
pub struct Deck {
    characters: Vec<CharacterCard>,
    actions: Vec<ActionCard>,
}

/// The contract-level content of a [`Deck`]: the two canonically sorted
/// buckets.
#[verifier::ext_equal]
pub struct DeckView {
    pub characters: Seq<CharacterCard>,
    pub actions: Seq<ActionCard>,
}

impl View for Deck {
    type V = DeckView;

    closed spec fn view(&self) -> DeckView {
        DeckView { characters: self.characters@, actions: self.actions@ }
    }
}

/// Everything that can make a candidate deck illegal.
#[derive(Debug, Clone, Copy, PartialEq, Eq, Structural)]
pub enum DeckError {
    /// Character cards > 3
    TooManyCharacterCards,
    /// Action cards > 30
    TooManyActionCards,
    /// Character cards < 3 (`u8` represents current amount)
    NotEnoughCharacterCards(u8),
    /// Action cards < 30 (`u8` represents current amount)
    NotEnoughActionCards(u8),
    /// Talent card is present, but its CharacterCard requirement is not
    TalentRequiresCharacter(TalentCard),
    /// Resonance card is present, but less than 2 characters that match its element
    ResonanceRequiresAtLeastTwo(ElementalResonanceCard),
    /// Deck must include three different character cards
    CharacterAppearsMoreThanOnce(CharacterCard),
    /// Only one or two of the same action card allowed for a deck
    ActionCardAppearsMoreThanTwice(ActionCard),
}

/// Routes `cards` one at a time into the two buckets, failing the moment a
/// bucket would overflow, and checking both buckets are exactly full once
/// the input is exhausted.  `chars` and `actions` are what has been routed
/// so far.
pub open spec fn assemble_from(
    cards: Seq<Card>,
    chars: Seq<CharacterCard>,
    actions: Seq<ActionCard>,
) -> Result<(Seq<CharacterCard>, Seq<ActionCard>), DeckError>
    decreases cards.len(),
{
    if cards.len() == 0 {
        if chars.len() != 3 {
            Err(DeckError::NotEnoughCharacterCards(chars.len() as u8))
        } else if actions.len() != 30 {
            Err(DeckError::NotEnoughActionCards(actions.len() as u8))
        } else {
            Ok((chars, actions))
        }
    } else {
        match cards[0] {
            Card::Character(c) => if chars.len() == 3 {
                Err(DeckError::TooManyCharacterCards)
            } else {
                assemble_from(cards.drop_first(), chars.push(c), actions)
            },
            Card::Action(a) => if actions.len() == 30 {
                Err(DeckError::TooManyActionCards)
            } else {
                assemble_from(cards.drop_first(), chars, actions.push(a))
            },
        }
    }
}

/// The assembler: groups an arbitrary card list into the character and the
/// action bucket, or reports the first overflow, or an underflow at the end.
pub open spec fn assemble(cards: Seq<Card>) -> Result<
    (Seq<CharacterCard>, Seq<ActionCard>),
    DeckError,
> {
    assemble_from(cards, Seq::empty(), Seq::empty())
}

/// The duplicate among the three sorted characters, if any: because the
/// bucket is sorted, comparing the two adjacent pairs covers every pair.
pub open spec fn spec_duplicate_character(chars: Seq<CharacterCard>) -> Option<CharacterCard>
    recommends
        chars.len() == 3,
{
    if chars[0] == chars[1] || chars[1] == chars[2] {
        Some(chars[1])
    } else {
        None
    }
}

/// The first action card that starts a run of three equal consecutive
/// entries: in a sorted bucket such a run exists exactly when some card
/// occurs three or more times.
pub open spec fn spec_first_triplicate(actions: Seq<ActionCard>) -> Option<ActionCard>
    decreases actions.len(),
{
    if actions.len() < 3 {
        None
    } else if actions[0] == actions[1] && actions[1] == actions[2] {
        Some(actions[0])
    } else {
        spec_first_triplicate(actions.drop_first())
    }
}

/// The elemental resonance of the three characters: the first element shared
/// by a pair, checking the pairs in the fixed order (1,2), (2,3), (3,1).
pub open spec fn spec_resonance(chars: Seq<CharacterCard>) -> Option<Element>
    recommends
        chars.len() == 3,
{
    let el1 = chars[0].spec_element();
    let el2 = chars[1].spec_element();
    let el3 = chars[2].spec_element();
    if el1 == el2 {
        Some(el1)
    } else if el2 == el3 {
        Some(el2)
    } else if el3 == el1 {
        Some(el3)
    } else {
        None
    }
}

/// The first per-card dependency violation, scanning the action bucket in
/// ascending order: a talent whose character is absent, or a resonance card
/// whose element is not the shared one.
pub open spec fn spec_first_dependency_error(
    actions: Seq<ActionCard>,
    chars: Seq<CharacterCard>,
    resonance: Option<Element>,
) -> Option<DeckError>
    decreases actions.len(),
{
    if actions.len() == 0 {
        None
    } else {
        match actions[0] {
            ActionCard::Equipment(EquipmentCard::Talent(t)) => if !chars.contains(
                t.spec_character(),
            ) {
                Some(DeckError::TalentRequiresCharacter(t))
            } else {
                spec_first_dependency_error(actions.drop_first(), chars, resonance)
            },
            ActionCard::Event(EventCard::Resonance(r)) => if resonance != Some(
                r.spec_element(),
            ) {
                Some(DeckError::ResonanceRequiresAtLeastTwo(r))
            } else {
                spec_first_dependency_error(actions.drop_first(), chars, resonance)
            },
            _ => spec_first_dependency_error(actions.drop_first(), chars, resonance),
        }
    }
}

/// The validator: the structural and cross-reference checks in their fixed
/// order, reporting the first violation and never aggregating several.
pub open spec fn spec_validate(chars: Seq<CharacterCard>, actions: Seq<ActionCard>) -> Option<
    DeckError,
>
    recommends
        chars.len() == 3,
        actions.len() == 30,
{
    match spec_duplicate_character(chars) {
        Some(c) => Some(DeckError::CharacterAppearsMoreThanOnce(c)),
        None => match spec_first_triplicate(actions) {
            Some(a) => Some(DeckError::ActionCardAppearsMoreThanTwice(a)),
            None => spec_first_dependency_error(actions, chars, spec_resonance(chars)),
        },
    }
}

/// Sorting both buckets into canonical order and validating them: what both
/// constructors do after the buckets are filled.
pub open spec fn spec_build(chars: Seq<CharacterCard>, actions: Seq<ActionCard>) -> Result<
    DeckView,
    DeckError,
> {
    let sc = chars.sort_by(char_leq());
    let sa = actions.sort_by(action_leq());
    match spec_validate(sc, sa) {
        Some(e) => Err(e),
        None => Ok(DeckView { characters: sc, actions: sa }),
    }
}

/// The whole construction pipeline from an unordered card list: assemble,
/// sort, validate.
pub open spec fn spec_deck_from_cards(cards: Seq<Card>) -> Result<DeckView, DeckError> {
    match assemble(cards) {
        Err(e) => Err(e),
        Ok(buckets) => spec_build(buckets.0, buckets.1),
    }
}

impl Deck {
    /// The standing invariant of every constructed deck: full buckets in
    /// canonical order with no validation violation left.
    pub open spec fn wf(self) -> bool {
        &&& self@.characters.len() == 3
        &&& self@.actions.len() == 30
        &&& sorted_by(self@.characters, char_leq())
        &&& sorted_by(self@.actions, action_leq())
        &&& spec_validate(self@.characters, self@.actions) is None
    }

    /// Whether `card` is one of the three characters of this deck.
    pub fn has_character(&self, card: CharacterCard) -> (r: bool)
        requires
            self.wf(),
        ensures
            r == self@.characters.contains(card),
    {
        let x = &self.characters;
        let r = card == x[0] || card == x[1] || card == x[2];
        proof {
            if !r {
                assert forall|j: int| 0 <= j < self@.characters.len() implies self@.characters[j]
                    != card by {}
            }
        }
        r
    }

    /// Whether `card` is among the thirty action cards of this deck.
    pub fn contains(&self, card: ActionCard) -> (r: bool)
        requires
            self.wf(),
        ensures
            r == self@.actions.contains(card),
    {
        let mut i: usize = 0;
        while i < 30
            invariant
                self.wf(),
                i <= 30,
                forall|j: int| 0 <= j < i ==> self@.actions[j] != card,
            decreases 30 - i,
        {
            if card == self.actions[i] {
                return true;
            }
            i += 1;
        }
        false
    }

    /// A cursor over all thirty action cards in canonical order.
    pub fn iter(&self) -> (r: IterAction<'_>)
        requires
            self.wf(),
        ensures
            r.wf(),
            r@ == self@.actions,
    {
        let r = IterAction { array: &self.actions, index: 0, unique: false };
        proof {
            lemma_iter_yield_plain(self.actions@, 0);
        }
        r
    }

    /// A cursor over the action cards that skips the second entry of any
    /// adjacent equal pair: with at most two copies of a card in a sorted
    /// bucket, that is each distinct card once.
    pub fn iter_unique(&self) -> (r: IterAction<'_>)
        requires
            self.wf(),
        ensures
            r.wf(),
            r@ == iter_yield(self@.actions, 0, true),
    {
        IterAction { array: &self.actions, index: 0, unique: true }
    }

    /// Builds a deck from an arbitrary, unordered, possibly-invalid list of
    /// cards: the assembler routes and bounds the buckets, then both are
    /// sorted and validated.
    pub fn from_iter(cards: Vec<Card>) -> (r: Result<Deck, DeckError>)
        ensures
            match r {
                Ok(d) => spec_deck_from_cards(cards@) == Ok::<DeckView, DeckError>(d@) && d.wf(),
                Err(e) => spec_deck_from_cards(cards@) == Err::<DeckView, DeckError>(e),
            },
    {
        let mut char_vec: Vec<CharacterCard> = Vec::new();
        let mut action_vec: Vec<ActionCard> = Vec::new();
        let mut i: usize = 0;
        proof {
            assert(cards@.skip(0) =~= cards@);
        }
        while i < cards.len()
            invariant
                i <= cards@.len(),
                char_vec@.len() <= 3,
                action_vec@.len() <= 30,
                assemble(cards@) == assemble_from(cards@.skip(i as int), char_vec@, action_vec@),
            decreases cards@.len() - i,
        {
            proof {
                assert(cards@.skip(i as int)[0] == cards@[i as int]);
                assert(cards@.skip(i as int).drop_first() =~= cards@.skip(i as int + 1));
            }
            match cards[i] {
                Card::Character(character) => {
                    if char_vec.len() == 3 {
                        return Err(DeckError::TooManyCharacterCards);
                    }
                    char_vec.push(character);
                },
                Card::Action(action) => {
                    if action_vec.len() == 30 {
                        return Err(DeckError::TooManyActionCards);
                    }
                    action_vec.push(action);
                },
            }
            i += 1;
        }
        proof {
            assert(cards@.skip(cards@.len() as int) =~= Seq::<Card>::empty());
        }
        if char_vec.len() != 3 {
            return Err(DeckError::NotEnoughCharacterCards(char_vec.len() as u8));
        }
        if action_vec.len() != 30 {
            return Err(DeckError::NotEnoughActionCards(action_vec.len() as u8));
        }
        Self::build(char_vec, action_vec)
    }

    /// Builds a deck from buckets that already hold exactly 3 characters and
    /// 30 actions, skipping only the assembler's overflow and underflow
    /// checks: the buckets are still sorted and fully validated.
    pub fn from_exact(characters: [CharacterCard; 3], actions: [ActionCard; 30]) -> (r: Result<
        Deck,
        DeckError,
    >)
        ensures
            match r {
                Ok(d) => spec_build(characters@, actions@) == Ok::<DeckView, DeckError>(d@)
                    && d.wf(),
                Err(e) => spec_build(characters@, actions@) == Err::<DeckView, DeckError>(e),
            },
    {
        let mut char_vec: Vec<CharacterCard> = Vec::new();
        let mut i: usize = 0;
        while i < 3
            invariant
                i <= 3,
                char_vec@ == characters@.take(i as int),
            decreases 3 - i,
        {
            char_vec.push(*vstd::array::array_index_get(&characters, i));
            proof {
                assert(characters@.take(i as int + 1) =~= characters@.take(i as int).push(
                    characters@[i as int],
                ));
            }
            i += 1;
        }
        let mut action_vec: Vec<ActionCard> = Vec::new();
        let mut j: usize = 0;
        while j < 30
            invariant
                j <= 30,
                action_vec@ == actions@.take(j as int),
            decreases 30 - j,
        {
            action_vec.push(*vstd::array::array_index_get(&actions, j));
            proof {
                assert(actions@.take(j as int + 1) =~= actions@.take(j as int).push(
                    actions@[j as int],
                ));
            }
            j += 1;
        }
        proof {
            assert(characters@.take(3) =~= characters@);
            assert(actions@.take(30) =~= actions@);
        }
        Self::build(char_vec, action_vec)
    }

    /// Shared tail of both constructors: sort canonically, validate, wrap.
    fn build(char_vec: Vec<CharacterCard>, action_vec: Vec<ActionCard>) -> (r: Result<
        Deck,
        DeckError,
    >)
        requires
            char_vec@.len() == 3,
            action_vec@.len() == 30,
        ensures
            match r {
                Ok(d) => spec_build(char_vec@, action_vec@) == Ok::<DeckView, DeckError>(d@)
                    && d.wf(),
                Err(e) => spec_build(char_vec@, action_vec@) == Err::<DeckView, DeckError>(e),
            },
    {
        let char_sorted = sort_characters(char_vec);
        let action_sorted = sort_actions(action_vec);
        match Self::verify(&char_sorted, &action_sorted) {
            Err(e) => Err(e),
            Ok(_) => Ok(Deck { characters: char_sorted, actions: action_sorted }),
        }
    }

    /// The validator itself, on already sorted buckets: checks character
    /// uniqueness, the duplicate limit, and the per-card dependencies, in
    /// that order, and reports the first violation.
    fn verify(characters: &Vec<CharacterCard>, actions: &Vec<ActionCard>) -> (r: Result<
        (),
        DeckError,
    >)
        requires
            characters@.len() == 3,
            actions@.len() == 30,
        ensures
            match r {
                Ok(_) => spec_validate(characters@, actions@) is None,
                Err(e) => spec_validate(characters@, actions@) == Some(e),
            },
    {
        if characters[0] == characters[1] || characters[1] == characters[2] {
            // the bucket is sorted, so a duplicate pair is adjacent and
            // comparing against characters[2] separately is not needed
            return Err(DeckError::CharacterAppearsMoreThanOnce(characters[1]));
        }
        let mut i: usize = 0;
        proof {
            assert(actions@.skip(0) =~= actions@);
        }
        while i < 28
            invariant
                i <= 28,
                characters@.len() == 3,
                actions@.len() == 30,
                spec_duplicate_character(characters@) is None,
                spec_first_triplicate(actions@.skip(i as int)) == spec_first_triplicate(actions@),
            decreases 28 - i,
        {
            proof {
                assert(actions@.skip(i as int)[0] == actions@[i as int]);
                assert(actions@.skip(i as int)[1] == actions@[i as int + 1]);
                assert(actions@.skip(i as int)[2] == actions@[i as int + 2]);
                assert(actions@.skip(i as int).drop_first() =~= actions@.skip(i as int + 1));
            }
            if actions[i] == actions[i + 1] && actions[i + 1] == actions[i + 2] {
                return Err(DeckError::ActionCardAppearsMoreThanTwice(actions[i]));
            }
            i += 1;
        }
        proof {
            assert(actions@.skip(28).len() < 3);
        }
        // Whether there is elemental resonance within the characters, that
        // is, two or three characters of the same element
        let el1 = characters[0].element();
        let el2 = characters[1].element();
        let el3 = characters[2].element();
        let resonance: Option<Element> = if el1 == el2 {
            Some(el1)
        } else if el2 == el3 {
            Some(el2)
        } else if el3 == el1 {
            Some(el3)
        } else {
            None
        };
        let mut i: usize = 0;
        proof {
            assert(actions@.skip(0) =~= actions@);
        }
        while i < 30
            invariant
                i <= 30,
                characters@.len() == 3,
                actions@.len() == 30,
                spec_duplicate_character(characters@) is None,
                spec_first_triplicate(actions@) is None,
                resonance == spec_resonance(characters@),
                spec_first_dependency_error(actions@.skip(i as int), characters@, resonance)
                    == spec_first_dependency_error(actions@, characters@, resonance),
            decreases 30 - i,
        {
            proof {
                assert(actions@.skip(i as int)[0] == actions@[i as int]);
                assert(actions@.skip(i as int).drop_first() =~= actions@.skip(i as int + 1));
            }
            match actions[i] {
                ActionCard::Equipment(EquipmentCard::Talent(talent)) => {
                    let required = talent.character();
                    if !contains_char(characters, required) {
                        return Err(DeckError::TalentRequiresCharacter(talent));
                    }
                },
                ActionCard::Event(EventCard::Resonance(elemental)) => {
                    let required = elemental.element();
                    let mismatch = match resonance {
                        Some(el) => el != required,
                        None => true,
                    };
                    if mismatch {
                        return Err(DeckError::ResonanceRequiresAtLeastTwo(elemental));
                    }
                },
                _ => {},
            }
            i += 1;
        }
        proof {
            assert(actions@.skip(30).len() == 0);
        }
        Ok(())
    }
}

/// Relies on `String::push_str`: it appends the given string slice onto the
/// end of the string.
pub assume_specification[ String::push_str ](s: &mut String, other: &str)
    ensures
        final(s)@ == old(s)@ + other@,
;

/// The character for a single decimal digit.
pub open spec fn digit_char(d: int) -> char {
    if d == 0 {
        '0'
    } else if d == 1 {
        '1'
    } else if d == 2 {
        '2'
    } else if d == 3 {
        '3'
    } else if d == 4 {
        '4'
    } else if d == 5 {
        '5'
    } else if d == 6 {
        '6'
    } else if d == 7 {
        '7'
    } else if d == 8 {
        '8'
    } else {
        '9'
    }
}

/// The decimal numeral of `n`, most significant digit first.
pub open spec fn spec_decimal(n: int) -> Seq<char>
    decreases n,
{
    if n < 10 {
        seq![digit_char(n)]
    } else {
        spec_decimal(n / 10) + seq![digit_char(n % 10)]
    }
}

/// The one-character string for a single decimal digit.
fn digit_str(d: u8) -> (r: &'static str)
    requires
        d < 10,
    ensures
        r@ == seq![digit_char(d as int)],
{
    proof {
        reveal_strlit("0");
        reveal_strlit("1");
        reveal_strlit("2");
        reveal_strlit("3");
        reveal_strlit("4");
        reveal_strlit("5");
        reveal_strlit("6");
        reveal_strlit("7");
        reveal_strlit("8");
        reveal_strlit("9");
    }
    let r: &'static str = match d {
        0 => "0",
        1 => "1",
        2 => "2",
        3 => "3",
        4 => "4",
        5 => "5",
        6 => "6",
        7 => "7",
        8 => "8",
        _ => "9",
    };
    proof {
        assert(r@ =~= seq![digit_char(d as int)]);
    }
    r
}

/// Appends the decimal numeral of `n` to `s`.
fn push_decimal(s: &mut String, n: u8)
    ensures
        final(s)@ == old(s)@ + spec_decimal(n as int),
{
    if n >= 100 {
        s.push_str(digit_str(n / 100));
        s.push_str(digit_str((n / 10) % 10));
        s.push_str(digit_str(n % 10));
        proof {
            let m = n as int;
            assert(m / 10 / 10 == m / 100) by (nonlinear_arith);
            assert(spec_decimal(m) == spec_decimal(m / 10) + seq![digit_char(m % 10)]);
            assert(spec_decimal(m / 10) == spec_decimal(m / 10 / 10) + seq![
                digit_char(m / 10 % 10),
            ]);
            assert(spec_decimal(m / 100) == seq![digit_char(m / 100)]);
            assert(s@ =~= old(s)@ + spec_decimal(n as int));
        }
    } else if n >= 10 {
        s.push_str(digit_str(n / 10));
        s.push_str(digit_str(n % 10));
        proof {
            let m = n as int;
            assert(spec_decimal(m) == spec_decimal(m / 10) + seq![digit_char(m % 10)]);
            assert(spec_decimal(m / 10) == seq![digit_char(m / 10)]);
            assert(s@ =~= old(s)@ + spec_decimal(n as int));
        }
    } else {
        s.push_str(digit_str(n));
        proof {
            assert(s@ =~= old(s)@ + spec_decimal(n as int));
        }
    }
}

impl DeckError {
    /// The diagnostic text of [`Self::message`].
    pub open spec fn spec_message(self) -> Seq<char> {
        match self {
            DeckError::TalentRequiresCharacter(card) => "`"@ + card.spec_name()
                + "` requires `"@ + card.spec_character().spec_name()
                + "` to be present in the deck"@,
            DeckError::ResonanceRequiresAtLeastTwo(card) => "`"@ + card.spec_name()
                + "` requires at least two "@ + card.spec_element().spec_word()
                + " characters in the deck"@,
            DeckError::CharacterAppearsMoreThanOnce(card) => "deck contains more than one `"@
                + card.spec_name() + "`"@,
            DeckError::ActionCardAppearsMoreThanTwice(card) => "deck contains more than two `"@
                + card.spec_name() + "`"@,
            DeckError::TooManyCharacterCards => "deck has more than three character cards"@,
            DeckError::TooManyActionCards => "deck has more than 30 action cards"@,
            DeckError::NotEnoughCharacterCards(x) => "decks require 3 character cards, only retrieved "@
                + spec_decimal(x as int),
            DeckError::NotEnoughActionCards(x) => "decks require 30 action cards, only retrieved "@
                + spec_decimal(x as int),
        }
    }

    /// The human-readable description of this violation, combining the
    /// structured error with the catalog names.
    pub fn message(&self) -> (r: String)
        ensures
            r@ == self.spec_message(),
    {
        match self {
            DeckError::TalentRequiresCharacter(card) => {
                let mut s = "`".to_owned();
                s.push_str(card.name());
                s.push_str("` requires `");
                s.push_str(card.character().name());
                s.push_str("` to be present in the deck");
                proof {
                    assert(s@ =~= self.spec_message());
                }
                s
            },
            DeckError::ResonanceRequiresAtLeastTwo(card) => {
                let mut s = "`".to_owned();
                s.push_str(card.name());
                s.push_str("` requires at least two ");
                s.push_str(card.element().word());
                s.push_str(" characters in the deck");
                proof {
                    assert(s@ =~= self.spec_message());
                }
                s
            },
            DeckError::CharacterAppearsMoreThanOnce(card) => {
                let mut s = "deck contains more than one `".to_owned();
                s.push_str(card.name());
                s.push_str("`");
                proof {
                    assert(s@ =~= self.spec_message());
                }
                s
            },
            DeckError::ActionCardAppearsMoreThanTwice(card) => {
                let mut s = "deck contains more than two `".to_owned();
                s.push_str(card.name());
                s.push_str("`");
                proof {
                    assert(s@ =~= self.spec_message());
                }
                s
            },
            DeckError::TooManyCharacterCards => "deck has more than three character cards".to_owned(),
            DeckError::TooManyActionCards => "deck has more than 30 action cards".to_owned(),
            DeckError::NotEnoughCharacterCards(x) => {
                let mut s = "decks require 3 character cards, only retrieved ".to_owned();
                push_decimal(&mut s, *x);
                proof {
                    assert(s@ =~= self.spec_message());
                }
                s
            },
            DeckError::NotEnoughActionCards(x) => {
                let mut s = "decks require 30 action cards, only retrieved ".to_owned();
                push_decimal(&mut s, *x);
                proof {
                    assert(s@ =~= self.spec_message());
                }
                s
            },
        }
    }
}

/// Whether `card` is among the three characters of the bucket.
fn contains_char(chars: &Vec<CharacterCard>, card: CharacterCard) -> (r: bool)
    ensures
        r == chars@.contains(card),
{
    let mut i: usize = 0;
    while i < chars.len()
        invariant
            i <= chars@.len(),
            forall|j: int| 0 <= j < i ==> chars@[j] != card,
        decreases chars@.len() - i,
    {
        if chars[i] == card {
            return true;
        }
        i += 1;
    }
    false
}

/// What a cursor starting at position `i` will yield: each visited card in
/// order, where in unique mode the second entry of an adjacent equal pair
/// is skipped.
pub open spec fn iter_yield(s: Seq<ActionCard>, i: int, unique: bool) -> Seq<ActionCard>
    decreases s.len() - i,
{
    if i < 0 || i >= s.len() {
        Seq::empty()
    } else {
        let next = if unique && i + 1 < s.len() && s[i] == s[i + 1] {
            i + 2
        } else {
            i + 1
        };
        seq![s[i]] + iter_yield(s, next, unique)
    }
}

/// A plain cursor yields exactly the remaining entries in order.
proof fn lemma_iter_yield_plain(s: Seq<ActionCard>, i: int)
    requires
        0 <= i <= s.len(),
    ensures
        iter_yield(s, i, false) =~= s.skip(i),
    decreases s.len() - i,
{
    if i < s.len() {
        lemma_iter_yield_plain(s, i + 1);
        assert(s.skip(i) =~= seq![s[i]] + s.skip(i + 1));
    }
}

/// Helper struct for iterating over action cards in a [`Deck`]
///
/// Can only be created with the [`iter`] and [`iter_unique`] methods
///
/// [`iter`]: Deck::iter
/// [`iter_unique`]: Deck::iter_unique
pub struct IterAction<'d> {
    array: &'d Vec<ActionCard>,
    index: usize,
    unique: bool,
}

impl<'d> View for IterAction<'d> {
    type V = Seq<ActionCard>;

    closed spec fn view(&self) -> Seq<ActionCard> {
        iter_yield(self.array@, self.index as int, self.unique)
    }
}

impl<'d> IterAction<'d> {
    /// The cursor walks a thirty-card bucket and never runs past its end.
    pub closed spec fn wf(self) -> bool {
        self.array@.len() == 30 && self.index <= 30
    }

    /// Yields the next card, or `None` once the cursor is exhausted.
    pub fn next(&mut self) -> (r: Option<ActionCard>)
        requires
            old(self).wf(),
        ensures
            final(self).wf(),
            match r {
                Some(card) => old(self)@.len() > 0 && card == old(self)@[0] && final(self)@ == old(
                    self,
                )@.drop_first(),
                None => old(self)@.len() == 0 && final(self)@ == old(self)@,
            },
    {
        if self.index < 30 {
            let card = self.array[self.index];
            let ghost yielded = self@;
            if self.unique && self.index < 29 {
                if card == self.array[self.index + 1] {
                    self.index += 2;
                } else {
                    self.index += 1;
                }
            } else {
                self.index += 1;
            }
            proof {
                assert(yielded == seq![card] + self@);
                assert((seq![card] + self@).drop_first() =~= self@);
            }
            Some(card)
        } else {
            None
        }
    }
}

} // verus!
