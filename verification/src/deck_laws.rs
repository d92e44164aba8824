use vstd::prelude::*;
use vstd::relations::sorted_by;
use vstd::seq_lib::{lemma_multiset_commutative, lemma_sorted_unique};
use crate::action::{action_rank, lemma_action_rank_injective, ActionCard};
use crate::cards::Card;
use crate::character::{char_index, lemma_char_index_injective, CharacterCard};
use crate::deck::{
    assemble, assemble_from, spec_build, spec_deck_from_cards, spec_duplicate_character,
    spec_first_dependency_error, spec_first_triplicate, spec_resonance, spec_validate, Deck,
    DeckError,
};
use crate::element::Element;
use crate::equip::EquipmentCard;
use crate::event::EventCard;
use crate::order::{action_leq, char_leq, lemma_action_leq_total, lemma_char_leq_total};
use crate::sort::lemma_insert_to_multiset;

verus! {

broadcast use
    vstd::seq_lib::group_to_multiset_ensures,
    vstd::multiset::group_multiset_axioms;

/// Whether a run of three equal entries starts at position `i`.
pub open spec fn triple_at(s: Seq<ActionCard>, i: int) -> bool {
    0 <= i && i + 2 < s.len() && s[i] == s[i + 1] && s[i + 1] == s[i + 2]
}

/// The duplicate-limit scan finds a run exactly when one exists, and the
/// card it reports heads such a run.
proof fn lemma_first_triplicate_characterize(s: Seq<ActionCard>)
    ensures
        match spec_first_triplicate(s) {
            Some(c) => exists|i: int| #[trigger] triple_at(s, i) && s[i] == c,
            None => forall|i: int| !(#[trigger] triple_at(s, i)),
        },
    decreases s.len(),
{
    if s.len() < 3 {
    } else if s[0] == s[1] && s[1] == s[2] {
        assert(triple_at(s, 0));
    } else {
        let t = s.drop_first();
        lemma_first_triplicate_characterize(t);
        match spec_first_triplicate(t) {
            Some(c) => {
                let i = choose|i: int| #[trigger] triple_at(t, i) && t[i] == c;
                assert(triple_at(s, i + 1));
                assert(s[i + 1] == c);
            },
            None => {
                assert forall|i: int| !(#[trigger] triple_at(s, i)) by {
                    if triple_at(s, i) {
                        if i == 0 {
                        } else {
                            assert(triple_at(t, i - 1));
                        }
                    }
                }
            },
        }
    }
}

/// In a canonically sorted bucket, any three positions holding one card are
/// squeezed into a consecutive run.
proof fn lemma_sorted_three_indices(s: Seq<ActionCard>, i: int, j: int, k: int)
    requires
        sorted_by(s, action_leq()),
        0 <= i < j < k < s.len(),
        s[i] == s[j],
        s[j] == s[k],
    ensures
        triple_at(s, i),
{
    let leq = action_leq();
    assert(leq(s[i], s[i + 1]) && leq(s[i + 1], s[k]));
    assert(action_rank(s[i]) == action_rank(s[k]));
    lemma_action_rank_injective(s[i], s[i + 1]);
    assert(leq(s[i + 1], s[i + 2]) && leq(s[i + 2], s[k]));
    lemma_action_rank_injective(s[i + 1], s[i + 2]);
}

/// A value held at two distinct positions at least, counted.
proof fn lemma_count_two_indices<A>(s: Seq<A>, a: A)
    requires
        s.to_multiset().count(a) >= 2,
    ensures
        exists|i: int, j: int|
            #![trigger s[i], s[j]]
            0 <= i < j < s.len() && s[i] == a && s[j] == a,
    decreases s.len(),
{
    assert(s.to_multiset().contains(a));
    assert(s.len() > 0);
    let rest = s.drop_first();
    assert(rest =~= s.remove(0));
    assert(rest.to_multiset() == s.to_multiset().remove(s[0]));
    if s[0] == a {
        assert(rest.to_multiset().count(a) >= 1);
        assert(rest.contains(a));
        let w = choose|w: int| 0 <= w < rest.len() && rest[w] == a;
        assert(s[w + 1] == a);
        assert(s[0] == a && s[w + 1] == a);
    } else {
        assert(rest.to_multiset().count(a) >= 2);
        lemma_count_two_indices(rest, a);
        let (i, j) = choose|i: int, j: int|
            #![trigger rest[i], rest[j]]
            0 <= i < j < rest.len() && rest[i] == a && rest[j] == a;
        assert(s[i + 1] == a && s[j + 1] == a);
    }
}

/// A value held at three distinct positions at least, counted.
proof fn lemma_count_three_indices<A>(s: Seq<A>, a: A)
    requires
        s.to_multiset().count(a) >= 3,
    ensures
        exists|i: int, j: int, k: int|
            #![trigger s[i], s[j], s[k]]
            0 <= i < j < k < s.len() && s[i] == a && s[j] == a && s[k] == a,
    decreases s.len(),
{
    assert(s.to_multiset().contains(a));
    assert(s.len() > 0);
    let rest = s.drop_first();
    assert(rest =~= s.remove(0));
    assert(rest.to_multiset() == s.to_multiset().remove(s[0]));
    if s[0] == a {
        assert(rest.to_multiset().count(a) >= 2);
        lemma_count_two_indices(rest, a);
        let (i, j) = choose|i: int, j: int|
            #![trigger rest[i], rest[j]]
            0 <= i < j < rest.len() && rest[i] == a && rest[j] == a;
        assert(s[0] == a && s[i + 1] == a && s[j + 1] == a);
    } else {
        assert(rest.to_multiset().count(a) >= 3);
        lemma_count_three_indices(rest, a);
        let (i, j, k) = choose|i: int, j: int, k: int|
            #![trigger rest[i], rest[j], rest[k]]
            0 <= i < j < k < rest.len() && rest[i] == a && rest[j] == a && rest[k] == a;
        assert(s[i + 1] == a && s[j + 1] == a && s[k + 1] == a);
    }
}

/// Two distinct positions holding one value, counted back.
proof fn lemma_indices_count_two<A>(s: Seq<A>, i: int, j: int)
    requires
        0 <= i < j < s.len(),
        s[i] == s[j],
    ensures
        s.to_multiset().count(s[i]) >= 2,
    decreases s.len(),
{
    let a = s[i];
    let rest = s.drop_first();
    assert(rest =~= s.remove(0));
    assert(rest.to_multiset() == s.to_multiset().remove(s[0]));
    if i == 0 {
        assert(rest[j - 1] == a);
        assert(rest.contains(a));
        assert(rest.to_multiset().count(a) >= 1);
    } else {
        lemma_indices_count_two(rest, i - 1, j - 1);
    }
}

/// Three distinct positions holding one value, counted back.
proof fn lemma_indices_count_three<A>(s: Seq<A>, i: int, j: int, k: int)
    requires
        0 <= i < j < k < s.len(),
        s[i] == s[j],
        s[j] == s[k],
    ensures
        s.to_multiset().count(s[i]) >= 3,
    decreases s.len(),
{
    let a = s[i];
    let rest = s.drop_first();
    assert(rest =~= s.remove(0));
    assert(rest.to_multiset() == s.to_multiset().remove(s[0]));
    if i == 0 {
        assert(rest[j - 1] == a && rest[k - 1] == a);
        lemma_indices_count_two(rest, j - 1, k - 1);
    } else {
        lemma_indices_count_three(rest, i - 1, j - 1, k - 1);
    }
}

/// Membership carries over between sequences with equal multisets.
proof fn lemma_contains_permute<A>(a: Seq<A>, b: Seq<A>, x: A)
    requires
        a.to_multiset() == b.to_multiset(),
        a.contains(x),
    ensures
        b.contains(x),
{
    assert(a.to_multiset().count(x) > 0);
    assert(b.to_multiset().count(x) > 0);
}

/// A valid deck always has exactly three pairwise distinct characters and
/// thirty actions, each action card occurring at most twice.
pub proof fn lemma_deck_shape(d: Deck)
    requires
        d.wf(),
    ensures
        d@.characters.len() == 3,
        d@.characters[0] != d@.characters[1],
        d@.characters[0] != d@.characters[2],
        d@.characters[1] != d@.characters[2],
        d@.actions.len() == 30,
        forall|i: int, j: int, k: int|
            #![trigger d@.actions[i], d@.actions[j], d@.actions[k]]
            0 <= i < j < k < 30 ==> !(d@.actions[i] == d@.actions[j] && d@.actions[j]
                == d@.actions[k]),
        forall|a: ActionCard| d@.actions.to_multiset().count(a) <= 2,
{
    let chars = d@.characters;
    let acts = d@.actions;
    let leq = char_leq();
    assert(leq(chars[0], chars[1]) && leq(chars[1], chars[2]));
    if chars[0] == chars[2] {
        lemma_char_index_injective(chars[0], chars[1]);
        assert(false);
    }
    lemma_first_triplicate_characterize(acts);
    assert forall|i: int, j: int, k: int|
        #![trigger acts[i], acts[j], acts[k]]
        0 <= i < j < k < 30 implies !(acts[i] == acts[j] && acts[j] == acts[k]) by {
        if acts[i] == acts[j] && acts[j] == acts[k] {
            lemma_sorted_three_indices(acts, i, j, k);
            assert(triple_at(acts, i));
        }
    }
    assert forall|a: ActionCard| acts.to_multiset().count(a) <= 2 by {
        if acts.to_multiset().count(a) >= 3 {
            lemma_count_three_indices(acts, a);
            let (i, j, k) = choose|i: int, j: int, k: int|
                #![trigger acts[i], acts[j], acts[k]]
                0 <= i < j < k < acts.len() && acts[i] == a && acts[j] == a && acts[k] == a;
            lemma_sorted_three_indices(acts, i, j, k);
            assert(triple_at(acts, i));
        }
    }
}

/// The character cards of a card list, in order.
pub open spec fn spec_characters_of(cards: Seq<Card>) -> Seq<CharacterCard>
    decreases cards.len(),
{
    if cards.len() == 0 {
        Seq::empty()
    } else {
        let rest = spec_characters_of(cards.drop_first());
        match cards[0] {
            Card::Character(c) => seq![c] + rest,
            Card::Action(_) => rest,
        }
    }
}

/// The action cards of a card list, in order.
pub open spec fn spec_actions_of(cards: Seq<Card>) -> Seq<ActionCard>
    decreases cards.len(),
{
    if cards.len() == 0 {
        Seq::empty()
    } else {
        let rest = spec_actions_of(cards.drop_first());
        match cards[0] {
            Card::Character(_) => rest,
            Card::Action(a) => seq![a] + rest,
        }
    }
}

/// Both projections distribute over concatenation.
proof fn lemma_projections_concat(a: Seq<Card>, b: Seq<Card>)
    ensures
        spec_characters_of(a + b) == spec_characters_of(a) + spec_characters_of(b),
        spec_actions_of(a + b) == spec_actions_of(a) + spec_actions_of(b),
    decreases a.len(),
{
    if a.len() == 0 {
        assert(a + b =~= b);
        assert(spec_characters_of(a) + spec_characters_of(b) =~= spec_characters_of(b));
        assert(spec_actions_of(a) + spec_actions_of(b) =~= spec_actions_of(b));
    } else {
        assert((a + b).len() > 0);
        assert((a + b)[0] == a[0]);
        assert((a + b).drop_first() =~= a.drop_first() + b);
        lemma_projections_concat(a.drop_first(), b);
        match a[0] {
            Card::Character(c) => {
                assert(seq![c] + (spec_characters_of(a.drop_first()) + spec_characters_of(b))
                    =~= (seq![c] + spec_characters_of(a.drop_first())) + spec_characters_of(b));
            },
            Card::Action(x) => {
                assert(seq![x] + (spec_actions_of(a.drop_first()) + spec_actions_of(b))
                    =~= (seq![x] + spec_actions_of(a.drop_first())) + spec_actions_of(b));
            },
        }
    }
}

/// The multisets of both projections depend only on the multiset of the
/// card list, not on its order.
proof fn lemma_projections_multiset(c1: Seq<Card>, c2: Seq<Card>)
    requires
        c1.to_multiset() == c2.to_multiset(),
    ensures
        spec_characters_of(c1).to_multiset() == spec_characters_of(c2).to_multiset(),
        spec_actions_of(c1).to_multiset() == spec_actions_of(c2).to_multiset(),
    decreases c1.len(),
{
    if c1.len() == 0 {
        assert(c2.to_multiset().len() == 0);
        assert(c2.len() == 0);
    } else {
        let x = c1[0];
        assert(c1.contains(x));
        assert(c2.to_multiset().count(x) > 0);
        assert(c2.contains(x));
        let i = choose|i: int| 0 <= i < c2.len() && c2[i] == x;
        let rest1 = c1.drop_first();
        let rest2 = c2.remove(i);
        assert(c1.drop_first() =~= c1.remove(0));
        assert(rest1.to_multiset() == c1.to_multiset().remove(x));
        assert(rest2.to_multiset() == c2.to_multiset().remove(x));
        lemma_projections_multiset(rest1, rest2);

        // decompose c2 around position i
        let left = c2.subrange(0, i);
        let right = c2.subrange(i + 1, c2.len() as int);
        assert(c2 =~= left + (seq![x] + right));
        lemma_projections_concat(left, seq![x] + right);
        lemma_projections_concat(seq![x], right);
        lemma_projections_concat(left, right);
        assert(seq![x].len() == 1);
        assert(seq![x][0] == x);
        assert(seq![x].drop_first() =~= Seq::<Card>::empty());
        assert(spec_characters_of(Seq::<Card>::empty()) =~= Seq::<CharacterCard>::empty());
        assert(spec_actions_of(Seq::<Card>::empty()) =~= Seq::<ActionCard>::empty());
        assert(rest2 == left + right);

        match x {
            Card::Character(xc) => {
                assert(spec_characters_of(seq![x]) =~= seq![xc]);
                assert(spec_actions_of(seq![x]) =~= Seq::<ActionCard>::empty());
                assert(spec_characters_of(c1) == seq![xc] + spec_characters_of(rest1));
                assert(spec_characters_of(c1).to_multiset() == spec_characters_of(
                    rest1,
                ).to_multiset().insert(xc)) by {
                    assert(seq![xc] + spec_characters_of(rest1) =~= spec_characters_of(
                        rest1,
                    ).insert(0, xc));
                    lemma_insert_to_multiset(spec_characters_of(rest1), 0, xc);
                }
                assert(spec_characters_of(c2) == (spec_characters_of(left) + seq![xc])
                    + spec_characters_of(right));
                assert((spec_characters_of(left) + seq![xc]) + spec_characters_of(right)
                    =~= (spec_characters_of(left) + spec_characters_of(right)).insert(
                    spec_characters_of(left).len() as int,
                    xc,
                ));
                lemma_insert_to_multiset(
                    spec_characters_of(left) + spec_characters_of(right),
                    spec_characters_of(left).len() as int,
                    xc,
                );
                assert(spec_characters_of(c2).to_multiset() == spec_characters_of(
                    rest2,
                ).to_multiset().insert(xc));
                assert(spec_actions_of(c1) == spec_actions_of(rest1));
                assert(spec_actions_of(c2) =~= spec_actions_of(left) + spec_actions_of(right));
                assert(spec_actions_of(c2).to_multiset() == spec_actions_of(rest2).to_multiset());
            },
            Card::Action(xa) => {
                assert(spec_actions_of(seq![x]) =~= seq![xa]);
                assert(spec_characters_of(seq![x]) =~= Seq::<CharacterCard>::empty());
                assert(spec_actions_of(c1) == seq![xa] + spec_actions_of(rest1));
                assert(spec_actions_of(c1).to_multiset() == spec_actions_of(
                    rest1,
                ).to_multiset().insert(xa)) by {
                    assert(seq![xa] + spec_actions_of(rest1) =~= spec_actions_of(rest1).insert(
                        0,
                        xa,
                    ));
                    lemma_insert_to_multiset(spec_actions_of(rest1), 0, xa);
                }
                assert(spec_actions_of(c2) == (spec_actions_of(left) + seq![xa])
                    + spec_actions_of(right));
                assert((spec_actions_of(left) + seq![xa]) + spec_actions_of(right)
                    =~= (spec_actions_of(left) + spec_actions_of(right)).insert(
                    spec_actions_of(left).len() as int,
                    xa,
                ));
                lemma_insert_to_multiset(
                    spec_actions_of(left) + spec_actions_of(right),
                    spec_actions_of(left).len() as int,
                    xa,
                );
                assert(spec_actions_of(c2).to_multiset() == spec_actions_of(
                    rest2,
                ).to_multiset().insert(xa));
                assert(spec_characters_of(c1) == spec_characters_of(rest1));
                assert(spec_characters_of(c2) =~= spec_characters_of(left) + spec_characters_of(
                    right,
                ));
                assert(spec_characters_of(c2).to_multiset() == spec_characters_of(
                    rest2,
                ).to_multiset());
            },
        }
    }
}

/// The assembler succeeds exactly when the list splits into three characters
/// and thirty actions, and then returns those projections.
proof fn lemma_assemble_characterize(
    cards: Seq<Card>,
    chars: Seq<CharacterCard>,
    actions: Seq<ActionCard>,
)
    requires
        chars.len() <= 3,
        actions.len() <= 30,
    ensures
        (chars.len() + spec_characters_of(cards).len() == 3 && actions.len() + spec_actions_of(
            cards,
        ).len() == 30) ==> assemble_from(cards, chars, actions) == Ok::<
            (Seq<CharacterCard>, Seq<ActionCard>),
            DeckError,
        >((chars + spec_characters_of(cards), actions + spec_actions_of(cards))),
        (chars.len() + spec_characters_of(cards).len() != 3 || actions.len() + spec_actions_of(
            cards,
        ).len() != 30) ==> (assemble_from(cards, chars, actions) is Err),
    decreases cards.len(),
{
    if cards.len() == 0 {
        assert(chars + spec_characters_of(cards) =~= chars);
        assert(actions + spec_actions_of(cards) =~= actions);
    } else {
        match cards[0] {
            Card::Character(c) => {
                if chars.len() == 3 {
                    assert(spec_characters_of(cards).len() >= 1);
                } else {
                    lemma_assemble_characterize(cards.drop_first(), chars.push(c), actions);
                    assert(chars.push(c) + spec_characters_of(cards.drop_first()) =~= chars + (
                    seq![c] + spec_characters_of(cards.drop_first())));
                }
            },
            Card::Action(a) => {
                if actions.len() == 30 {
                    assert(spec_actions_of(cards).len() >= 1);
                } else {
                    lemma_assemble_characterize(cards.drop_first(), chars, actions.push(a));
                    assert(actions.push(a) + spec_actions_of(cards.drop_first()) =~= actions + (
                    seq![a] + spec_actions_of(cards.drop_first())));
                }
            },
        }
    }
}

/// For any permutation of a card list that builds a deck successfully,
/// construction from the permuted list yields the same deck.
pub proof fn lemma_deck_permutation(c1: Seq<Card>, c2: Seq<Card>)
    requires
        c1.to_multiset() == c2.to_multiset(),
        spec_deck_from_cards(c1) is Ok,
    ensures
        spec_deck_from_cards(c2) == spec_deck_from_cards(c1),
{
    let chars1 = spec_characters_of(c1);
    let acts1 = spec_actions_of(c1);
    let chars2 = spec_characters_of(c2);
    let acts2 = spec_actions_of(c2);
    lemma_assemble_characterize(c1, Seq::empty(), Seq::empty());
    lemma_assemble_characterize(c2, Seq::empty(), Seq::empty());
    assert(assemble(c1) is Ok);
    assert(chars1.len() == 3 && acts1.len() == 30);
    lemma_projections_multiset(c1, c2);
    assert(chars1.to_multiset().len() == chars1.len());
    assert(chars2.to_multiset().len() == chars2.len());
    assert(acts1.to_multiset().len() == acts1.len());
    assert(acts2.to_multiset().len() == acts2.len());
    assert(chars2.len() == 3 && acts2.len() == 30);
    assert(Seq::<CharacterCard>::empty() + chars1 =~= chars1);
    assert(Seq::<ActionCard>::empty() + acts1 =~= acts1);
    assert(Seq::<CharacterCard>::empty() + chars2 =~= chars2);
    assert(Seq::<ActionCard>::empty() + acts2 =~= acts2);
    assert(assemble(c1) == Ok::<(Seq<CharacterCard>, Seq<ActionCard>), DeckError>((
        chars1,
        acts1,
    )));
    assert(assemble(c2) == Ok::<(Seq<CharacterCard>, Seq<ActionCard>), DeckError>((
        chars2,
        acts2,
    )));
    lemma_char_leq_total();
    lemma_action_leq_total();
    chars1.lemma_sort_by_ensures(char_leq());
    chars2.lemma_sort_by_ensures(char_leq());
    acts1.lemma_sort_by_ensures(action_leq());
    acts2.lemma_sort_by_ensures(action_leq());
    lemma_sorted_unique(chars1.sort_by(char_leq()), chars2.sort_by(char_leq()), char_leq());
    lemma_sorted_unique(acts1.sort_by(action_leq()), acts2.sort_by(action_leq()), action_leq());
    assert(spec_build(chars1, acts1) == spec_build(chars2, acts2));
}

/// A sorted action bucket fails the duplicate limit exactly when some card
/// occupies three positions, and the reported card is such a card.
pub proof fn lemma_duplicate_limit(chars: Seq<CharacterCard>, actions: Seq<ActionCard>)
    requires
        chars.len() == 3,
        actions.len() == 30,
        sorted_by(actions, action_leq()),
        spec_duplicate_character(chars) is None,
    ensures
        (exists|i: int, j: int, k: int|
            #![trigger actions[i], actions[j], actions[k]]
            0 <= i < j < k < 30 && actions[i] == actions[j] && actions[j] == actions[k]) <==> (
        spec_validate(chars, actions) matches Some(
            DeckError::ActionCardAppearsMoreThanTwice(_),
        )),
        spec_validate(chars, actions) matches Some(DeckError::ActionCardAppearsMoreThanTwice(c))
            ==> exists|i: int, j: int, k: int|
            #![trigger actions[i], actions[j], actions[k]]
            0 <= i < j < k < 30 && actions[i] == c && actions[j] == c && actions[k] == c,
{
    lemma_first_triplicate_characterize(actions);
    lemma_dependency_error_kind(actions, chars, spec_resonance(chars));
    if exists|i: int, j: int, k: int|
        #![trigger actions[i], actions[j], actions[k]]
        0 <= i < j < k < 30 && actions[i] == actions[j] && actions[j] == actions[k] {
        let (i, j, k) = choose|i: int, j: int, k: int|
            #![trigger actions[i], actions[j], actions[k]]
            0 <= i < j < k < 30 && actions[i] == actions[j] && actions[j] == actions[k];
        lemma_sorted_three_indices(actions, i, j, k);
        assert(triple_at(actions, i));
        assert(spec_first_triplicate(actions) is Some);
    }
    match spec_first_triplicate(actions) {
        Some(c) => {
            let i = choose|i: int| #[trigger] triple_at(actions, i) && actions[i] == c;
            assert(0 <= i < i + 1 < i + 2 < 30 && actions[i] == c && actions[i + 1] == c
                && actions[i + 2] == c);
        },
        None => {},
    }
}

/// The dependency scan only ever reports a talent or a resonance violation.
proof fn lemma_dependency_error_kind(
    actions: Seq<ActionCard>,
    chars: Seq<CharacterCard>,
    res: Option<Element>,
)
    ensures
        match spec_first_dependency_error(actions, chars, res) {
            Some(e) => (e matches DeckError::TalentRequiresCharacter(_)) || (
            e matches DeckError::ResonanceRequiresAtLeastTwo(_)),
            None => true,
        },
    decreases actions.len(),
{
    if actions.len() != 0 {
        lemma_dependency_error_kind(actions.drop_first(), chars, res);
    }
}

/// Whether one action card's cross-card requirement is satisfied by the
/// given characters and shared element.
pub open spec fn dep_ok(a: ActionCard, chars: Seq<CharacterCard>, res: Option<Element>) -> bool {
    match a {
        ActionCard::Equipment(EquipmentCard::Talent(t)) => chars.contains(t.spec_character()),
        ActionCard::Event(EventCard::Resonance(r)) => res == Some(r.spec_element()),
        _ => true,
    }
}

/// The dependency scan passes exactly when every card's requirement holds.
proof fn lemma_dependency_characterize(
    actions: Seq<ActionCard>,
    chars: Seq<CharacterCard>,
    res: Option<Element>,
)
    ensures
        (spec_first_dependency_error(actions, chars, res) is None) <==> (forall|i: int|
            0 <= i < actions.len() ==> dep_ok(#[trigger] actions[i], chars, res)),
    decreases actions.len(),
{
    if actions.len() == 0 {
    } else {
        let t = actions.drop_first();
        lemma_dependency_characterize(t, chars, res);
        assert(forall|i: int| 0 <= i < t.len() ==> t[i] == actions[i + 1]);
        if spec_first_dependency_error(actions, chars, res) is None {
            assert forall|i: int| 0 <= i < actions.len() implies dep_ok(
                #[trigger] actions[i],
                chars,
                res,
            ) by {
                if i > 0 {
                    assert(dep_ok(t[i - 1], chars, res));
                }
            }
        } else {
            if dep_ok(actions[0], chars, res) {
                assert(spec_first_dependency_error(t, chars, res) is Some);
                let i = choose|i: int| 0 <= i < t.len() && !dep_ok(#[trigger] t[i], chars, res);
                assert(!dep_ok(actions[i + 1], chars, res));
            }
        }
    }
}

/// Every talent card in a valid deck has its required character among the
/// three deck characters.
pub proof fn lemma_talent_dependency(chars: Seq<CharacterCard>, actions: Seq<ActionCard>)
    requires
        chars.len() == 3,
        actions.len() == 30,
        spec_validate(chars, actions) is None,
    ensures
        forall|i: int|
            0 <= i < 30 ==> ((#[trigger] actions[i]) matches ActionCard::Equipment(
                EquipmentCard::Talent(t),
            ) ==> chars.contains(t.spec_character())),
{
    lemma_dependency_characterize(actions, chars, spec_resonance(chars));
}

/// Every resonance card in a valid deck is bound to an element shared by at
/// least two of the three characters.
pub proof fn lemma_resonance_dependency(chars: Seq<CharacterCard>, actions: Seq<ActionCard>)
    requires
        chars.len() == 3,
        actions.len() == 30,
        spec_validate(chars, actions) is None,
    ensures
        forall|i: int|
            0 <= i < 30 ==> ((#[trigger] actions[i]) matches ActionCard::Event(
                EventCard::Resonance(r),
            ) ==> exists|p: int, q: int|
                0 <= p < q < 3 && (#[trigger] chars[p]).spec_element() == r.spec_element() && (
                #[trigger] chars[q]).spec_element() == r.spec_element()),
{
    lemma_dependency_characterize(actions, chars, spec_resonance(chars));
    assert forall|i: int|
        0 <= i < 30 implies ((#[trigger] actions[i]) matches ActionCard::Event(
        EventCard::Resonance(r),
    ) ==> exists|p: int, q: int|
        0 <= p < q < 3 && (#[trigger] chars[p]).spec_element() == r.spec_element() && (
        #[trigger] chars[q]).spec_element() == r.spec_element()) by {
        match actions[i] {
            ActionCard::Event(EventCard::Resonance(r)) => {
                assert(dep_ok(actions[i], chars, spec_resonance(chars)));
                let el = r.spec_element();
                assert(spec_resonance(chars) == Some(el));
                if chars[0].spec_element() == chars[1].spec_element() {
                    assert(chars[0].spec_element() == el && chars[1].spec_element() == el);
                } else if chars[1].spec_element() == chars[2].spec_element() {
                    assert(chars[1].spec_element() == el && chars[2].spec_element() == el);
                } else {
                    assert(chars[2].spec_element() == el && chars[0].spec_element() == el);
                }
            },
            _ => {},
        }
    }
}

/// When the dependency scan reports a card, that card stands in the bucket
/// and its requirement really is violated.
pub proof fn lemma_dependency_error_names_violation(
    actions: Seq<ActionCard>,
    chars: Seq<CharacterCard>,
    res: Option<Element>,
)
    ensures
        match spec_first_dependency_error(actions, chars, res) {
            Some(DeckError::TalentRequiresCharacter(t)) => !chars.contains(t.spec_character())
                && exists|i: int|
                0 <= i < actions.len() && #[trigger] actions[i] == ActionCard::Equipment(
                    EquipmentCard::Talent(t),
                ),
            Some(DeckError::ResonanceRequiresAtLeastTwo(r)) => res != Some(r.spec_element())
                && exists|i: int|
                0 <= i < actions.len() && #[trigger] actions[i] == ActionCard::Event(
                    EventCard::Resonance(r),
                ),
            Some(_) => false,
            None => true,
        },
    decreases actions.len(),
{
    if actions.len() != 0 {
        let rest = actions.drop_first();
        lemma_dependency_error_names_violation(rest, chars, res);
        if spec_first_dependency_error(actions, chars, res) is Some && dep_ok(
            actions[0],
            chars,
            res,
        ) {
            match spec_first_dependency_error(rest, chars, res) {
                Some(DeckError::TalentRequiresCharacter(t)) => {
                    let i = choose|i: int|
                        0 <= i < rest.len() && #[trigger] rest[i] == ActionCard::Equipment(
                            EquipmentCard::Talent(t),
                        );
                    assert(actions[i + 1] == ActionCard::Equipment(EquipmentCard::Talent(t)));
                },
                Some(DeckError::ResonanceRequiresAtLeastTwo(r)) => {
                    let i = choose|i: int|
                        0 <= i < rest.len() && #[trigger] rest[i] == ActionCard::Event(
                            EventCard::Resonance(r),
                        );
                    assert(actions[i + 1] == ActionCard::Event(EventCard::Resonance(r)));
                },
                _ => {},
            }
        }
    }
}

/// A bucket pair that violates some card's cross-card requirement never
/// validates.
pub proof fn lemma_dependency_violation_fails(chars: Seq<CharacterCard>, actions: Seq<ActionCard>)
    requires
        chars.len() == 3,
        actions.len() == 30,
        exists|i: int|
            0 <= i < 30 && !dep_ok(#[trigger] actions[i], chars, spec_resonance(chars)),
    ensures
        spec_validate(chars, actions) is Some,
{
    if spec_validate(chars, actions) is None {
        lemma_dependency_characterize(actions, chars, spec_resonance(chars));
        let i = choose|i: int|
            0 <= i < 30 && !dep_ok(#[trigger] actions[i], chars, spec_resonance(chars));
        assert(dep_ok(actions[i], chars, spec_resonance(chars)));
    }
}


/// Whether at least two of the characters carry element `e`.
pub open spec fn shares_element(chars: Seq<CharacterCard>, e: Element) -> bool {
    exists|p: int, q: int|
        0 <= p < q < chars.len() && (#[trigger] chars[p]).spec_element() == e && (
        #[trigger] chars[q]).spec_element() == e
}

/// Sharing an element is a property of the character multiset alone.
proof fn lemma_shares_element_permute(a: Seq<CharacterCard>, b: Seq<CharacterCard>, e: Element)
    requires
        a.to_multiset() == b.to_multiset(),
        shares_element(a, e),
    ensures
        shares_element(b, e),
{
    let (p, q) = choose|p: int, q: int|
        0 <= p < q < a.len() && (#[trigger] a[p]).spec_element() == e && (
        #[trigger] a[q]).spec_element() == e;
    let x = a[p];
    let y = a[q];
    if x == y {
        lemma_indices_count_two(a, p, q);
        assert(b.to_multiset().count(x) >= 2);
        lemma_count_two_indices(b, x);
        let (i, j) = choose|i: int, j: int|
            #![trigger b[i], b[j]]
            0 <= i < j < b.len() && b[i] == x && b[j] == x;
        assert((b[i]).spec_element() == e && (b[j]).spec_element() == e);
    } else {
        assert(a.contains(x) && a.contains(y));
        lemma_contains_permute(a, b, x);
        lemma_contains_permute(a, b, y);
        let i = choose|i: int| 0 <= i < b.len() && b[i] == x;
        let j = choose|j: int| 0 <= j < b.len() && b[j] == y;
        assert(i != j);
        if i < j {
            assert((b[i]).spec_element() == e && (b[j]).spec_element() == e);
        } else {
            assert((b[j]).spec_element() == e && (b[i]).spec_element() == e);
        }
    }
}

/// With three characters, two sharing `e` make the validator's shared
/// element exactly `e`, whatever their order.
proof fn lemma_resonance_of_shared(chars: Seq<CharacterCard>, e: Element)
    requires
        chars.len() == 3,
        shares_element(chars, e),
    ensures
        spec_resonance(chars) == Some(e),
{
    let (p, q) = choose|p: int, q: int|
        0 <= p < q < chars.len() && (#[trigger] chars[p]).spec_element() == e && (
        #[trigger] chars[q]).spec_element() == e;
    assert(0 <= p < q < 3);
}

/// With three characters of which fewer than two share `e`, the validator's
/// shared element is never `e`.
proof fn lemma_resonance_not_shared(chars: Seq<CharacterCard>, e: Element)
    requires
        chars.len() == 3,
        !shares_element(chars, e),
    ensures
        spec_resonance(chars) != Some(e),
{
    if spec_resonance(chars) == Some(e) {
        if chars[0].spec_element() == chars[1].spec_element() {
            assert(chars[0].spec_element() == e && chars[1].spec_element() == e);
        } else if chars[1].spec_element() == chars[2].spec_element() {
            assert(chars[1].spec_element() == e && chars[2].spec_element() == e);
        } else {
            assert(chars[2].spec_element() == e && chars[0].spec_element() == e);
        }
    }
}

/// The common head of the end-to-end lemmas: with full projections the
/// assembler succeeds and construction comes down to sorting and validating
/// them, the sorted buckets being full, ordered permutations.
proof fn lemma_pipeline(cards: Seq<Card>)
    requires
        spec_characters_of(cards).len() == 3,
        spec_actions_of(cards).len() == 30,
    ensures
        spec_deck_from_cards(cards) == spec_build(
            spec_characters_of(cards),
            spec_actions_of(cards),
        ),
        sorted_by(spec_characters_of(cards).sort_by(char_leq()), char_leq()),
        spec_characters_of(cards).sort_by(char_leq()).to_multiset() == spec_characters_of(
            cards,
        ).to_multiset(),
        spec_characters_of(cards).sort_by(char_leq()).len() == 3,
        sorted_by(spec_actions_of(cards).sort_by(action_leq()), action_leq()),
        spec_actions_of(cards).sort_by(action_leq()).to_multiset() == spec_actions_of(
            cards,
        ).to_multiset(),
        spec_actions_of(cards).sort_by(action_leq()).len() == 30,
{
    let chars0 = spec_characters_of(cards);
    let acts0 = spec_actions_of(cards);
    lemma_assemble_characterize(cards, Seq::empty(), Seq::empty());
    assert(Seq::<CharacterCard>::empty() + chars0 =~= chars0);
    assert(Seq::<ActionCard>::empty() + acts0 =~= acts0);
    assert(assemble(cards) == Ok::<(Seq<CharacterCard>, Seq<ActionCard>), DeckError>((
        chars0,
        acts0,
    )));
    lemma_char_leq_total();
    lemma_action_leq_total();
    chars0.lemma_sort_by_ensures(char_leq());
    acts0.lemma_sort_by_ensures(action_leq());
    let sc = chars0.sort_by(char_leq());
    let sa = acts0.sort_by(action_leq());
    assert(sc.to_multiset().len() == sc.len());
    assert(chars0.to_multiset().len() == chars0.len());
    assert(sa.to_multiset().len() == sa.len());
    assert(acts0.to_multiset().len() == acts0.len());
}

/// Construction succeeds on any arrangement of a legal multiset: exactly
/// three distinct characters, thirty actions each at most twice, every
/// talent's character present, and every resonance element shared by two
/// characters.
pub proof fn lemma_from_cards_ok(cards: Seq<Card>)
    requires
        spec_characters_of(cards).len() == 3,
        spec_actions_of(cards).len() == 30,
        forall|c: CharacterCard| spec_characters_of(cards).to_multiset().count(c) <= 1,
        forall|a: ActionCard| spec_actions_of(cards).to_multiset().count(a) <= 2,
        forall|i: int|
            0 <= i < 30 ==> ((#[trigger] spec_actions_of(cards)[i]) matches ActionCard::Equipment(
                EquipmentCard::Talent(t),
            ) ==> spec_characters_of(cards).contains(t.spec_character())),
        forall|i: int|
            0 <= i < 30 ==> ((#[trigger] spec_actions_of(cards)[i]) matches ActionCard::Event(
                EventCard::Resonance(r),
            ) ==> shares_element(spec_characters_of(cards), r.spec_element())),
    ensures
        spec_deck_from_cards(cards) is Ok,
{
    lemma_pipeline(cards);
    let chars0 = spec_characters_of(cards);
    let acts0 = spec_actions_of(cards);
    let sc = chars0.sort_by(char_leq());
    let sa = acts0.sort_by(action_leq());
    if sc[0] == sc[1] {
        lemma_indices_count_two(sc, 0, 1);
        assert(false);
    }
    if sc[1] == sc[2] {
        lemma_indices_count_two(sc, 1, 2);
        assert(false);
    }
    lemma_first_triplicate_characterize(sa);
    match spec_first_triplicate(sa) {
        Some(c) => {
            let i = choose|i: int| #[trigger] triple_at(sa, i) && sa[i] == c;
            lemma_indices_count_three(sa, i, i + 1, i + 2);
            assert(false);
        },
        None => {},
    }
    let res = spec_resonance(sc);
    assert forall|i: int| 0 <= i < sa.len() implies dep_ok(#[trigger] sa[i], sc, res) by {
        match sa[i] {
            ActionCard::Equipment(EquipmentCard::Talent(t)) => {
                assert(sa.contains(sa[i]));
                lemma_contains_permute(sa, acts0, sa[i]);
                let w = choose|w: int| 0 <= w < acts0.len() && acts0[w] == sa[i];
                assert(acts0[w] == sa[i]);
                assert(chars0.contains(t.spec_character()));
                lemma_contains_permute(chars0, sc, t.spec_character());
            },
            ActionCard::Event(EventCard::Resonance(r)) => {
                assert(sa.contains(sa[i]));
                lemma_contains_permute(sa, acts0, sa[i]);
                let w = choose|w: int| 0 <= w < acts0.len() && acts0[w] == sa[i];
                assert(acts0[w] == sa[i]);
                assert(shares_element(chars0, r.spec_element()));
                lemma_shares_element_permute(chars0, sc, r.spec_element());
                lemma_resonance_of_shared(sc, r.spec_element());
            },
            _ => {},
        }
    }
    lemma_dependency_characterize(sa, sc, res);
    assert(spec_validate(sc, sa) is None);
}

/// An action card present three times in the input fails construction with
/// the duplicate-limit violation, whatever the arrangement, and the named
/// card is one occurring three times.
pub proof fn lemma_from_cards_duplicate_limit(cards: Seq<Card>)
    requires
        spec_characters_of(cards).len() == 3,
        spec_actions_of(cards).len() == 30,
        forall|c: CharacterCard| spec_characters_of(cards).to_multiset().count(c) <= 1,
        exists|a: ActionCard| #[trigger] spec_actions_of(cards).to_multiset().count(a) >= 3,
    ensures
        spec_deck_from_cards(cards) matches Err(DeckError::ActionCardAppearsMoreThanTwice(c))
            && spec_actions_of(cards).to_multiset().count(c) >= 3,
{
    lemma_pipeline(cards);
    let chars0 = spec_characters_of(cards);
    let acts0 = spec_actions_of(cards);
    let sc = chars0.sort_by(char_leq());
    let sa = acts0.sort_by(action_leq());
    if sc[0] == sc[1] {
        lemma_indices_count_two(sc, 0, 1);
        assert(false);
    }
    if sc[1] == sc[2] {
        lemma_indices_count_two(sc, 1, 2);
        assert(false);
    }
    let a = choose|a: ActionCard| #[trigger] acts0.to_multiset().count(a) >= 3;
    lemma_count_three_indices(sa, a);
    let (i, j, k) = choose|i: int, j: int, k: int|
        #![trigger sa[i], sa[j], sa[k]]
        0 <= i < j < k < sa.len() && sa[i] == a && sa[j] == a && sa[k] == a;
    lemma_sorted_three_indices(sa, i, j, k);
    lemma_first_triplicate_characterize(sa);
    match spec_first_triplicate(sa) {
        Some(c) => {
            let w = choose|w: int| #[trigger] triple_at(sa, w) && sa[w] == c;
            lemma_indices_count_three(sa, w, w + 1, w + 2);
            assert(acts0.to_multiset().count(c) >= 3);
        },
        None => {
            assert(!triple_at(sa, i));
            assert(false);
        },
    }
}

/// A talent whose character is absent fails construction with the talent
/// violation, whatever the arrangement, provided the earlier checks pass
/// and every resonance card's element is shared.
pub proof fn lemma_from_cards_talent_missing(cards: Seq<Card>)
    requires
        spec_characters_of(cards).len() == 3,
        spec_actions_of(cards).len() == 30,
        forall|c: CharacterCard| spec_characters_of(cards).to_multiset().count(c) <= 1,
        forall|a: ActionCard| spec_actions_of(cards).to_multiset().count(a) <= 2,
        forall|i: int|
            0 <= i < 30 ==> ((#[trigger] spec_actions_of(cards)[i]) matches ActionCard::Event(
                EventCard::Resonance(r),
            ) ==> shares_element(spec_characters_of(cards), r.spec_element())),
        exists|i: int|
            0 <= i < 30 && ((#[trigger] spec_actions_of(cards)[i]) matches ActionCard::Equipment(
                EquipmentCard::Talent(t),
            ) && !spec_characters_of(cards).contains(t.spec_character())),
    ensures
        spec_deck_from_cards(cards) matches Err(DeckError::TalentRequiresCharacter(t)) && (
        exists|i: int|
            0 <= i < 30 && #[trigger] spec_actions_of(cards)[i] == ActionCard::Equipment(
                EquipmentCard::Talent(t),
            )) && !spec_characters_of(cards).contains(t.spec_character()),
{
    lemma_pipeline(cards);
    let chars0 = spec_characters_of(cards);
    let acts0 = spec_actions_of(cards);
    let sc = chars0.sort_by(char_leq());
    let sa = acts0.sort_by(action_leq());
    if sc[0] == sc[1] {
        lemma_indices_count_two(sc, 0, 1);
        assert(false);
    }
    if sc[1] == sc[2] {
        lemma_indices_count_two(sc, 1, 2);
        assert(false);
    }
    lemma_first_triplicate_characterize(sa);
    match spec_first_triplicate(sa) {
        Some(c) => {
            let w = choose|w: int| #[trigger] triple_at(sa, w) && sa[w] == c;
            lemma_indices_count_three(sa, w, w + 1, w + 2);
            assert(false);
        },
        None => {},
    }
    let res = spec_resonance(sc);
    // the violating talent stands somewhere in the sorted bucket
    let i0 = choose|i: int|
        0 <= i < 30 && ((#[trigger] acts0[i]) matches ActionCard::Equipment(
            EquipmentCard::Talent(t),
        ) && !chars0.contains(t.spec_character()));
    assert(acts0.contains(acts0[i0]));
    lemma_contains_permute(acts0, sa, acts0[i0]);
    let j0 = choose|j: int| 0 <= j < sa.len() && sa[j] == acts0[i0];
    assert(!dep_ok(sa[j0], sc, res)) by {
        match acts0[i0] {
            ActionCard::Equipment(EquipmentCard::Talent(t)) => {
                if sc.contains(t.spec_character()) {
                    lemma_contains_permute(sc, chars0, t.spec_character());
                }
            },
            _ => {},
        }
    }
    lemma_dependency_characterize(sa, sc, res);
    assert(spec_first_dependency_error(sa, sc, res) is Some);
    lemma_dependency_error_names_violation(sa, sc, res);
    match spec_first_dependency_error(sa, sc, res) {
        Some(DeckError::TalentRequiresCharacter(t)) => {
            let w = choose|w: int|
                0 <= w < sa.len() && #[trigger] sa[w] == ActionCard::Equipment(
                    EquipmentCard::Talent(t),
                );
            assert(sa.contains(sa[w]));
            lemma_contains_permute(sa, acts0, sa[w]);
            let v = choose|v: int| 0 <= v < acts0.len() && acts0[v] == sa[w];
            assert(acts0[v] == ActionCard::Equipment(EquipmentCard::Talent(t)));
            if chars0.contains(t.spec_character()) {
                lemma_contains_permute(chars0, sc, t.spec_character());
            }
        },
        Some(DeckError::ResonanceRequiresAtLeastTwo(r)) => {
            let w = choose|w: int|
                0 <= w < sa.len() && #[trigger] sa[w] == ActionCard::Event(
                    EventCard::Resonance(r),
                );
            assert(sa.contains(sa[w]));
            lemma_contains_permute(sa, acts0, sa[w]);
            let v = choose|v: int| 0 <= v < acts0.len() && acts0[v] == sa[w];
            assert(acts0[v] == ActionCard::Event(EventCard::Resonance(r)));
            assert(shares_element(chars0, r.spec_element()));
            lemma_shares_element_permute(chars0, sc, r.spec_element());
            lemma_resonance_of_shared(sc, r.spec_element());
            assert(false);
        },
        _ => {},
    }
}

/// A resonance card whose element fewer than two characters share fails
/// construction with the resonance violation, whatever the arrangement,
/// provided the earlier checks pass and every talent's character is
/// present.
pub proof fn lemma_from_cards_resonance_unshared(cards: Seq<Card>)
    requires
        spec_characters_of(cards).len() == 3,
        spec_actions_of(cards).len() == 30,
        forall|c: CharacterCard| spec_characters_of(cards).to_multiset().count(c) <= 1,
        forall|a: ActionCard| spec_actions_of(cards).to_multiset().count(a) <= 2,
        forall|i: int|
            0 <= i < 30 ==> ((#[trigger] spec_actions_of(cards)[i]) matches ActionCard::Equipment(
                EquipmentCard::Talent(t),
            ) ==> spec_characters_of(cards).contains(t.spec_character())),
        exists|i: int|
            0 <= i < 30 && ((#[trigger] spec_actions_of(cards)[i]) matches ActionCard::Event(
                EventCard::Resonance(r),
            ) && !shares_element(spec_characters_of(cards), r.spec_element())),
    ensures
        spec_deck_from_cards(cards) matches Err(DeckError::ResonanceRequiresAtLeastTwo(r)) && (
        exists|i: int|
            0 <= i < 30 && #[trigger] spec_actions_of(cards)[i] == ActionCard::Event(
                EventCard::Resonance(r),
            )) && !shares_element(spec_characters_of(cards), r.spec_element()),
{
    lemma_pipeline(cards);
    let chars0 = spec_characters_of(cards);
    let acts0 = spec_actions_of(cards);
    let sc = chars0.sort_by(char_leq());
    let sa = acts0.sort_by(action_leq());
    if sc[0] == sc[1] {
        lemma_indices_count_two(sc, 0, 1);
        assert(false);
    }
    if sc[1] == sc[2] {
        lemma_indices_count_two(sc, 1, 2);
        assert(false);
    }
    lemma_first_triplicate_characterize(sa);
    match spec_first_triplicate(sa) {
        Some(c) => {
            let w = choose|w: int| #[trigger] triple_at(sa, w) && sa[w] == c;
            lemma_indices_count_three(sa, w, w + 1, w + 2);
            assert(false);
        },
        None => {},
    }
    let res = spec_resonance(sc);
    let i0 = choose|i: int|
        0 <= i < 30 && ((#[trigger] acts0[i]) matches ActionCard::Event(
            EventCard::Resonance(r),
        ) && !shares_element(chars0, r.spec_element()));
    assert(acts0.contains(acts0[i0]));
    lemma_contains_permute(acts0, sa, acts0[i0]);
    let j0 = choose|j: int| 0 <= j < sa.len() && sa[j] == acts0[i0];
    assert(!dep_ok(sa[j0], sc, res)) by {
        match acts0[i0] {
            ActionCard::Event(EventCard::Resonance(r)) => {
                if shares_element(sc, r.spec_element()) {
                    lemma_shares_element_permute(sc, chars0, r.spec_element());
                }
                lemma_resonance_not_shared(sc, r.spec_element());
            },
            _ => {},
        }
    }
    lemma_dependency_characterize(sa, sc, res);
    assert(spec_first_dependency_error(sa, sc, res) is Some);
    lemma_dependency_error_names_violation(sa, sc, res);
    match spec_first_dependency_error(sa, sc, res) {
        Some(DeckError::TalentRequiresCharacter(t)) => {
            let w = choose|w: int|
                0 <= w < sa.len() && #[trigger] sa[w] == ActionCard::Equipment(
                    EquipmentCard::Talent(t),
                );
            assert(sa.contains(sa[w]));
            lemma_contains_permute(sa, acts0, sa[w]);
            let v = choose|v: int| 0 <= v < acts0.len() && acts0[v] == sa[w];
            assert(acts0[v] == ActionCard::Equipment(EquipmentCard::Talent(t)));
            assert(chars0.contains(t.spec_character()));
            lemma_contains_permute(chars0, sc, t.spec_character());
            assert(false);
        },
        Some(DeckError::ResonanceRequiresAtLeastTwo(r)) => {
            let w = choose|w: int|
                0 <= w < sa.len() && #[trigger] sa[w] == ActionCard::Event(
                    EventCard::Resonance(r),
                );
            assert(sa.contains(sa[w]));
            lemma_contains_permute(sa, acts0, sa[w]);
            let v = choose|v: int| 0 <= v < acts0.len() && acts0[v] == sa[w];
            assert(acts0[v] == ActionCard::Event(EventCard::Resonance(r)));
            if shares_element(chars0, r.spec_element()) {
                lemma_shares_element_permute(chars0, sc, r.spec_element());
                lemma_resonance_of_shared(sc, r.spec_element());
            }
        },
        _ => {},
    }
}

} // verus!\n