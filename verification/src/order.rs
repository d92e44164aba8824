use vstd::prelude::*;
use vstd::relations::{antisymmetric, reflexive, strongly_connected, total_ordering, transitive};
use crate::action::{action_rank, lemma_action_rank_injective, ActionCard};
use crate::character::{char_index, lemma_char_index_injective, CharacterCard};

verus! {

/// The canonical total order on character cards: by declaration index.
pub open spec fn char_leq() -> spec_fn(CharacterCard, CharacterCard) -> bool {
    |a: CharacterCard, b: CharacterCard| char_index(a) <= char_index(b)
}

/// The canonical total order on action cards: top-level categories first
/// (Equipment < Support < Event), then sub-categories, then declaration index.
pub open spec fn action_leq() -> spec_fn(ActionCard, ActionCard) -> bool {
    |a: ActionCard, b: ActionCard| action_rank(a) <= action_rank(b)
}

/// The canonical character order is total: decks sorted by it have one
/// canonical form per multiset of characters.
pub proof fn lemma_char_leq_total()
    ensures
        total_ordering(char_leq()),
{
    let leq = char_leq();
    assert forall|x: CharacterCard| #[trigger] leq(x, x) by {}
    assert(reflexive(leq));
    assert forall|x: CharacterCard, y: CharacterCard|
        #[trigger] leq(x, y) && #[trigger] leq(y, x) implies x == y by {
        lemma_char_index_injective(x, y);
    }
    assert(antisymmetric(leq));
    assert forall|x: CharacterCard, y: CharacterCard, z: CharacterCard|
        #[trigger] leq(x, y) && #[trigger] leq(y, z) implies leq(x, z) by {}
    assert(transitive(leq));
    assert forall|x: CharacterCard, y: CharacterCard| #[trigger]
        leq(x, y) || #[trigger] leq(y, x) by {}
    assert(strongly_connected(leq));
}

/// The canonical action-card order is total: decks sorted by it have one
/// canonical form per multiset of actions.
pub proof fn lemma_action_leq_total()
    ensures
        total_ordering(action_leq()),
{
    let leq = action_leq();
    assert forall|x: ActionCard| #[trigger] leq(x, x) by {}
    assert(reflexive(leq));
    assert forall|x: ActionCard, y: ActionCard|
        #[trigger] leq(x, y) && #[trigger] leq(y, x) implies x == y by {
        lemma_action_rank_injective(x, y);
    }
    assert(antisymmetric(leq));
    assert forall|x: ActionCard, y: ActionCard, z: ActionCard|
        #[trigger] leq(x, y) && #[trigger] leq(y, z) implies leq(x, z) by {}
    assert(transitive(leq));
    assert forall|x: ActionCard, y: ActionCard| #[trigger]
        leq(x, y) || #[trigger] leq(y, x) by {}
    assert(strongly_connected(leq));
}

} // verus!
