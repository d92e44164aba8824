use vstd::prelude::*;
use vstd::relations::sorted_by;
use vstd::seq_lib::{lemma_multiset_commutative, lemma_sorted_unique};
use crate::action::{action_rank, action_rank_exec, ActionCard};
use crate::character::{char_index, char_index_exec, CharacterCard};
use crate::order::{action_leq, char_leq, lemma_action_leq_total, lemma_char_leq_total};

verus! {

broadcast use
    vstd::seq_lib::group_to_multiset_ensures,
    vstd::multiset::group_multiset_axioms;

/// Inserting an element anywhere in a sequence adds exactly that element to
/// its multiset of values.
pub(crate) proof fn lemma_insert_to_multiset<A>(s: Seq<A>, i: int, x: A)
    requires
        0 <= i <= s.len(),
    ensures
        s.insert(i, x).to_multiset() == s.to_multiset().insert(x),
{
    let left = s.subrange(0, i);
    let right = s.subrange(i, s.len() as int);
    assert(s.insert(i, x) == left.push(x) + right);
    lemma_multiset_commutative(left.push(x), right);
    assert(s == left + right);
    lemma_multiset_commutative(left, right);
    assert(left.push(x).to_multiset() == left.to_multiset().insert(x));
    assert(left.to_multiset().insert(x).add(right.to_multiset())
        =~= left.to_multiset().add(right.to_multiset()).insert(x));
}

/// Inserts `x` into the sorted vector `v`, directly before the first entry
/// with a strictly greater index, so the vector stays sorted.
fn insert_sorted_char(v: &mut Vec<CharacterCard>, x: CharacterCard)
    requires
        sorted_by(old(v)@, char_leq()),
    ensures
        sorted_by(final(v)@, char_leq()),
        final(v)@.to_multiset() == old(v)@.to_multiset().insert(x),
        final(v)@.len() == old(v)@.len() + 1,
{
    let key = char_index_exec(&x);
    let mut i: usize = 0;
    while i < v.len() && char_index_exec(&v[i]) <= key
        invariant
            i <= v@.len(),
            v@ == old(v)@,
            key as int == char_index(x),
            forall|j: int| 0 <= j < i ==> char_index(v@[j]) <= char_index(x),
        decreases v@.len() - i,
    {
        i += 1;
    }
    proof {
        if (i as int) < v@.len() {
            assert(char_index(v@[i as int]) > char_index(x));
        }
    }
    let ghost before = v@;
    v.insert(i, x);
    proof {
        let leq = char_leq();
        let s = final(v)@;
        assert(s == before.insert(i as int, x));
        before.insert_ensures(i as int, x);
        lemma_insert_to_multiset(before, i as int, x);
        assert forall|p: int, q: int| 0 <= p < q < s.len() implies #[trigger] leq(s[p], s[q]) by {
            if q < i {
                assert(leq(before[p], before[q]));
            } else if p < i && q == i {
                assert(char_index(before[p]) <= char_index(x));
            } else if p < i && q > i {
                assert(leq(before[p], before[q - 1]));
            } else if p == i {
                // every entry from position i onward has a strictly greater key
                if i < before.len() {
                    assert(leq(before[i as int], before[q - 1]));
                }
            } else {
                assert(leq(before[p - 1], before[q - 1]));
            }
        }
    }
}

/// Inserts `x` into the sorted vector `v`, directly before the first entry
/// with a strictly greater rank, so the vector stays sorted.
fn insert_sorted_action(v: &mut Vec<ActionCard>, x: ActionCard)
    requires
        sorted_by(old(v)@, action_leq()),
    ensures
        sorted_by(final(v)@, action_leq()),
        final(v)@.to_multiset() == old(v)@.to_multiset().insert(x),
        final(v)@.len() == old(v)@.len() + 1,
{
    let key = action_rank_exec(&x);
    let mut i: usize = 0;
    while i < v.len() && action_rank_exec(&v[i]) <= key
        invariant
            i <= v@.len(),
            v@ == old(v)@,
            key as int == action_rank(x),
            forall|j: int| 0 <= j < i ==> action_rank(v@[j]) <= action_rank(x),
        decreases v@.len() - i,
    {
        i += 1;
    }
    proof {
        if (i as int) < v@.len() {
            assert(action_rank(v@[i as int]) > action_rank(x));
        }
    }
    let ghost before = v@;
    v.insert(i, x);
    proof {
        let leq = action_leq();
        let s = final(v)@;
        assert(s == before.insert(i as int, x));
        before.insert_ensures(i as int, x);
        lemma_insert_to_multiset(before, i as int, x);
        assert forall|p: int, q: int| 0 <= p < q < s.len() implies #[trigger] leq(s[p], s[q]) by {
            if q < i {
                assert(leq(before[p], before[q]));
            } else if p < i && q == i {
                assert(action_rank(before[p]) <= action_rank(x));
            } else if p < i && q > i {
                assert(leq(before[p], before[q - 1]));
            } else if p == i {
                if i < before.len() {
                    assert(leq(before[i as int], before[q - 1]));
                }
            } else {
                assert(leq(before[p - 1], before[q - 1]));
            }
        }
    }
}

/// Sorts the characters into the fixed canonical order by insertion.
pub(crate) fn sort_characters(input: Vec<CharacterCard>) -> (r: Vec<CharacterCard>)
    ensures
        r@ == input@.sort_by(char_leq()),
        sorted_by(r@, char_leq()),
        r@.to_multiset() == input@.to_multiset(),
        r@.len() == input@.len(),
{
    let mut r: Vec<CharacterCard> = Vec::new();
    let mut i: usize = 0;
    while i < input.len()
        invariant
            i <= input@.len(),
            sorted_by(r@, char_leq()),
            r@.to_multiset() == input@.take(i as int).to_multiset(),
            r@.len() == i,
        decreases input@.len() - i,
    {
        insert_sorted_char(&mut r, input[i]);
        proof {
            assert(input@.take(i as int + 1) =~= input@.take(i as int).push(input@[i as int]));
        }
        i += 1;
    }
    proof {
        assert(input@.take(input@.len() as int) =~= input@);
        lemma_char_leq_total();
        input@.lemma_sort_by_ensures(char_leq());
        lemma_sorted_unique(r@, input@.sort_by(char_leq()), char_leq());
    }
    r
}

/// Sorts the action cards into the fixed canonical order by insertion.
pub(crate) fn sort_actions(input: Vec<ActionCard>) -> (r: Vec<ActionCard>)
    ensures
        r@ == input@.sort_by(action_leq()),
        sorted_by(r@, action_leq()),
        r@.to_multiset() == input@.to_multiset(),
        r@.len() == input@.len(),
{
    let mut r: Vec<ActionCard> = Vec::new();
    let mut i: usize = 0;
    while i < input.len()
        invariant
            i <= input@.len(),
            sorted_by(r@, action_leq()),
            r@.to_multiset() == input@.take(i as int).to_multiset(),
            r@.len() == i,
        decreases input@.len() - i,
    {
        insert_sorted_action(&mut r, input[i]);
        proof {
            assert(input@.take(i as int + 1) =~= input@.take(i as int).push(input@[i as int]));
        }
        i += 1;
    }
    proof {
        assert(input@.take(input@.len() as int) =~= input@);
        lemma_action_leq_total();
        input@.lemma_sort_by_ensures(action_leq());
        lemma_sorted_unique(r@, input@.sort_by(action_leq()), action_leq());
    }
    r
}

} // verus!
