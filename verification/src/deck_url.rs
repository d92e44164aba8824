use vstd::prelude::*;
use vstd::string::StrSliceExecFns;
use crate::cards::Card;
use crate::codes::{decode_action_card, decode_character_card, spec_action_code, spec_char_code};

verus! {

/// Decode failures for a sharing URL, each carrying the offending substring.
#[derive(Debug)]
pub enum UrlDeckError<'s> {
    InvalidUrl(&'s str),
    UnknownVersion(&'s str),
    UnknownCard(&'s str),
}

/// The contract-level content of a [`UrlDeckError`]: the same three kinds,
/// with the offending substring as a character sequence.
pub enum UrlDeckErrorView {
    InvalidUrl(Seq<char>),
    UnknownVersion(Seq<char>),
    UnknownCard(Seq<char>),
}

impl<'s> View for UrlDeckError<'s> {
    type V = UrlDeckErrorView;

    closed spec fn view(&self) -> UrlDeckErrorView {
        match self {
            UrlDeckError::InvalidUrl(s) => UrlDeckErrorView::InvalidUrl(s@),
            UrlDeckError::UnknownVersion(s) => UrlDeckErrorView::UnknownVersion(s@),
            UrlDeckError::UnknownCard(s) => UrlDeckErrorView::UnknownCard(s@),
        }
    }
}

/// The marker that must precede the deck payload in a sharing URL.
pub open spec fn spec_url_marker() -> Seq<char> {
    "genshin.hotgames.gg/tcg/deck-builder?deck="@
}

/// Whether the marker occupies the positions `i .. i + marker length` of `s`.
pub open spec fn marker_at(s: Seq<char>, i: int) -> bool {
    &&& 0 <= i
    &&& i + spec_url_marker().len() <= s.len()
    &&& s.subrange(i, i + spec_url_marker().len() as int) == spec_url_marker()
}

/// The first position at or after `i` where the marker occurs in `s`.
pub open spec fn spec_find_marker_from(s: Seq<char>, i: int) -> Option<int>
    decreases s.len() + 1 - i,
{
    if i < 0 || i + spec_url_marker().len() > s.len() {
        None
    } else if s.subrange(i, i + spec_url_marker().len() as int) == spec_url_marker() {
        Some(i)
    } else {
        spec_find_marker_from(s, i + 1)
    }
}

/// The first position where the marker occurs in `s`, if it occurs at all.
pub open spec fn spec_find_marker(s: Seq<char>) -> Option<int> {
    spec_find_marker_from(s, 0)
}

/// The marker search returns the first match at or after `i` when one
/// exists, and nothing exactly when no position at or after `i` matches.
proof fn lemma_find_marker_characterize(s: Seq<char>, i: int)
    requires
        0 <= i,
    ensures
        match spec_find_marker_from(s, i) {
            Some(x) => marker_at(s, x) && i <= x && (forall|j: int|
                i <= j < x ==> !(#[trigger] marker_at(s, j))),
            None => forall|j: int| i <= j ==> !(#[trigger] marker_at(s, j)),
        },
    decreases s.len() + 1 - i,
{
    let m = spec_url_marker().len() as int;
    if i + m > s.len() {
        assert forall|j: int| i <= j implies !(#[trigger] marker_at(s, j)) by {}
    } else if s.subrange(i, i + m) == spec_url_marker() {
        assert(marker_at(s, i));
    } else {
        assert(!marker_at(s, i));
        lemma_find_marker_characterize(s, i + 1);
    }
}

/// The prefix of `s` before the first occurrence of `c`, or all of `s` when
/// `c` does not occur.
pub open spec fn spec_until(s: Seq<char>, c: char) -> Seq<char> {
    match s.index_of_first(c) {
        Some(i) => s.take(i),
        None => s,
    }
}

/// What follows the first occurrence of `c` in `s`, if `c` occurs at all.
pub open spec fn spec_after(s: Seq<char>, c: char) -> Option<Seq<char>> {
    match s.index_of_first(c) {
        Some(i) => Some(s.skip(i + 1)),
        None => None,
    }
}

/// The numeric value of a decimal digit character.
pub open spec fn spec_digit(c: char) -> Option<int> {
    let u = c as u32;
    if 48 <= u && u <= 57 {
        Some(u as int - 48)
    } else {
        None
    }
}

/// The unsigned value of a plain digit string: defined when the string is
/// nonempty and all digits.
pub open spec fn spec_digits_value(s: Seq<char>) -> Option<int>
    decreases s.len(),
{
    if s.len() == 0 {
        None
    } else if s.len() == 1 {
        spec_digit(s.last())
    } else {
        match (spec_digits_value(s.drop_last()), spec_digit(s.last())) {
            (Some(v), Some(d)) => Some(v * 10 + d),
            _ => None,
        }
    }
}

/// What `str::parse::<usize>` accepts: an optional leading plus sign, one
/// or more digits, and a value within range.
pub open spec fn spec_parse_usize(s: Seq<char>) -> Option<int> {
    let digits = if s.len() > 0 && s[0] == '+' {
        s.drop_first()
    } else {
        s
    };
    match spec_digits_value(digits) {
        Some(v) => if v <= usize::MAX as int {
            Some(v)
        } else {
            None
        },
        None => None,
    }
}

/// A defined digit-string value is never negative.
proof fn lemma_digits_value_nonneg(s: Seq<char>)
    ensures
        match spec_digits_value(s) {
            Some(v) => v >= 0,
            None => true,
        },
    decreases s.len(),
{
    if s.len() > 1 {
        lemma_digits_value_nonneg(s.drop_last());
    }
}

/// One bad character makes the whole digit string undefined.
proof fn lemma_digits_value_bad_digit(s: Seq<char>, j: int)
    requires
        0 <= j < s.len(),
        spec_digit(s[j]) is None,
    ensures
        spec_digits_value(s) is None,
    decreases s.len(),
{
    if s.len() > 1 && j < s.len() - 1 {
        assert(s.drop_last()[j] == s[j]);
        lemma_digits_value_bad_digit(s.drop_last(), j);
    }
}

/// A nonempty prefix of a defined digit string is defined and not larger.
proof fn lemma_digits_value_prefix(s: Seq<char>, i: int)
    requires
        1 <= i <= s.len(),
        spec_digits_value(s) is Some,
    ensures
        spec_digits_value(s.take(i)) is Some,
        spec_digits_value(s.take(i)).unwrap() <= spec_digits_value(s).unwrap(),
    decreases s.len(),
{
    lemma_digits_value_nonneg(s.drop_last());
    if i == s.len() {
        assert(s.take(i) =~= s);
    } else {
        assert(s.len() > 1);
        lemma_digits_value_prefix(s.drop_last(), i);
        assert(s.drop_last().take(i) =~= s.take(i));
    }
}

/// One payload token decoded: the card and its repeat count.  A code of the
/// wrong length, or one absent from the selected table, fails carrying the
/// raw token; a repeat count that does not parse fails carrying the code
/// part before the dash.
pub open spec fn spec_decode_token(tok: Seq<char>) -> Result<(Card, int), Seq<char>> {
    let code = spec_until(tok, '-');
    let amount = match spec_after(tok, '-') {
        Some(a) => spec_parse_usize(a),
        None => Some(1),
    };
    match amount {
        None => Err(code),
        Some(n) => if code.len() == 1 {
            match spec_char_code(code[0]) {
                Some(card) => Ok((card, n)),
                None => Err(tok),
            }
        } else if code.len() == 2 {
            match spec_action_code(code[0], code[1]) {
                Some(card) => Ok((card, n)),
                None => Err(tok),
            }
        } else {
            Err(tok)
        },
    }
}

/// The decoded payload: every token validated, each expanded to its card
/// repeated its count times, all expansions concatenated in payload order —
/// or the offending substring of the first invalid token, left to right.
pub open spec fn spec_decode_payload(p: Seq<char>) -> Result<Seq<Card>, Seq<char>>
    decreases p.len(),
    via spec_decode_payload_decreases
{
    let head = spec_decode_token(spec_until(p, '.'));
    match spec_after(p, '.') {
        None => match head {
            Err(t) => Err(t),
            Ok(pair) => Ok(Seq::new(pair.1 as nat, |q: int| pair.0)),
        },
        Some(rest) => match head {
            Err(t) => Err(t),
            Ok(pair) => match spec_decode_payload(rest) {
                Err(e) => Err(e),
                Ok(more) => Ok(Seq::new(pair.1 as nat, |q: int| pair.0) + more),
            },
        },
    }
}

#[via_fn]
proof fn spec_decode_payload_decreases(p: Seq<char>) {
    p.index_of_first_ensures('.');
}

/// The full decoder: the URL must hold the marker, its payload is the first
/// `&`-delimited field after it, a `ver=1` field must follow, and then the
/// payload is decoded token by token.
pub open spec fn spec_deck_from_url(s: Seq<char>) -> Result<Seq<Card>, UrlDeckErrorView> {
    match spec_find_marker(s) {
        None => Err(UrlDeckErrorView::InvalidUrl(s)),
        Some(i) => {
            let rest = s.skip(i + spec_url_marker().len() as int);
            let payload = spec_until(rest, '&');
            match spec_after(rest, '&') {
                None => Err(UrlDeckErrorView::InvalidUrl(s)),
                Some(r2) => {
                    let field = spec_until(r2, '&');
                    if field.len() >= 4 && field.take(4) == "ver="@ {
                        let ver = field.skip(4);
                        if ver == "1"@ {
                            match spec_decode_payload(payload) {
                                Ok(cards) => Ok(cards),
                                Err(tok) => Err(UrlDeckErrorView::UnknownCard(tok)),
                            }
                        } else {
                            Err(UrlDeckErrorView::UnknownVersion(ver))
                        }
                    } else {
                        Err(UrlDeckErrorView::InvalidUrl(s))
                    }
                },
            }
        },
    }
}

/// The `.`-separated tokens of a payload, in order.  A payload is never
/// empty of tokens: an empty string holds one empty token.
pub open spec fn spec_tokens(p: Seq<char>) -> Seq<Seq<char>>
    decreases p.len(),
    via spec_tokens_decreases
{
    match spec_after(p, '.') {
        None => seq![p],
        Some(rest) => seq![spec_until(p, '.')] + spec_tokens(rest),
    }
}

#[via_fn]
proof fn spec_tokens_decreases(p: Seq<char>) {
    p.index_of_first_ensures('.');
}

/// Decoding a payload is all or nothing: it succeeds exactly when every one
/// of its tokens is recognized, and when it fails, the reported substring
/// belongs to the first failing token in left-to-right order, with no cards
/// handed out.
pub proof fn lemma_decode_payload_all_or_nothing(p: Seq<char>)
    ensures
        (spec_decode_payload(p) is Ok) <==> (forall|i: int|
            0 <= i < spec_tokens(p).len() ==> spec_decode_token(
                #[trigger] spec_tokens(p)[i],
            ) is Ok),
        match spec_decode_payload(p) {
            Ok(_) => true,
            Err(t) => exists|i: int|
                0 <= i < spec_tokens(p).len() && spec_decode_token(#[trigger] spec_tokens(p)[i])
                    == Err::<(Card, int), Seq<char>>(t) && (forall|j: int|
                    0 <= j < i ==> spec_decode_token(#[trigger] spec_tokens(p)[j]) is Ok),
        },
    decreases p.len(),
{
    p.index_of_first_ensures('.');
    match spec_after(p, '.') {
        None => {
            assert(spec_until(p, '.') == p);
            assert(spec_tokens(p) =~= seq![p]);
            assert(spec_tokens(p)[0] == p);
        },
        Some(rest) => {
            lemma_decode_payload_all_or_nothing(rest);
            let head = spec_until(p, '.');
            let toks = spec_tokens(p);
            assert(toks == seq![head] + spec_tokens(rest));
            assert(toks[0] == head);
            assert(forall|i: int|
                1 <= i < toks.len() ==> toks[i] == spec_tokens(rest)[i - 1]);
            match spec_decode_token(head) {
                Err(t) => {
                    assert(spec_decode_payload(p) == Err::<Seq<Card>, Seq<char>>(t));
                    assert(spec_decode_token(toks[0]) == Err::<(Card, int), Seq<char>>(t));
                },
                Ok(_) => {
                    match spec_decode_payload(rest) {
                        Ok(_) => {
                            assert(spec_decode_payload(p) is Ok);
                            assert forall|i: int|
                                0 <= i < toks.len() implies spec_decode_token(
                                #[trigger] toks[i],
                            ) is Ok by {
                                if i >= 1 {
                                    assert(spec_decode_token(spec_tokens(rest)[i - 1]) is Ok);
                                }
                            }
                        },
                        Err(e) => {
                            assert(spec_decode_payload(p) == Err::<Seq<Card>, Seq<char>>(e));
                            let w = choose|w: int|
                                0 <= w < spec_tokens(rest).len() && spec_decode_token(
                                    #[trigger] spec_tokens(rest)[w],
                                ) == Err::<(Card, int), Seq<char>>(e) && (forall|j: int|
                                    0 <= j < w ==> spec_decode_token(
                                        #[trigger] spec_tokens(rest)[j],
                                    ) is Ok);
                            assert(spec_decode_token(toks[w + 1]) == Err::<
                                (Card, int),
                                Seq<char>,
                            >(e));
                            assert forall|j: int|
                                0 <= j < w + 1 implies spec_decode_token(
                                #[trigger] toks[j],
                            ) is Ok by {
                                if j >= 1 {
                                    assert(spec_decode_token(spec_tokens(rest)[j - 1]) is Ok);
                                }
                            }
                            assert(!(spec_decode_payload(p) is Ok));
                            assert(spec_decode_token(toks[w + 1]) is Err);
                        },
                    }
                },
            }
        },
    }
}

/// Replacing any single token of a payload with an unrecognized one makes
/// the decode fail naming that token's offending substring: whenever token
/// `i` is the leftmost invalid token, the payload decodes to exactly its
/// error, and no cards are produced.
pub proof fn lemma_decode_payload_first_bad_token(p: Seq<char>, i: int)
    requires
        0 <= i < spec_tokens(p).len(),
        spec_decode_token(spec_tokens(p)[i]) is Err,
        forall|j: int| 0 <= j < i ==> spec_decode_token(#[trigger] spec_tokens(p)[j]) is Ok,
    ensures
        spec_decode_token(spec_tokens(p)[i]) matches Err(t) && spec_decode_payload(p) == Err::<
            Seq<Card>,
            Seq<char>,
        >(t),
{
    lemma_decode_payload_all_or_nothing(p);
    assert(!(spec_decode_payload(p) is Ok));
    match spec_decode_payload(p) {
        Ok(_) => {},
        Err(t0) => {
            let w = choose|w: int|
                0 <= w < spec_tokens(p).len() && spec_decode_token(#[trigger] spec_tokens(p)[w])
                    == Err::<(Card, int), Seq<char>>(t0) && (forall|j: int|
                    0 <= j < w ==> spec_decode_token(#[trigger] spec_tokens(p)[j]) is Ok);
            if w < i {
                assert(spec_decode_token(spec_tokens(p)[w]) is Ok);
            } else if w > i {
                assert(spec_decode_token(spec_tokens(p)[i]) is Ok);
            }
        },
    }
}

/// The characters of `s`, collected into a vector.
fn collect_chars(s: &str) -> (r: Vec<char>)
    ensures
        r@ == s@,
{
    let n = s.unicode_len();
    let mut v: Vec<char> = Vec::new();
    let mut i: usize = 0;
    while i < n
        invariant
            n == s@.len(),
            i <= n,
            v@ == s@.take(i as int),
        decreases n - i,
    {
        v.push(s.get_char(i));
        proof {
            assert(s@.take(i as int + 1) =~= s@.take(i as int).push(s@[i as int]));
        }
        i += 1;
    }
    proof {
        assert(s@.take(n as int) =~= s@);
    }
    v
}

/// Whether the characters of `m` stand at position `i` of `s`.
fn window_eq(s: &Vec<char>, i: usize, m: &Vec<char>) -> (r: bool)
    requires
        i + m@.len() <= s@.len(),
    ensures
        r == (s@.subrange(i as int, i as int + m@.len() as int) == m@),
{
    let slen = s.len();
    let mlen = m.len();
    let mut k: usize = 0;
    while k < mlen
        invariant
            slen == s@.len(),
            mlen == m@.len(),
            i + m@.len() <= s@.len(),
            k <= m@.len(),
            forall|j: int| 0 <= j < k ==> s@[i as int + j] == m@[j],
        decreases m@.len() - k,
    {
        if s[i + k] != m[k] {
            proof {
                assert(s@.subrange(i as int, i as int + m@.len() as int)[k as int] != m@[k as int]);
            }
            return false;
        }
        k += 1;
    }
    proof {
        assert(s@.subrange(i as int, i as int + m@.len() as int) =~= m@);
    }
    true
}

/// Searches for the first position where the marker stands in `s`.
fn find_marker(s: &Vec<char>, m: &Vec<char>) -> (r: Option<usize>)
    requires
        m@ == spec_url_marker(),
        m@.len() <= s@.len(),
        m@.len() > 0,
    ensures
        match r {
            Some(i) => spec_find_marker(s@) == Some(i as int),
            None => spec_find_marker(s@) is None,
        },
{
    proof {
        lemma_find_marker_characterize(s@, 0);
    }
    let mlen = m.len();
    let last = s.len() - mlen;
    let mut i: usize = 0;
    while i <= last
        invariant
            mlen == m@.len(),
            mlen >= 1,
            m@ == spec_url_marker(),
            mlen <= s@.len(),
            s@.len() <= usize::MAX,
            last == s@.len() - mlen,
            i <= last + 1,
            forall|j: int| 0 <= j < i ==> !(#[trigger] marker_at(s@, j)),
        decreases last + 1 - i,
    {
        if window_eq(s, i, m) {
            proof {
                lemma_find_marker_characterize(s@, 0);
                assert(marker_at(s@, i as int));
                assert(spec_find_marker(s@) == spec_find_marker_from(s@, 0));
                match spec_find_marker(s@) {
                    Some(x) => {
                        if x < i {
                            assert(!marker_at(s@, x));
                            assert(false);
                        } else if x > i {
                            assert(!marker_at(s@, i as int));
                            assert(false);
                        }
                    },
                    None => {
                        assert(!marker_at(s@, i as int));
                        assert(false);
                    },
                }
            }
            return Some(i);
        }
        i += 1;
    }
    proof {
        lemma_find_marker_characterize(s@, 0);
        assert(spec_find_marker(s@) == spec_find_marker_from(s@, 0));
        match spec_find_marker(s@) {
            Some(x) => {
                assert(marker_at(s@, x));
                assert(x + mlen <= s@.len());
                assert(x <= last);
                assert(!marker_at(s@, x));
                assert(false);
            },
            None => {},
        }
    }
    None
}

/// Finds the first occurrence of `c` at or after `from` and before `end`.
fn find_char_range(s: &Vec<char>, from: usize, end: usize, c: char) -> (r: Option<usize>)
    requires
        from <= end <= s@.len(),
    ensures
        match r {
            Some(i) => from <= i < end && s@[i as int] == c && (forall|j: int|
                from <= j < i ==> s@[j] != c),
            None => forall|j: int| from <= j < end ==> s@[j] != c,
        },
{
    let mut i: usize = from;
    while i < end
        invariant
            from <= i <= end <= s@.len(),
            forall|j: int| from <= j < i ==> s@[j] != c,
        decreases end - i,
    {
        if s[i] == c {
            return Some(i);
        }
        i += 1;
    }
    None
}

/// Converts what a linear scan of `s[from..end]` saw into the first-index
/// function of that region.
proof fn lemma_index_of_first_region(s: Seq<char>, from: int, end: int, c: char, r: Option<int>)
    requires
        0 <= from <= end <= s.len(),
        match r {
            Some(i) => from <= i < end && s[i] == c && (forall|j: int|
                from <= j < i ==> s[j] != c),
            None => forall|j: int| from <= j < end ==> s[j] != c,
        },
    ensures
        match r {
            Some(i) => s.subrange(from, end).index_of_first(c) == Some(i - from),
            None => s.subrange(from, end).index_of_first(c) is None,
        },
{
    let t = s.subrange(from, end);
    t.index_of_first_ensures(c);
    match r {
        Some(i) => {
            assert(t[i - from] == c);
            assert(t.contains(c));
            match t.index_of_first(c) {
                Some(idx) => {
                    if idx < i - from {
                        assert(s[from + idx] == c);
                    } else if idx > i - from {
                        assert(t[i - from] != c);
                    }
                },
                None => {},
            }
        },
        None => {
            if t.contains(c) {
                let w = choose|w: int| 0 <= w < t.len() && t[w] == c;
                assert(s[from + w] == c);
            }
        },
    }
}

/// Parses the repeat-count field of a token, as `str::parse::<usize>` does.
fn parse_repeat(s: &Vec<char>, start: usize, end: usize) -> (r: Option<usize>)
    requires
        start <= end <= s@.len(),
    ensures
        match r {
            Some(n) => spec_parse_usize(s@.subrange(start as int, end as int)) == Some(n as int),
            None => spec_parse_usize(s@.subrange(start as int, end as int)) is None,
        },
{
    let ghost tok = s@.subrange(start as int, end as int);
    let mut dstart: usize = start;
    if start < end && s[start] == '+' {
        dstart = start + 1;
    }
    let ghost digits = s@.subrange(dstart as int, end as int);
    proof {
        if tok.len() > 0 && tok[0] == '+' {
            assert(digits =~= tok.drop_first());
        } else {
            assert(digits =~= tok);
        }
    }
    if dstart == end {
        return None;
    }
    let mut acc: usize = 0;
    let mut k: usize = dstart;
    while k < end
        invariant
            start <= dstart <= k <= end <= s@.len(),
            dstart < end,
            digits == s@.subrange(dstart as int, end as int),
            tok == s@.subrange(start as int, end as int),
            spec_parse_usize(tok) == (match spec_digits_value(digits) {
                Some(v) => if v <= usize::MAX as int {
                    Some::<int>(v)
                } else {
                    None::<int>
                },
                None => None::<int>,
            }),
            k > dstart ==> spec_digits_value(digits.take(k - dstart as int)) == Some(acc as int),
            k == dstart ==> acc == 0,
        decreases end - k,
    {
        let c = s[k];
        let u = c as u32;
        let ghost pos = k - dstart as int;
        proof {
            assert(digits[pos] == s@[k as int]);
        }
        if !(48 <= u && u <= 57) {
            proof {
                assert(spec_digit(digits[pos]) is None);
                lemma_digits_value_bad_digit(digits, pos);
            }
            return None;
        }
        let d = (u - 48) as usize;
        proof {
            assert(digits.take(pos + 1).last() == digits[pos]);
            assert(digits.take(pos + 1).drop_last() =~= digits.take(pos));
            assert(spec_digits_value(digits.take(pos + 1)) == Some(acc as int * 10 + d as int));
        }
        let next = match acc.checked_mul(10) {
            Some(m) => m.checked_add(d),
            None => None,
        };
        match next {
            Some(v) => {
                acc = v;
            },
            None => {
                proof {
                    if spec_digits_value(digits) is Some {
                        lemma_digits_value_prefix(digits, pos + 1);
                    }
                }
                return None;
            },
        }
        k += 1;
    }
    proof {
        assert(digits.take(end - dstart as int) =~= digits);
    }
    Some(acc)
}

/// Decodes one token of the payload, the region `s[start..end]`: its card
/// and repeat count, or the end position of the offending substring — the
/// whole token for an unrecognized code, its code part for a bad count.
fn decode_token(s: &Vec<char>, start: usize, end: usize) -> (r: Result<(Card, usize), usize>)
    requires
        start <= end <= s@.len(),
    ensures
        match r {
            Ok(pair) => spec_decode_token(s@.subrange(start as int, end as int)) == Ok::<
                (Card, int),
                Seq<char>,
            >((pair.0, pair.1 as int)),
            Err(ce) => start <= ce <= end && spec_decode_token(
                s@.subrange(start as int, end as int),
            ) == Err::<(Card, int), Seq<char>>(s@.subrange(start as int, ce as int)),
        },
{
    let ghost tok = s@.subrange(start as int, end as int);
    let dash = find_char_range(s, start, end, '-');
    proof {
        match dash {
            Some(d) => lemma_index_of_first_region(s@, start as int, end as int, '-', Some(d as int)),
            None => lemma_index_of_first_region(s@, start as int, end as int, '-', None),
        }
    }
    let code_end: usize;
    let amount: Option<usize>;
    match dash {
        Some(dpos) => {
            proof {
                assert(tok.index_of_first('-') == Some(dpos - start as int));
                assert(tok.take(dpos - start as int) =~= s@.subrange(start as int, dpos as int));
                assert(tok.skip(dpos - start as int + 1) =~= s@.subrange(
                    dpos as int + 1,
                    end as int,
                ));
            }
            code_end = dpos;
            amount = parse_repeat(s, dpos + 1, end);
        },
        None => {
            proof {
                assert(tok.index_of_first('-') is None);
                assert(tok =~= s@.subrange(start as int, end as int));
            }
            code_end = end;
            amount = Some(1);
        },
    }
    let ghost code = s@.subrange(start as int, code_end as int);
    proof {
        assert(spec_until(tok, '-') == code);
    }
    match amount {
        None => Err(code_end),
        Some(n) => {
            let code_len = code_end - start;
            if code_len == 1 {
                proof {
                    assert(code[0] == s@[start as int]);
                }
                match decode_character_card(s[start]) {
                    Some(card) => Ok((card, n)),
                    None => Err(end),
                }
            } else if code_len == 2 {
                proof {
                    assert(code[0] == s@[start as int]);
                    assert(code[1] == s@[start as int + 1]);
                }
                match decode_action_card(s[start], s[start + 1]) {
                    Some(card) => Ok((card, n)),
                    None => Err(end),
                }
            } else {
                Err(end)
            }
        },
    }
}

/// Decodes the whole payload region `s[start..end]`: all cards in order, or
/// the offending region of the first invalid token.
fn decode_payload(s: &Vec<char>, start: usize, end: usize) -> (r: Result<Vec<Card>, (usize, usize)>)
    requires
        start <= end <= s@.len(),
    ensures
        match r {
            Ok(cards) => spec_decode_payload(s@.subrange(start as int, end as int)) == Ok::<
                Seq<Card>,
                Seq<char>,
            >(cards@),
            Err(pos) => pos.0 <= pos.1 <= s@.len() && spec_decode_payload(
                s@.subrange(start as int, end as int),
            ) == Err::<Seq<Card>, Seq<char>>(s@.subrange(pos.0 as int, pos.1 as int)),
        },
{
    let ghost whole = s@.subrange(start as int, end as int);
    let mut acc: Vec<Card> = Vec::new();
    let mut cur: usize = start;
    let mut done = false;
    proof {
        assert(whole =~= s@.subrange(start as int, end as int));
        match spec_decode_payload(whole) {
            Ok(m) => {
                assert(acc@ + m =~= m);
            },
            Err(_) => {},
        }
    }
    while !done
        invariant
            start <= cur <= end <= s@.len(),
            whole == s@.subrange(start as int, end as int),
            !done ==> (match spec_decode_payload(s@.subrange(cur as int, end as int)) {
                Ok(m) => spec_decode_payload(whole) == Ok::<Seq<Card>, Seq<char>>(acc@ + m),
                Err(t) => spec_decode_payload(whole) == Err::<Seq<Card>, Seq<char>>(t),
            }),
            done ==> spec_decode_payload(whole) == Ok::<Seq<Card>, Seq<char>>(acc@),
        decreases end - cur + 1 - (if done {
            1int
        } else {
            0int
        }),
    {
        let ghost region = s@.subrange(cur as int, end as int);
        let dot = find_char_range(s, cur, end, '.');
        proof {
            match dot {
                Some(d) => lemma_index_of_first_region(s@, cur as int, end as int, '.', Some(d as int)),
                None => lemma_index_of_first_region(s@, cur as int, end as int, '.', None),
            }
        }
        let tok_end = match dot {
            Some(d) => d,
            None => end,
        };
        proof {
            match dot {
                Some(d) => {
                    assert(region.take(d - cur as int) =~= s@.subrange(cur as int, d as int));
                    assert(region.skip(d - cur as int + 1) =~= s@.subrange(
                        d as int + 1,
                        end as int,
                    ));
                    assert(spec_until(region, '.') == s@.subrange(cur as int, tok_end as int));
                },
                None => {
                    assert(spec_until(region, '.') == region);
                    assert(region =~= s@.subrange(cur as int, tok_end as int));
                },
            }
        }
        match decode_token(s, cur, tok_end) {
            Err(ce) => {
                return Err((cur, ce));
            },
            Ok((card, n)) => {
                let ghost acc0 = acc@;
                let mut t: usize = 0;
                while t < n
                    invariant
                        t <= n,
                        acc@ == acc0 + Seq::new(t as nat, |q: int| card),
                    decreases n - t,
                {
                    acc.push(card);
                    proof {
                        assert(Seq::new((t + 1) as nat, |q: int| card) =~= Seq::new(
                            t as nat,
                            |q: int| card,
                        ).push(card));
                    }
                    t += 1;
                }
                proof {
                    assert(acc@ =~= acc0 + Seq::new(n as nat, |q: int| card));
                }
                match dot {
                    Some(d) => {
                        proof {
                            let rest = s@.subrange(d as int + 1, end as int);
                            assert(spec_after(region, '.') == Some(rest));
                            match spec_decode_payload(rest) {
                                Ok(more) => {
                                    assert(acc0 + (Seq::new(n as nat, |q: int| card) + more)
                                        =~= acc@ + more);
                                },
                                Err(_) => {},
                            }
                        }
                        cur = d + 1;
                    },
                    None => {
                        proof {
                            assert(spec_after(region, '.') is None);
                        }
                        done = true;
                        cur = end;
                    },
                }
            },
        }
    }
    Ok(acc)
}

/// Decodes a sharing URL into the flat, ordered card list its payload
/// describes, without judging deck legality.  Either every token of the
/// payload is valid and the whole expansion is returned, or the first
/// failure is reported and no cards are handed out.
pub fn deck_from_url<'s>(url: &'s str) -> (r: Result<Vec<Card>, UrlDeckError<'s>>)
    ensures
        match r {
            Ok(cards) => spec_deck_from_url(url@) == Ok::<Seq<Card>, UrlDeckErrorView>(cards@),
            Err(e) => spec_deck_from_url(url@) == Err::<Seq<Card>, UrlDeckErrorView>(e@),
        },
{
    let cv = collect_chars(url);
    let marker: &'static str = "genshin.hotgames.gg/tcg/deck-builder?deck=";
    let mv = collect_chars(marker);
    proof {
        assert(mv@ == spec_url_marker());
        reveal_strlit("genshin.hotgames.gg/tcg/deck-builder?deck=");
    }
    let mlen = mv.len();
    if cv.len() < mlen {
        return Err(UrlDeckError::InvalidUrl(url));
    }
    let index: usize = match find_marker(&cv, &mv) {
        Some(i) => i,
        None => {
            return Err(UrlDeckError::InvalidUrl(url));
        },
    };
    proof {
        lemma_find_marker_characterize(cv@, 0);
        assert(marker_at(cv@, index as int));
    }
    let start = index + mlen;
    proof {
        assert(start <= cv@.len());
    }
    let ghost rest = url@.skip(start as int);
    proof {
        assert(rest =~= cv@.subrange(start as int, cv@.len() as int));
    }
    // first field after the marker: the payload
    let amp1 = find_char_range(&cv, start, cv.len(), '&');
    proof {
        match amp1 {
            Some(a) => lemma_index_of_first_region(
                cv@,
                start as int,
                cv@.len() as int,
                '&',
                Some(a as int),
            ),
            None => lemma_index_of_first_region(cv@, start as int, cv@.len() as int, '&', None),
        }
    }
    let p_end: usize = match amp1 {
        Some(a) => a,
        None => {
            proof {
                assert(spec_after(rest, '&') is None);
            }
            return Err(UrlDeckError::InvalidUrl(url));
        },
    };
    proof {
        assert(rest.take(p_end - start as int) =~= cv@.subrange(start as int, p_end as int));
        assert(rest.skip(p_end - start as int + 1) =~= cv@.subrange(
            p_end as int + 1,
            cv@.len() as int,
        ));
        assert(spec_until(rest, '&') == cv@.subrange(start as int, p_end as int));
    }
    let ghost r2 = cv@.subrange(p_end as int + 1, cv@.len() as int);
    // second field: must be exactly `ver=<value>`
    let f2_start = p_end + 1;
    let amp2 = find_char_range(&cv, f2_start, cv.len(), '&');
    proof {
        match amp2 {
            Some(a) => lemma_index_of_first_region(
                cv@,
                f2_start as int,
                cv@.len() as int,
                '&',
                Some(a as int),
            ),
            None => lemma_index_of_first_region(cv@, f2_start as int, cv@.len() as int, '&', None),
        }
    }
    let f2_end: usize = match amp2 {
        Some(a) => a,
        None => cv.len(),
    };
    let ghost field = cv@.subrange(f2_start as int, f2_end as int);
    proof {
        match amp2 {
            Some(a) => {
                assert(r2.take(a - f2_start as int) =~= field);
            },
            None => {
                assert(r2 =~= field);
            },
        }
        assert(spec_until(r2, '&') == field);
        reveal_strlit("ver=");
    }
    let has_ver_prefix = f2_end - f2_start >= 4 && cv[f2_start] == 'v' && cv[f2_start + 1] == 'e'
        && cv[f2_start + 2] == 'r' && cv[f2_start + 3] == '=';
    if !has_ver_prefix {
        proof {
            if field.len() >= 4 {
                assert(field.take(4)[0] == field[0] && field.take(4)[1] == field[1] && field.take(
                    4,
                )[2] == field[2] && field.take(4)[3] == field[3]);
                assert(field.take(4) != "ver="@);
            }
        }
        return Err(UrlDeckError::InvalidUrl(url));
    }
    proof {
        assert(field.take(4) =~= "ver="@);
    }
    let ver_start = f2_start + 4;
    let ghost ver = field.skip(4);
    proof {
        assert(ver =~= cv@.subrange(ver_start as int, f2_end as int));
        reveal_strlit("1");
    }
    let version_is_one = f2_end - ver_start == 1 && cv[ver_start] == '1';
    if version_is_one {
        proof {
            assert(ver =~= "1"@);
        }
        match decode_payload(&cv, start, p_end) {
            Ok(cards) => Ok(cards),
            Err((a, b)) => {
                let t = url.substring_char(a, b);
                Err(UrlDeckError::UnknownCard(t))
            },
        }
    } else {
        proof {
            if ver.len() == 1 {
                assert(ver[0] != '1');
                assert(ver != "1"@);
            } else {
                assert(ver != "1"@);
            }
        }
        let v = url.substring_char(ver_start, f2_end);
        Err(UrlDeckError::UnknownVersion(v))
    }
}

} // verus!
