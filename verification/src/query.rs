//! The parameters of a query string.
//!
//! A query string is a run of pairs separated by `&`; a pair is a key and a
//! value separated by its first `=`. No character is decoded.

use vstd::prelude::*;
use vstd::hash_map::StringHashMap;
use crate::text::{chars_of, string_of};

verus! {

/// The pieces of `s` between the occurrences of `sep`, read from left to
/// right: a separator opens a new piece, any other character goes to the
/// end of the last one. There is always at least one piece.
pub open spec fn split(s: Seq<char>, sep: char) -> Seq<Seq<char>>
    decreases s.len(),
{
    if s.len() == 0 {
        seq![Seq::empty()]
    } else {
        let before = split(s.drop_last(), sep);
        if s.last() == sep {
            before.push(Seq::empty())
        } else {
            before.drop_last().push(before.last().push(s.last()))
        }
    }
}

/// The place of the first `c` in `s`, or the length of `s` where it has none.
pub open spec fn position(s: Seq<char>, c: char) -> int
    decreases s.len(),
{
    if s.len() == 0 || s[0] == c {
        0
    } else {
        1 + position(s.drop_first(), c)
    }
}

/// A pair is well formed when it holds a `=`.
pub open spec fn is_pair(piece: Seq<char>) -> bool {
    position(piece, '=') < piece.len()
}

/// What stands before the first `=` of a pair.
pub open spec fn key_of(pair: Seq<char>) -> Seq<char> {
    pair.take(position(pair, '='))
}

/// What stands after the first `=` of a pair.
pub open spec fn value_of(pair: Seq<char>) -> Seq<char> {
    pair.skip(position(pair, '=') + 1)
}

/// A query string is well formed when each piece between its `&` is a pair.
/// The empty string is not: its one piece is empty.
pub open spec fn well_formed(query: Seq<char>) -> bool {
    forall|i: int| 0 <= i < split(query, '&').len() ==> is_pair(#[trigger] split(query, '&')[i])
}

/// The parameters that a run of pairs gives: a later pair replaces an
/// earlier one with the same key.
pub open spec fn params_of(pairs: Seq<Seq<char>>) -> Map<Seq<char>, Seq<char>>
    decreases pairs.len(),
{
    if pairs.len() == 0 {
        Map::empty()
    } else {
        params_of(pairs.drop_last()).insert(key_of(pairs.last()), value_of(pairs.last()))
    }
}

/// The parameters of a query string.
pub open spec fn query_params(query: Seq<char>) -> Map<Seq<char>, Seq<char>> {
    params_of(split(query, '&'))
}

/// The texts that a map of strings holds, by key.
pub open spec fn texts_of(params: Map<Seq<char>, String>) -> Map<Seq<char>, Seq<char>> {
    params.map_values(|value: String| value@)
}

/// The pieces put together again, with the separator between them.
pub open spec fn joined(pieces: Seq<Seq<char>>, sep: char) -> Seq<char>
    decreases pieces.len(),
{
    if pieces.len() == 0 {
        Seq::empty()
    } else if pieces.len() == 1 {
        pieces[0]
    } else {
        joined(pieces.drop_last(), sep).push(sep) + pieces.last()
    }
}

/// Splitting loses nothing: no piece holds the separator, and the pieces
/// joined by the separator are the text that was split.
pub proof fn law_split_then_join(s: Seq<char>, sep: char)
    ensures
        split(s, sep).len() >= 1,
        forall|i: int| 0 <= i < split(s, sep).len() ==> !(#[trigger] split(s, sep)[i]).contains(sep),
        joined(split(s, sep), sep) == s,
    decreases s.len(),
{
    if s.len() > 0 {
        let rest = s.drop_last();
        let before = split(rest, sep);
        law_split_then_join(rest, sep);
        if s.last() == sep {
            assert(before.push(Seq::empty()).drop_last() == before);
        } else {
            let piece = before.last().push(s.last());
            assert(before.drop_last().push(piece).drop_last() == before.drop_last());
            assert(!piece.contains(sep));
            if before.len() > 1 {
                let head = joined(before.drop_last(), sep).push(sep);
                assert(head + piece == (head + before.last()).push(s.last()));
            }
        }
    }
}

/// The first `c` of `s` stands within `s` or at its end, and there is no
/// `c` before it.
pub proof fn lemma_position(s: Seq<char>, c: char)
    ensures
        0 <= position(s, c) <= s.len(),
        position(s, c) < s.len() ==> s[position(s, c)] == c,
        forall|k: int| 0 <= k < position(s, c) ==> s[k] != c,
    decreases s.len(),
{
    if s.len() > 0 && s[0] != c {
        let rest = s.drop_first();
        lemma_position(rest, c);
        assert forall|k: int| 0 <= k < position(s, c) implies s[k] != c by {
            if k > 0 {
                assert(s[k] == rest[k - 1]);
            }
        }
    }
}

/// A pair is its key, a `=` and its value, and the key holds no `=`.
pub proof fn law_pair_parts(pair: Seq<char>)
    requires
        is_pair(pair),
    ensures
        pair == key_of(pair).push('=') + value_of(pair),
        !key_of(pair).contains('='),
{
    lemma_position(pair, '=');
}

/// The first `c` of `s` stands where nothing before it is `c`.
pub proof fn lemma_first(s: Seq<char>, c: char, at: int)
    requires
        0 <= at <= s.len(),
        forall|k: int| 0 <= k < at ==> s[k] != c,
        at < s.len() ==> s[at] == c,
    ensures
        position(s, c) == at,
    decreases at,
{
    if at > 0 {
        lemma_first(s.drop_first(), c, at - 1);
    }
}

/// A text without the separator is its own one piece.
pub proof fn lemma_unsplit(s: Seq<char>, sep: char)
    requires
        !s.contains(sep),
    ensures
        split(s, sep) == seq![s],
    decreases s.len(),
{
    if s.len() == 0 {
        assert(s == Seq::<char>::empty());
    } else {
        let rest = s.drop_last();
        assert(!rest.contains(sep));
        lemma_unsplit(rest, sep);
        assert(rest.push(s.last()) == s);
    }
}

/// The pieces of a prefix, but for its last one, are pieces of the whole.
proof fn lemma_split_keeps_pieces(s: Seq<char>, sep: char, k: int)
    requires
        0 <= k <= s.len(),
    ensures
        1 <= split(s.take(k), sep).len() <= split(s, sep).len(),
        forall|j: int|
            0 <= j < split(s.take(k), sep).len() - 1 ==> split(s, sep)[j] == split(
                s.take(k),
                sep,
            )[j],
    decreases s.len(),
{
    if k == s.len() {
        assert(s.take(k) == s);
        lemma_split_has_a_piece(s, sep);
    } else {
        assert(s.drop_last().take(k) == s.take(k));
        lemma_split_keeps_pieces(s.drop_last(), sep, k);
    }
}

proof fn lemma_split_has_a_piece(s: Seq<char>, sep: char)
    ensures
        split(s, sep).len() >= 1,
    decreases s.len(),
{
    if s.len() > 0 {
        lemma_split_has_a_piece(s.drop_last(), sep);
    }
}

/// Takes the pair `chars[from..to]` apart and records it in `params`.
/// Returns whether it was a pair; nothing is recorded where it was not.
fn record_pair(params: &mut StringHashMap<String>, chars: &Vec<char>, from: usize, to: usize) -> (ok:
    bool)
    requires
        from <= to <= chars.len(),
    ensures
        ok == is_pair(chars@.subrange(from as int, to as int)),
        ok ==> texts_of(final(params)@) == texts_of(old(params)@).insert(
            key_of(chars@.subrange(from as int, to as int)),
            value_of(chars@.subrange(from as int, to as int)),
        ),
        !ok ==> final(params)@ == old(params)@,
{
    let ghost pair = chars@.subrange(from as int, to as int);
    let mut at: usize = from;
    while at < to && chars[at] != '='
        invariant
            from <= at <= to <= chars.len(),
            pair == chars@.subrange(from as int, to as int),
            forall|k: int| 0 <= k < at - from ==> pair[k] != '=',
        decreases to - at,
    {
        at += 1;
    }
    proof {
        lemma_first(pair, '=', at - from);
    }
    if at == to {
        return false;
    }
    let key = string_of(chars, from, at);
    let value = string_of(chars, at + 1, to);
    proof {
        assert(key@ == key_of(pair));
        assert(value@ == value_of(pair));
    }
    params.insert(key, value);
    true
}

/// Reads the parameters of a query string, or `None` where a piece between
/// two `&` holds no `=`.
pub fn try_parse_query_params(query: &str) -> (parsed: Option<StringHashMap<String>>)
    ensures
        parsed is Some <==> well_formed(query@),
        parsed matches Some(params) ==> texts_of(params@) == query_params(query@),
{
    let chars = chars_of(query);
    let n = chars.len();
    let mut params: StringHashMap<String> = StringHashMap::new();
    let ghost mut done: Seq<Seq<char>> = Seq::empty();
    let mut start: usize = 0;
    let mut i: usize = 0;
    assert(chars@.subrange(0, 0) == Seq::<char>::empty());
    while i < n
        invariant
            start <= i <= n,
            n == chars.len(),
            chars@ == query@,
            split(chars@.take(i as int), '&') == done.push(chars@.subrange(start as int, i as int)),
            forall|j: int| 0 <= j < done.len() ==> is_pair(#[trigger] done[j]),
            texts_of(params@) == params_of(done),
        decreases n - i,
    {
        let ghost piece = chars@.subrange(start as int, i as int);
        proof {
            assert(chars@.take(i + 1).drop_last() == chars@.take(i as int));
            assert(piece.push(chars@[i as int]) == chars@.subrange(start as int, i + 1));
            assert(chars@.subrange(i + 1, i + 1) == Seq::<char>::empty());
        }
        if chars[i] == '&' {
            if !record_pair(&mut params, &chars, start, i) {
                proof {
                    lemma_split_keeps_pieces(chars@, '&', i + 1);
                    assert(split(chars@, '&')[done.len() as int] == piece);
                }
                return None;
            }
            proof {
                assert(done.push(piece).drop_last() == done);
                done = done.push(piece);
            }
            start = i + 1;
        }
        i += 1;
    }
    let ghost piece = chars@.subrange(start as int, n as int);
    proof {
        assert(chars@.take(n as int) == chars@);
        assert(done.push(piece).drop_last() == done);
    }
    if !record_pair(&mut params, &chars, start, n) {
        proof {
            assert(split(chars@, '&')[done.len() as int] == piece);
        }
        return None;
    }
    Some(params)
}

/// Reads the parameters of a well-formed query string.
pub fn parse_query_params(query: &str) -> (params: StringHashMap<String>)
    requires
        well_formed(query@),
    ensures
        texts_of(params@) == query_params(query@),
{
    try_parse_query_params(query).unwrap()
}

} // verus!
