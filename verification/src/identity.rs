//! Splitting identity strings into their underscore-separated fields.
//!
//! An identity is never malformed: a missing separator leaves the later
//! fields empty, and separators beyond the last field belong to that field.

use vstd::prelude::*;

verus! {

/// The code unit between the fields of an identity: `_`.
pub const SEPARATOR: u16 = 0x5F;

/// What stands before the first separator of `s`: all of `s` where it has none.
pub open spec fn before_first(s: Seq<u16>) -> Seq<u16> {
    match s.index_of_first(SEPARATOR) {
        Some(i) => s.take(i),
        None => s,
    }
}

/// What stands after the first separator of `s`: nothing where it has none.
pub open spec fn after_first(s: Seq<u16>) -> Seq<u16> {
    match s.index_of_first(SEPARATOR) {
        Some(i) => s.skip(i + 1),
        None => Seq::empty(),
    }
}

/// The pieces of `s`, split from the left at separators into at most `limit`
/// pieces. The last piece is whatever is left over, separators included.
pub open spec fn pieces(s: Seq<u16>, limit: nat) -> Seq<Seq<u16>>
    decreases limit,
{
    if limit == 0 {
        Seq::empty()
    } else if limit == 1 || !s.contains(SEPARATOR) {
        seq![s]
    } else {
        seq![before_first(s)] + pieces(after_first(s), (limit - 1) as nat)
    }
}

/// Piece `n` of `s` split into at most `limit` pieces, and the empty sequence
/// where the split gave fewer than `n + 1` pieces.
pub open spec fn piece(s: Seq<u16>, limit: nat, n: nat) -> Seq<u16> {
    if n < pieces(s, limit).len() {
        pieces(s, limit)[n as int]
    } else {
        Seq::empty()
    }
}

/// The pieces put together again, with a separator between neighbours.
pub open spec fn joined(parts: Seq<Seq<u16>>) -> Seq<u16>
    decreases parts.len(),
{
    if parts.len() == 0 {
        Seq::empty()
    } else if parts.len() == 1 {
        parts[0]
    } else {
        parts[0] + seq![SEPARATOR] + joined(parts.drop_first())
    }
}

/// Position of the first separator in `s`, if it has one.
pub fn find_separator(s: &[u16]) -> (found: Option<usize>)
    ensures
        match found {
            Some(i) => {
                &&& i < s@.len()
                &&& s@[i as int] == SEPARATOR
                &&& forall|j: int| 0 <= j < i ==> s@[j] != SEPARATOR
                &&& s@.index_of_first(SEPARATOR) == Some(i as int)
            },
            None => !s@.contains(SEPARATOR) && s@.index_of_first(SEPARATOR) is None,
        },
{
    let mut i: usize = 0;
    while i < s.len()
        invariant
            i <= s.len(),
            forall|j: int| 0 <= j < i ==> s@[j] != SEPARATOR,
        decreases s.len() - i,
    {
        if s[i] == SEPARATOR {
            proof {
                s@.index_of_first_ensures(SEPARATOR);
            }
            return Some(i);
        }
        i += 1;
    }
    proof {
        s@.index_of_first_ensures(SEPARATOR);
    }
    None
}

/// Splits `s` at its first separator. Without a separator the first part is
/// all of `s` and the second is empty.
pub fn split_first(s: &[u16]) -> (parts: (&[u16], &[u16]))
    ensures
        parts.0@ == before_first(s@),
        parts.1@ == after_first(s@),
{
    let len = s.len();
    match find_separator(s) {
        Some(i) => (&s[0..i], &s[i + 1..len]),
        None => (s, &s[len..len]),
    }
}

/// The code units behind each of `parts`.
pub open spec fn views(parts: Seq<&[u16]>) -> Seq<Seq<u16>> {
    Seq::new(parts.len(), |k: int| parts[k]@)
}

/// Splits `s` from the left at separators into at most `limit` parts. The
/// last part takes what is left, separators included; with `limit == 0` there
/// is no part at all.
pub fn split_at_most<'a>(s: &'a [u16], limit: usize) -> (parts: Vec<&'a [u16]>)
    ensures
        views(parts@) == pieces(s@, limit as nat),
{
    let mut parts: Vec<&'a [u16]> = Vec::new();
    if limit == 0 {
        return parts;
    }
    let mut rest: &'a [u16] = s;
    while parts.len() + 1 < limit
        invariant
            parts.len() < limit,
            views(parts@) + pieces(rest@, (limit - parts.len()) as nat) == pieces(
                s@,
                limit as nat,
            ),
        ensures
            parts.len() < limit,
            views(parts@) + seq![rest@] == pieces(s@, limit as nat),
        decreases limit - parts.len(),
    {
        let ghost left = (limit - parts.len()) as nat;
        let ghost done = views(parts@);
        let ghost whole = rest@;
        let len = rest.len();
        match find_separator(rest) {
            Some(i) => {
                parts.push(&rest[0..i]);
                rest = &rest[i + 1..len];
                assert(views(parts@) + pieces(rest@, (left - 1) as nat) =~= done + pieces(
                    whole,
                    left,
                ));
            },
            None => {
                break ;
            },
        }
    }
    parts.push(rest);
    parts
}

/// What the two parts around the first separator are: with a separator in
/// `s`, the first part is free of separators and the two parts with one
/// separator between them are `s`; without one, the first part is `s` and the
/// second is empty.
pub proof fn lemma_split_first_parts(s: Seq<u16>)
    ensures
        !before_first(s).contains(SEPARATOR),
        s.contains(SEPARATOR) ==> before_first(s) + seq![SEPARATOR] + after_first(s) == s,
        !s.contains(SEPARATOR) ==> before_first(s) == s && after_first(s) == Seq::<u16>::empty(),
{
    s.index_of_first_ensures(SEPARATOR);
    if s.contains(SEPARATOR) {
    }
}

/// A piece that the split did not produce is empty, however far beyond the
/// count it is asked for.
pub proof fn lemma_piece_beyond_count_is_empty(s: Seq<u16>, limit: nat, n: nat)
    requires
        n >= pieces(s, limit).len(),
    ensures
        piece(s, limit, n) == Seq::<u16>::empty(),
{
}

/// The two parts around the first separator are the pieces of a split in
/// two.
pub proof fn lemma_split_first_is_split_in_two(s: Seq<u16>)
    ensures
        before_first(s) == piece(s, 2, 0),
        after_first(s) == piece(s, 2, 1),
{
    s.index_of_first_ensures(SEPARATOR);
    reveal_with_fuel(pieces, 3);
}

/// A split with a limit of at least one gives at least one piece and never
/// more than the limit.
pub proof fn lemma_pieces_count(s: Seq<u16>, limit: nat)
    requires
        limit >= 1,
    ensures
        1 <= pieces(s, limit).len() <= limit,
    decreases limit,
{
    if limit > 1 && s.contains(SEPARATOR) {
        lemma_pieces_count(after_first(s), (limit - 1) as nat);
    }
}

/// Nothing is lost in a split: the pieces, joined by separators, are the
/// string that was split.
pub proof fn lemma_pieces_joined(s: Seq<u16>, limit: nat)
    requires
        limit >= 1,
    ensures
        joined(pieces(s, limit)) == s,
    decreases limit,
{
    if limit > 1 && s.contains(SEPARATOR) {
        let rest = pieces(after_first(s), (limit - 1) as nat);
        let all = pieces(s, limit);
        lemma_pieces_count(after_first(s), (limit - 1) as nat);
        lemma_pieces_joined(after_first(s), (limit - 1) as nat);
        s.index_of_first_ensures(SEPARATOR);
        assert(all.drop_first() =~= rest);
    }
}

/// Only the last of `limit` pieces can hold a separator: every piece before
/// the last is free of them, and so is the last where the split gave fewer
/// pieces than the limit allows.
pub proof fn lemma_pieces_separator_free(s: Seq<u16>, limit: nat, k: int)
    requires
        0 <= k < pieces(s, limit).len(),
        k + 1 < pieces(s, limit).len() || pieces(s, limit).len() < limit,
    ensures
        !pieces(s, limit)[k].contains(SEPARATOR),
    decreases limit,
{
    if limit > 1 && s.contains(SEPARATOR) {
        s.index_of_first_ensures(SEPARATOR);
        if k > 0 {
            lemma_pieces_separator_free(after_first(s), (limit - 1) as nat, k - 1);
        }
    }
}

} // verus!
