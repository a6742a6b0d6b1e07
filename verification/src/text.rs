//! Scanning of text, character by character: cutting a string at the first
//! occurrence of a separator, and comparing two strings.

use vstd::prelude::*;
use vstd::std_specs::iter::IteratorSpec;
use vstd::string::StrSliceExecFns;

verus! {

/// `i` is the place of the first `sep` in `s`.
pub open spec fn is_first_at(s: Seq<char>, sep: char, i: int) -> bool {
    &&& 0 <= i < s.len()
    &&& s[i] == sep
    &&& forall|j: int| 0 <= j < i ==> s[j] != sep
}

/// The place of the first `sep` in `s`, if `s` holds one.
pub open spec fn first_index_of(s: Seq<char>, sep: char) -> Option<int> {
    if exists|i: int| is_first_at(s, sep, i) {
        Some(choose|i: int| is_first_at(s, sep, i))
    } else {
        None
    }
}

/// `s` cut at its first `sep`: what stands before it and what stands after
/// it, the separator itself left out. Nothing where `s` holds no `sep`; an
/// empty half is a half like any other.
pub open spec fn split_once(s: Seq<char>, sep: char) -> Option<(Seq<char>, Seq<char>)> {
    match first_index_of(s, sep) {
        Some(i) => Some((s.take(i), s.skip(i + 1))),
        None => None,
    }
}

/// There is one first place at most.
pub proof fn lemma_first_index_of_found(s: Seq<char>, sep: char, i: int)
    requires
        is_first_at(s, sep, i),
    ensures
        first_index_of(s, sep) == Some(i),
{
    let k = choose|k: int| is_first_at(s, sep, k);
    assert(!(k < i));
    assert(!(i < k));
}

/// A string without the separator has no first place of it.
pub proof fn lemma_first_index_of_absent(s: Seq<char>, sep: char)
    requires
        forall|j: int| 0 <= j < s.len() ==> s[j] != sep,
    ensures
        first_index_of(s, sep) is None,
{
}

/// The two halves of a cut, with the separator between them, give the string
/// back, and the first half holds no separator. No other pair does both.
pub proof fn lemma_split_once_joins(s: Seq<char>, sep: char, head: Seq<char>, tail: Seq<char>)
    ensures
        split_once(s, sep) == Some((head, tail)) <==> (s == head + seq![sep] + tail
            && !head.contains(sep)),
{
    if s == head + seq![sep] + tail && !head.contains(sep) {
        let i = head.len() as int;
        assert forall|j: int| 0 <= j < i implies s[j] != sep by {
            assert(s[j] == head[j]);
        }
        lemma_first_index_of_found(s, sep, i);
        assert(s.take(i) =~= head);
        assert(s.skip(i + 1) =~= tail);
    }
    if split_once(s, sep) == Some((head, tail)) {
        let i = first_index_of(s, sep)->0;
        assert(is_first_at(s, sep, i));
        assert(s =~= s.take(i) + seq![sep] + s.skip(i + 1));
        assert forall|j: int| 0 <= j < head.len() implies head[j] != sep by {
            assert(head[j] == s[j]);
        }
    }
}

/// A string has a cut exactly where it holds the separator.
pub proof fn lemma_split_once_some(s: Seq<char>, sep: char)
    ensures
        split_once(s, sep) is Some <==> s.contains(sep),
{
    if s.contains(sep) {
        let i = s.index_of_first(sep)->0;
        s.index_of_first_ensures(sep);
        assert(is_first_at(s, sep, i));
    }
    if split_once(s, sep) is Some {
        let i = first_index_of(s, sep)->0;
        assert(is_first_at(s, sep, i));
    }
}

/// Cuts `text` at its first `sep`.
pub fn split_once_at(text: &str, sep: char) -> (r: Option<(&str, &str)>)
    ensures
        match r {
            Some((head, tail)) => split_once(text@, sep) == Some((head@, tail@)),
            None => split_once(text@, sep) is None,
        },
{
    let len = text.unicode_len();
    let mut chars = text.chars();
    let mut i: usize = 0;
    loop
        invariant
            0 <= i <= len,
            len == text@.len(),
            chars.remaining() == text@.skip(i as int),
            forall|j: int| 0 <= j < i ==> text@[j] != sep,
        decreases len - i,
    {
        match chars.next() {
            None => {
                proof {
                    lemma_first_index_of_absent(text@, sep);
                }
                return None;
            },
            Some(c) => {
                if c == sep {
                    proof {
                        lemma_first_index_of_found(text@, sep, i as int);
                    }
                    let head = text.substring_char(0, i);
                    let tail = text.substring_char(i + 1, len);
                    return Some((head, tail));
                }
                i = i + 1;
            },
        }
    }
}

/// Whether two strings hold the same characters.
pub fn same_text(a: &str, b: &str) -> (r: bool)
    ensures
        r == (a@ == b@),
{
    let mut left = a.chars();
    let mut right = b.chars();
    let ghost mut k: int = 0;
    loop
        invariant
            0 <= k <= a@.len(),
            k <= b@.len(),
            left.remaining() == a@.skip(k),
            right.remaining() == b@.skip(k),
            a@.take(k) == b@.take(k),
        decreases a@.len() - k,
    {
        match (left.next(), right.next()) {
            (None, None) => {
                assert(a@ =~= a@.take(k));
                assert(b@ =~= b@.take(k));
                return true;
            },
            (Some(x), Some(y)) => {
                if x != y {
                    assert(a@[k] != b@[k]);
                    return false;
                }
                assert(a@.take(k + 1) =~= a@.take(k).push(x));
                assert(b@.take(k + 1) =~= b@.take(k).push(y));
                proof {
                    k = k + 1;
                }
            },
            _ => {
                assert(a@.len() != b@.len());
                return false;
            },
        }
    }
}

} // verus!
