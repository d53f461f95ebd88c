//! Searching and cutting byte texts.

use vstd::prelude::*;

verus! {

/// A text without the matches of a pattern, found from left to right and
/// never overlapping. An empty pattern matches nowhere.
pub open spec fn without(text: Seq<u8>, pattern: Seq<u8>) -> Seq<u8>
    decreases text.len(),
{
    if pattern.len() == 0 || text.len() < pattern.len() {
        text
    } else if text.subrange(0, pattern.len() as int) == pattern {
        without(text.skip(pattern.len() as int), pattern)
    } else {
        seq![text[0]] + without(text.skip(1), pattern)
    }
}

/// Whether a pattern stands in a text at a position.
pub open spec fn stands_at(text: Seq<u8>, at: int, pattern: Seq<u8>) -> bool {
    0 <= at && at + pattern.len() <= text.len() && text.subrange(at, at + pattern.len())
        == pattern
}

/// Tells whether a pattern stands in a text at a position.
pub fn matches_at(text: &[u8], at: usize, pattern: &[u8]) -> (r: bool)
    ensures
        r == stands_at(text@, at as int, pattern@),
{
    let n = pattern.len();
    if at > text.len() || text.len() - at < n {
        return false;
    }
    let mut j: usize = 0;
    while j < n
        invariant
            j <= n,
            n == pattern@.len(),
            at + n <= text@.len() <= usize::MAX,
            forall|k: int| 0 <= k < j ==> text@[at + k] == pattern@[k],
        decreases n - j,
    {
        if text[at + j] != pattern[j] {
            assert(text@.subrange(at as int, at + n)[j as int] == text@[at + j]);
            return false;
        }
        j += 1;
    }
    assert(text@.subrange(at as int, at + n) =~= pattern@);
    true
}

/// Removes every match of a pattern from a text, from left to right.
pub fn remove_all(text: &[u8], pattern: &[u8]) -> (r: Vec<u8>)
    ensures
        r@ == without(text@, pattern@),
{
    let n = pattern.len();
    if n == 0 {
        return vstd::slice::slice_to_vec(text);
    }
    let mut out: Vec<u8> = Vec::new();
    let mut i: usize = 0;
    assert(text@.skip(0) =~= text@);
    while i < text.len()
        invariant
            i <= text@.len(),
            n == pattern@.len(),
            n > 0,
            out@ + without(text@.skip(i as int), pattern@) == without(text@, pattern@),
        decreases text@.len() - i,
    {
        let ghost rest = text@.skip(i as int);
        let found = matches_at(text, i, pattern);
        assert(i + n <= text@.len() ==> rest.subrange(0, n as int) =~= text@.subrange(
            i as int,
            i + n,
        ));
        if found {
            assert(rest.skip(n as int) =~= text@.skip(i + n));
            i += n;
        } else {
            proof {
                assert(rest.skip(1) =~= text@.skip(i + 1));
                if rest.len() < n {
                    assert(without(rest.skip(1), pattern@) == rest.skip(1));
                    assert(rest =~= seq![rest[0]] + rest.skip(1));
                }
                assert(without(rest, pattern@) == seq![text@[i as int]] + without(
                    rest.skip(1),
                    pattern@,
                ));
                assert(out@.push(text@[i as int]) + without(rest.skip(1), pattern@) =~= out@
                    + without(rest, pattern@));
            }
            out.push(text[i]);
            i += 1;
        }
    }
    assert(without(text@.skip(i as int), pattern@) =~= Seq::<u8>::empty());
    assert(out@ + Seq::<u8>::empty() =~= out@);
    out
}

/// The place of the first byte `b` at or behind `from`; the length of the
/// text where there is none.
pub open spec fn position_of(text: Seq<u8>, b: u8, from: int) -> int
    decreases text.len() - from,
{
    if from >= text.len() {
        text.len() as int
    } else if text[from] == b {
        from
    } else {
        position_of(text, b, from + 1)
    }
}

/// Whether a pattern stands somewhere in a text.
pub open spec fn contains_pattern(text: Seq<u8>, pattern: Seq<u8>) -> bool {
    exists|i: int|
        0 <= i && i + pattern.len() <= text.len() && #[trigger] text.subrange(
            i,
            i + pattern.len(),
        ) == pattern
}

/// Searching from a place in a text is searching from the start of what
/// stands behind that place.
pub proof fn lemma_position_of_skip(text: Seq<u8>, b: u8, k: int, from: int)
    requires
        0 <= k <= text.len(),
        0 <= from,
    ensures
        position_of(text.skip(k), b, from) + k == position_of(text, b, from + k),
    decreases text.len() - k - from,
{
    if from < text.skip(k).len() {
        assert(text.skip(k)[from] == text[from + k]);
        if text[from + k] != b {
            lemma_position_of_skip(text, b, k, from + 1);
        }
    }
}

/// Finds the first byte `b` at or behind `from`.
pub fn find(text: &[u8], b: u8, from: usize) -> (r: usize)
    ensures
        r == position_of(text@, b, from as int),
        r <= text@.len(),
        from <= text@.len() ==> from <= r,
{
    let n = text.len();
    if from >= n {
        return n;
    }
    let mut i: usize = from;
    while i < n && text[i] != b
        invariant
            from <= i <= n,
            n == text@.len(),
            position_of(text@, b, i as int) == position_of(text@, b, from as int),
        decreases n - i,
    {
        i += 1;
    }
    i
}

/// Tells whether a pattern stands somewhere in a text.
pub fn contains(text: &[u8], pattern: &[u8]) -> (r: bool)
    ensures
        r == contains_pattern(text@, pattern@),
{
    let n = pattern.len();
    if text.len() < n {
        return false;
    }
    if n == 0 {
        assert(text@.subrange(0int, 0int + pattern@.len()) =~= pattern@);
        return true;
    }
    let last = text.len() - n;
    let mut i: usize = 0;
    while i <= last
        invariant
            i <= last + 1,
            last + n == text@.len() <= usize::MAX,
            n == pattern@.len(),
            n >= 1,
            forall|j: int| 0 <= j < i ==> #[trigger] text@.subrange(j, j + n) != pattern@,
        decreases last + 1 - i,
    {
        if matches_at(text, i, pattern) {
            return true;
        }
        i += 1;
    }
    false
}

/// Copies a slice of exactly `N` bytes into an array.
pub(crate) fn copy_to_array<const N: usize>(bytes: &[u8]) -> (r: [u8; N])
    requires
        bytes@.len() == N,
    ensures
        r@ == bytes@,
{
    let mut out = [0u8; N];
    let mut i: usize = 0;
    while i < N
        invariant
            i <= N,
            bytes@.len() == N,
            forall|j: int| 0 <= j < i ==> out@[j] == bytes@[j],
        decreases N - i,
    {
        out[i] = bytes[i];
        i += 1;
    }
    assert(out@ =~= bytes@);
    out
}

} // verus!
