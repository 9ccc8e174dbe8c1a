//! Generic extremum selection: the greatest value of a sequence, and the
//! element of a sequence whose derived key is greatest.  The first-wins
//! tie-break defined here is the one every search strategy uses.

use vstd::prelude::*;

verus! {

/// The greater of two integers.
pub open spec fn max_int(a: int, b: int) -> int {
    if b > a {
        b
    } else {
        a
    }
}

/// The greatest value in a non-empty sequence.
pub open spec fn seq_max(s: Seq<int>) -> int
    recommends
        s.len() > 0,
    decreases s.len(),
{
    if s.len() <= 1 {
        s[0]
    } else {
        max_int(seq_max(s.drop_last()), s.last())
    }
}

/// A left fold that keeps a running best index, replacing it only when a
/// strictly greater key appears: `best` is the running best over `s[..i]`,
/// and the result is the index the fold holds after scanning all of `s`.
pub open spec fn first_max_from(s: Seq<int>, best: int, i: int) -> int
    recommends
        0 <= best < i,
    decreases s.len() - i,
{
    if i < 0 || i >= s.len() {
        best
    } else if s[i] > s[best] {
        first_max_from(s, i, i + 1)
    } else {
        first_max_from(s, best, i + 1)
    }
}

/// The index of the first occurrence of the greatest value of a non-empty
/// sequence: the index a left fold with a strict-greater test keeps.
pub open spec fn first_max_index(s: Seq<int>) -> int
    recommends
        s.len() > 0,
{
    first_max_from(s, 0, 1)
}

proof fn lemma_first_max_from_props(s: Seq<int>, best: int, i: int)
    requires
        0 <= best < i,
        best < s.len(),
        forall|j: int| 0 <= j < i ==> #[trigger] s[j] <= s[best],
        forall|j: int| 0 <= j < best ==> #[trigger] s[j] < s[best],
    ensures
        ({
            let r = first_max_from(s, best, i);
            &&& 0 <= r < s.len()
            &&& forall|j: int| 0 <= j < s.len() && j >= i ==> #[trigger] s[j] <= s[r]
            &&& forall|j: int| 0 <= j < i ==> #[trigger] s[j] <= s[r]
            &&& forall|j: int| 0 <= j < r ==> #[trigger] s[j] < s[r]
        }),
    decreases s.len() - i,
{
    if i >= s.len() {
    } else if s[i] > s[best] {
        lemma_first_max_from_props(s, i, i + 1);
    } else {
        lemma_first_max_from_props(s, best, i + 1);
    }
}

/// The first-max index is in range, its value is greatest, and every
/// earlier value is strictly smaller.
pub proof fn lemma_first_max_index_props(s: Seq<int>)
    requires
        s.len() > 0,
    ensures
        0 <= first_max_index(s) < s.len(),
        forall|j: int| 0 <= j < s.len() ==> #[trigger] s[j] <= s[first_max_index(s)],
        forall|j: int| 0 <= j < first_max_index(s) ==> #[trigger] s[j] < s[first_max_index(s)],
{
    lemma_first_max_from_props(s, 0, 1);
}

/// Tie-break determinism: if index `i` holds a greatest value and every
/// earlier value is strictly smaller — that is, `i` is the first maximum —
/// then the fold selects exactly `i`, whatever stands elsewhere in the
/// sequence.  Equal maximal keys therefore never move the selection past
/// the first of them.
pub proof fn lemma_tie_break_first_wins(s: Seq<int>, i: int)
    requires
        0 <= i < s.len(),
        forall|j: int| 0 <= j < s.len() ==> #[trigger] s[j] <= s[i],
        forall|j: int| 0 <= j < i ==> #[trigger] s[j] < s[i],
    ensures
        first_max_index(s) == i,
{
    lemma_first_max_index_props(s);
    let r = first_max_index(s);
    if r < i {
        assert(s[r] < s[i]);
        assert(s[i] <= s[r]);
        assert(false);
    }
    if i < r {
        assert(s[i] < s[r]);
        assert(s[r] <= s[i]);
        assert(false);
    }
}

/// The greatest value of a non-empty sequence is one of its values and is
/// no smaller than any of them; it is the value at the first-max index.
pub proof fn lemma_seq_max_props(s: Seq<int>)
    requires
        s.len() > 0,
    ensures
        forall|j: int| 0 <= j < s.len() ==> #[trigger] s[j] <= seq_max(s),
        exists|j: int| 0 <= j < s.len() && s[j] == seq_max(s),
        seq_max(s) == s[first_max_index(s)],
    decreases s.len(),
{
    if s.len() <= 1 {
        assert(s[0] == seq_max(s));
    } else {
        lemma_seq_max_props(s.drop_last());
        assert(forall|j: int| 0 <= j < s.len() - 1 ==> s[j] == s.drop_last()[j]);
        if seq_max(s) == s.last() {
            assert(s[s.len() - 1] == seq_max(s));
        } else {
            let w = choose|j: int|
                0 <= j < s.drop_last().len() && s.drop_last()[j] == seq_max(s.drop_last());
            assert(s[w] == seq_max(s));
        }
    }
    lemma_first_max_index_props(s);
    let f = first_max_index(s);
    let w = choose|j: int| 0 <= j < s.len() && s[j] == seq_max(s);
    assert(s[w] <= s[f]);
    assert(s[f] <= seq_max(s));
}

/// The view of a vector of scores as a sequence of mathematical integers.
pub open spec fn int_seq(s: Seq<i64>) -> Seq<int> {
    s.map_values(|x: i64| x as int)
}

/// The greatest value in a non-empty vector.
///
/// Mirrors a left fold that replaces the running value only when a strictly
/// greater one appears; only the value is returned, so the result is simply
/// the maximum.
pub fn max(values: &Vec<i64>) -> (r: i64)
    requires
        values@.len() > 0,
    ensures
        r as int == seq_max(int_seq(values@)),
        exists|j: int| 0 <= j < values@.len() && r == values@[j],
        forall|j: int| 0 <= j < values@.len() ==> values@[j] <= r,
{
    let ghost s = int_seq(values@);
    let mut r: i64 = values[0];
    let ghost mut ri: int = 0int;
    let mut i: usize = 1;
    assert(s.take(1) =~= seq![s[0]]);
    while i < values.len()
        invariant
            1 <= i <= values@.len(),
            s == int_seq(values@),
            r as int == seq_max(s.take(i as int)),
            0 <= ri < i,
            r == values@[ri],
        decreases values@.len() - i,
    {
        let v = values[i];
        assert(s.take(i + 1).drop_last() =~= s.take(i as int));
        assert(s.take(i + 1).last() == s[i as int]);
        if v > r {
            r = v;
            proof {
                ri = i as int;
            }
        }
        i += 1;
    }
    proof {
        assert(s.take(values@.len() as int) =~= s);
        lemma_seq_max_props(s);
        assert forall|j: int| 0 <= j < values@.len() implies values@[j] <= r by {
            assert(s[j] == values@[j] as int);
            assert(s[j] <= seq_max(s));
        }
    }
    r
}

/// The element of a non-empty vector whose key is greatest; on equal keys
/// the element that comes first wins.
///
/// The keys stand beside the elements, one for each: `keys[j]` is the key of
/// `items[j]`.
pub fn max_by<T: Copy>(items: &Vec<T>, keys: &Vec<i64>) -> (r: T)
    requires
        items@.len() == keys@.len(),
        items@.len() > 0,
    ensures
        r == items@[first_max_index(int_seq(keys@))],
{
    let ghost s = int_seq(keys@);
    let mut best: T = items[0];
    let mut best_key: i64 = keys[0];
    let ghost mut bi: int = 0int;
    let mut i: usize = 1;
    while i < items.len()
        invariant
            1 <= i <= items@.len(),
            items@.len() == keys@.len(),
            s == int_seq(keys@),
            0 <= bi < i,
            best == items@[bi],
            best_key == keys@[bi],
            first_max_from(s, bi, i as int) == first_max_index(s),
        decreases items@.len() - i,
    {
        let k = keys[i];
        if k > best_key {
            best = items[i];
            best_key = k;
            proof {
                bi = i as int;
            }
        }
        i += 1;
    }
    best
}

} // verus!
