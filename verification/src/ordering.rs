//! The ordering of an axis: which data index each visible position shows.
//!
//! An ordering is a sequence of data indices, indexed by visible position. The
//! absent ordering and the empty one both stand for the identity.

use vstd::prelude::*;

verus! {

/// The data index shown at a visible position: the entry of `ordering` at that
/// position if there is one and it is below `count`, else the position itself.
pub open spec fn spec_map_index(count: int, ordering: Seq<usize>, position: int) -> int {
    if 0 <= position < ordering.len() && ordering[position] < count {
        ordering[position] as int
    } else {
        position
    }
}

/// Map a visible position to a data index. Entries that are missing or stale
/// (not below `count`) fall back to the position itself.
pub fn map_index(count: usize, ordering: &[usize], visible_position: usize) -> (data_index: usize)
    ensures
        data_index == spec_map_index(count as int, ordering@, visible_position as int),
{
    if visible_position < ordering.len() {
        let mapped: usize = ordering[visible_position];
        if mapped < count {
            return mapped;
        }
    }
    visible_position
}

/// The entries of an optional ordering; none for the absent one.
pub open spec fn ordering_entries(ordering: Option<&[usize]>) -> Seq<usize> {
    match ordering {
        Some(o) => o@,
        None => Seq::empty(),
    }
}

/// An optional ordering as a slice: the absent ordering has no entries, so
/// that every position shows the data index of its own number.
pub fn ordering_or_identity<'a>(ordering: Option<&'a [usize]>) -> (r: &'a [usize])
    ensures
        r@ == ordering_entries(ordering),
{
    match ordering {
        Some(o) => o,
        None => {
            let none: &[usize] = &[];
            none
        },
    }
}

/// The first position at or after `start` that holds `value`; the length of
/// `s` if there is none.
pub open spec fn first_position_from(s: Seq<usize>, value: usize, start: int) -> int
    decreases s.len() - start,
{
    if start < 0 || start >= s.len() {
        s.len() as int
    } else if s[start] == value {
        start
    } else {
        first_position_from(s, value, start + 1)
    }
}

/// The first position that holds `value`; the length of `s` if there is none.
pub open spec fn first_position(s: Seq<usize>, value: usize) -> int {
    first_position_from(s, value, 0)
}

/// `s`, extended to `len` entries where it is shorter: each new entry holds its
/// own position.
pub open spec fn identity_extended(s: Seq<usize>, len: int) -> Seq<usize> {
    if len <= s.len() {
        s
    } else {
        Seq::new(
            len as nat,
            |i: int|
                if i < s.len() {
                    s[i]
                } else {
                    i as usize
                },
        )
    }
}

/// `s` with its first `from` taken out and put back at the position at which
/// `to` first stood.
pub open spec fn moved(s: Seq<usize>, from: usize, to: usize) -> Seq<usize> {
    s.remove(first_position(s, from)).insert(first_position(s, to), from)
}

/// The sequence that an ordering stands for before it is changed.
pub open spec fn ordering_base(ordering: Option<Seq<usize>>) -> Seq<usize> {
    match ordering {
        Some(s) => s,
        None => Seq::empty(),
    }
}

/// The ordering grown to hold both `from` and `to`.
pub open spec fn ordering_grown(ordering: Option<Seq<usize>>, from: usize, to: usize) -> Seq<
    usize,
> {
    identity_extended(
        ordering_base(ordering),
        if from >= to {
            from + 1
        } else {
            to + 1
        },
    )
}

/// What `apply_reordering` makes of an ordering.
pub open spec fn reordered(ordering: Option<Seq<usize>>, from: usize, to: usize) -> Option<
    Seq<usize>,
> {
    if from == to {
        ordering
    } else {
        Some(moved(ordering_grown(ordering, from, to), from, to))
    }
}

/// The orderings on which a move of `from` onto `to` is defined: after growing,
/// both values occur, and the grown length fits in a `usize`.
pub open spec fn reordering_admits(ordering: Option<Seq<usize>>, from: usize, to: usize) -> bool {
    from != to ==> {
        &&& from < usize::MAX
        &&& to < usize::MAX
        &&& ordering_grown(ordering, from, to).contains(from)
        &&& ordering_grown(ordering, from, to).contains(to)
    }
}

/// The contents of an optional ordering.
pub open spec fn ordering_view(ordering: Option<Vec<usize>>) -> Option<Seq<usize>> {
    match ordering {
        Some(v) => Some(v@),
        None => None,
    }
}

/// `s` holds each of `0..s.len()` exactly once.
pub open spec fn is_permutation(s: Seq<usize>) -> bool {
    &&& forall|i: int| 0 <= i < s.len() ==> s[i] < s.len()
    &&& s.no_duplicates()
    &&& forall|v: usize| v < s.len() ==> s.contains(v)
}

/// Where `first_position_from` points: at the value, with no occurrence between
/// `start` and there.
pub proof fn lemma_first_position_from(s: Seq<usize>, value: usize, start: int)
    requires
        0 <= start <= s.len(),
    ensures
        start <= first_position_from(s, value, start) <= s.len(),
        first_position_from(s, value, start) < s.len() ==> s[first_position_from(s, value, start)]
            == value,
        forall|j: int| start <= j < first_position_from(s, value, start) ==> s[j] != value,
    decreases s.len() - start,
{
    if start < s.len() && s[start] != value {
        lemma_first_position_from(s, value, start + 1);
    }
}

/// A value that occurs is found, and `first_position` is its first occurrence.
pub proof fn lemma_first_position(s: Seq<usize>, value: usize)
    ensures
        0 <= first_position(s, value) <= s.len(),
        s.contains(value) <==> first_position(s, value) < s.len(),
        first_position(s, value) < s.len() ==> s[first_position(s, value)] == value,
        forall|j: int| 0 <= j < first_position(s, value) ==> s[j] != value,
{
    lemma_first_position_from(s, value, 0);
    let p = first_position(s, value);
    if s.contains(value) {
        let i = choose|i: int| 0 <= i < s.len() && s[i] == value;
        assert(p <= i);
    }
    if p < s.len() {
        assert(s[p] == value);
    }
}

/// A value occurs in a grown ordering if it occurred before or is one of the
/// identity entries that were added.
pub proof fn lemma_identity_extended_contains(s: Seq<usize>, len: int, value: usize)
    requires
        len <= usize::MAX + 1,
    ensures
        identity_extended(s, len).contains(value) <==> s.contains(value) || s.len() <= value < len,
{
    let g = identity_extended(s, len);
    if s.contains(value) {
        let i = choose|i: int| 0 <= i < s.len() && s[i] == value;
        assert(g[i] == value);
    }
    if s.len() <= value < len {
        assert(g[value as int] == value);
    }
    if g.contains(value) {
        let i = choose|i: int| 0 <= i < g.len() && g[i] == value;
        if i < s.len() {
            assert(s[i] == value);
        }
    }
}

/// Whether a move of `from` onto `to` is defined on the ordering.
pub fn admits_reordering(ordering: &Option<Vec<usize>>, from: usize, to: usize) -> (r: bool)
    ensures
        r == reordering_admits(ordering_view(*ordering), from, to),
{
    if from == to {
        return true;
    }
    if from == usize::MAX || to == usize::MAX {
        return false;
    }
    proof {
        let top = if from >= to {
            from + 1
        } else {
            to + 1
        };
        lemma_identity_extended_contains(ordering_base(ordering_view(*ordering)), top, from);
        lemma_identity_extended_contains(ordering_base(ordering_view(*ordering)), top, to);
    }
    match ordering {
        Some(v) => {
            proof {
                lemma_first_position(v@, from);
                lemma_first_position(v@, to);
            }
            (from >= v.len() || position_of(v, from) < v.len()) && (to >= v.len() || position_of(
                v,
                to,
            ) < v.len())
        },
        None => true,
    }
}

fn position_of(v: &Vec<usize>, value: usize) -> (p: usize)
    ensures
        p == first_position(v@, value),
{
    let mut i: usize = 0;
    while i < v.len()
        invariant
            i <= v.len(),
            first_position_from(v@, value, i as int) == first_position(v@, value),
        decreases v.len() - i,
    {
        if v[i] == value {
            return i;
        }
        i += 1;
    }
    i
}

fn grow_identity(v: &mut Vec<usize>, len: usize)
    ensures
        final(v)@ == identity_extended(old(v)@, len as int),
{
    while v.len() < len
        invariant
            old(v)@.len() <= v@.len(),
            v@.len() <= len || v@.len() == old(v)@.len(),
            forall|i: int| 0 <= i < old(v)@.len() ==> v@[i] == old(v)@[i],
            forall|i: int| old(v)@.len() <= i < v@.len() ==> v@[i] == i,
        decreases len - v.len(),
    {
        let next: usize = v.len();
        v.push(next);
    }
    assert(v@ =~= identity_extended(old(v)@, len as int));
}

fn reorder_in(v: &mut Vec<usize>, from: usize, to: usize)
    requires
        from != to,
        reordering_admits(Some(old(v)@), from, to),
    ensures
        Some(final(v)@) == reordered(Some(old(v)@), from, to),
{
    let top: usize = if from >= to {
        from
    } else {
        to
    };
    grow_identity(v, top + 1);
    proof {
        lemma_first_position(v@, from);
        lemma_first_position(v@, to);
    }
    let from_pos: usize = position_of(v, from);
    let to_pos: usize = position_of(v, to);
    let _ = v.remove(from_pos);
    v.insert(to_pos, from);
}

/// Move `from` to where `to` stands in `ordering`.
///
/// With `from == to` nothing changes. Otherwise an absent ordering starts out
/// empty, the ordering is extended by identity entries until it holds both
/// values, the first `from` is taken out, and `from` is put back at the
/// position at which `to` first stood before that.
pub fn apply_reordering(ordering: &mut Option<Vec<usize>>, from: usize, to: usize)
    requires
        reordering_admits(ordering_view(*old(ordering)), from, to),
    ensures
        ordering_view(*final(ordering)) == reordered(ordering_view(*old(ordering)), from, to),
        from == to ==> *final(ordering) == *old(ordering),
{
    if from == to {
        return ;
    }
    let mut v: Vec<usize> = match ordering.take() {
        Some(v) => v,
        None => Vec::new(),
    };
    reorder_in(&mut v, from, to);
    *ordering = Some(v);
}

/// Growing a permutation by identity entries gives a permutation.
pub proof fn lemma_identity_extended_is_permutation(s: Seq<usize>, len: int)
    requires
        is_permutation(s),
        len <= usize::MAX,
    ensures
        is_permutation(identity_extended(s, len)),
        identity_extended(s, len).len() == (if len <= s.len() {
            s.len() as int
        } else {
            len
        }),
{
    let g = identity_extended(s, len);
    if len > s.len() {
        assert forall|v: usize| v < g.len() implies g.contains(v) by {
            if v < s.len() {
                assert(s.contains(v));
                let i = choose|i: int| 0 <= i < s.len() && s[i] == v;
                assert(g[i] == v);
            } else {
                assert(g[v as int] == v);
            }
        }
    }
}

/// A move within a permutation gives a permutation of the same length.
pub proof fn lemma_moved_is_permutation(s: Seq<usize>, from: usize, to: usize)
    requires
        is_permutation(s),
        from < s.len(),
        to < s.len(),
    ensures
        is_permutation(moved(s, from, to)),
        moved(s, from, to).len() == s.len(),
{
    lemma_first_position(s, from);
    lemma_first_position(s, to);
    let fp = first_position(s, from);
    let tp = first_position(s, to);
    let taken = s.remove(fp);
    let r = moved(s, from, to);
    assert(r.len() == s.len());
    // Each entry of the result is the entry of `s` at `source(k)`, and `source`
    // maps no two positions to one.
    let source = |k: int|
        if k == tp {
            fp
        } else {
            let k1 = if k < tp {
                k
            } else {
                k - 1
            };
            if k1 < fp {
                k1
            } else {
                k1 + 1
            }
        };
    assert forall|k: int| 0 <= k < r.len() implies 0 <= #[trigger] source(k) < s.len() && r[k]
        == s[source(k)] by {}
    assert forall|i: int, j: int| 0 <= i < r.len() && 0 <= j < r.len() && i != j implies r[i]
        != r[j] by {
        assert(source(i) != source(j));
        assert(r[i] == s[source(i)]);
        assert(r[j] == s[source(j)]);
    }
    assert forall|i: int| 0 <= i < r.len() implies r[i] < r.len() by {
        assert(r[i] == s[source(i)]);
    }
    assert forall|v: usize| v < r.len() implies r.contains(v) by {
        if v == from {
            assert(r[tp] == v);
        } else {
            assert(s.contains(v));
            let i = choose|i: int| 0 <= i < s.len() && s[i] == v;
            let k1 = if i < fp {
                i
            } else {
                i - 1
            };
            let k = if k1 < tp {
                k1
            } else {
                k1 + 1
            };
            assert(source(k) == i);
            assert(r[k] == v);
        }
    }
}

/// A move of `from` onto `to` is defined on every permutation, whatever the two
/// indices are, as long as the grown length fits in a `usize`.
pub proof fn lemma_permutation_admits_reordering(
    ordering: Option<Seq<usize>>,
    from: usize,
    to: usize,
)
    requires
        is_permutation(ordering_base(ordering)),
        from < usize::MAX,
        to < usize::MAX,
    ensures
        reordering_admits(ordering, from, to),
{
    if from != to {
        let top = if from >= to {
            from + 1
        } else {
            to + 1
        };
        lemma_identity_extended_is_permutation(ordering_base(ordering), top);
    }
}

/// The length of an ordering after a move of `from` onto `to`: the largest of
/// its length before, `from + 1` and `to + 1`.
pub open spec fn reordered_length(len: int, from: usize, to: usize) -> int {
    if len > from && len > to {
        len
    } else if from >= to {
        from + 1
    } else {
        to + 1
    }
}

/// Moving `from` onto `to`, with `from != to`, in a permutation of `0..len`
/// gives a permutation of `0..n`, where `n` is the largest of `len`, `from + 1`
/// and `to + 1`.
pub proof fn lemma_reordering_gives_permutation(
    ordering: Option<Seq<usize>>,
    from: usize,
    to: usize,
)
    requires
        is_permutation(ordering_base(ordering)),
        from != to,
        from < usize::MAX,
        to < usize::MAX,
    ensures
        reordered(ordering, from, to) is Some,
        is_permutation(reordered(ordering, from, to).unwrap()),
        reordered(ordering, from, to).unwrap().len() == reordered_length(
            ordering_base(ordering).len() as int,
            from,
            to,
        ),
{
    let top = if from >= to {
        from + 1
    } else {
        to + 1
    };
    lemma_identity_extended_is_permutation(ordering_base(ordering), top);
    lemma_moved_is_permutation(ordering_grown(ordering, from, to), from, to);
}

} // verus!
