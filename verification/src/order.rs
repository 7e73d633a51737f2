//! The order of texts as `String` compares them: character by character by
//! code point, a prefix first. UTF-8 keeps that order, so it is the byte
//! order `Ord` uses. A stable sort by such keys, as `sort_by_key` does it.

use vstd::prelude::*;

verus! {

/// `a` comes before `b` or equals it.
pub open spec fn text_le(a: Seq<char>, b: Seq<char>) -> bool
    decreases a.len(),
{
    if a.len() == 0 {
        true
    } else if b.len() == 0 {
        false
    } else if a[0] != b[0] {
        (a[0] as int) < (b[0] as int)
    } else {
        text_le(a.drop_first(), b.drop_first())
    }
}

/// Every text comes before or equals itself.
pub proof fn lemma_text_le_reflexive(a: Seq<char>)
    ensures
        text_le(a, a),
    decreases a.len(),
{
    if a.len() > 0 {
        lemma_text_le_reflexive(a.drop_first());
    }
}

/// Of two texts one comes first.
pub proof fn lemma_text_le_total(a: Seq<char>, b: Seq<char>)
    ensures
        text_le(a, b) || text_le(b, a),
    decreases a.len(),
{
    if a.len() > 0 && b.len() > 0 && a[0] == b[0] {
        lemma_text_le_total(a.drop_first(), b.drop_first());
    }
}

/// Texts in order stay in order over a third.
pub proof fn lemma_text_le_transitive(a: Seq<char>, b: Seq<char>, c: Seq<char>)
    requires
        text_le(a, b),
        text_le(b, c),
    ensures
        text_le(a, c),
    decreases a.len(),
{
    if a.len() > 0 && b.len() > 0 && c.len() > 0 && a[0] == b[0] && b[0] == c[0] {
        lemma_text_le_transitive(a.drop_first(), b.drop_first(), c.drop_first());
    }
}

/// Whether `a` comes before `b` or equals it.
pub fn le(a: &Vec<char>, b: &Vec<char>) -> (r: bool)
    ensures
        r == text_le(a@, b@),
{
    let mut i: usize = 0;
    assert(a@.skip(0) == a@ && b@.skip(0) == b@);
    while i < a.len() && i < b.len()
        invariant
            i <= a.len(),
            i <= b.len(),
            text_le(a@, b@) == text_le(a@.skip(i as int), b@.skip(i as int)),
        decreases a.len() - i,
    {
        let x = a[i];
        let y = b[i];
        assert(a@.skip(i as int)[0] == x && b@.skip(i as int)[0] == y);
        if x != y {
            return x < y;
        }
        assert(a@.skip(i as int).drop_first() == a@.skip(i + 1));
        assert(b@.skip(i as int).drop_first() == b@.skip(i + 1));
        i = i + 1;
    }
    i == a.len()
}

/// `order` lists every index of `keys` once, in the order of the keys, and
/// equal keys in the order they had: the order of a stable sort.
pub open spec fn stable_ascending(keys: Seq<Seq<char>>, order: Seq<usize>) -> bool {
    &&& order.len() == keys.len()
    &&& forall|i: int| 0 <= i < order.len() ==> #[trigger] order[i] < keys.len()
    &&& forall|i: int, j: int| 0 <= i < j < order.len() ==> order[i] != order[j]
    &&& forall|i: int, j: int|
        0 <= i < j < order.len() ==> text_le(keys[order[i] as int], keys[order[j] as int])
    &&& forall|i: int, j: int|
        0 <= i < j < order.len() && keys[order[i] as int] == keys[order[j] as int] ==> order[i]
            < order[j]
}

/// The indices of `order` as integers.
pub open spec fn indices(order: Seq<usize>) -> Seq<int> {
    order.map_values(|i: usize| i as int)
}

/// A stable order names every index: it is a permutation of the keys.
pub proof fn lemma_order_covers(keys: Seq<Seq<char>>, order: Seq<usize>)
    requires
        stable_ascending(keys, order),
    ensures
        forall|k: int| 0 <= k < keys.len() ==> #[trigger] indices(order).contains(k),
{
    let n = keys.len();
    let s = indices(order);
    assert(s.no_duplicates()) by {
        assert forall|i: int, j: int| 0 <= i < s.len() && 0 <= j < s.len() && i != j implies s[i] != s[j] by {
            if i < j {
                assert(order[i] != order[j]);
            } else {
                assert(order[j] != order[i]);
            }
        }
    }
    s.unique_seq_to_set();
    let range = vstd::set_lib::set_int_range(0, n as int);
    vstd::set_lib::lemma_int_range(0, n as int);
    assert(s.to_set().subset_of(range)) by {
        assert forall|x: int| s.to_set().contains(x) implies range.contains(x) by {
            let j = choose|j: int| 0 <= j < s.len() && s[j] == x;
            assert(order[j] < n);
        }
    }
    s.lemma_cardinality_of_set();
    vstd::set_lib::lemma_len_subset(s.to_set(), range);
    vstd::set_lib::lemma_subset_equality(s.to_set(), range);
    assert forall|k: int| 0 <= k < n implies #[trigger] indices(order).contains(k) by {
        assert(range.contains(k));
        assert(s.to_set().contains(k));
    }
}

/// Putting the last index in at `pos`, after the keys before or equal to its
/// key and before the later ones, keeps the order stable.
proof fn lemma_insert(ks: Seq<Seq<char>>, old: Seq<usize>, pos: int)
    requires
        ks.len() >= 1,
        ks.len() - 1 <= usize::MAX,
        stable_ascending(ks.drop_last(), old),
        0 <= pos <= old.len(),
        forall|q: int| 0 <= q < pos ==> text_le(ks[#[trigger] old[q] as int], ks.last()),
        forall|q: int| pos <= q < old.len() ==> !text_le(ks[#[trigger] old[q] as int], ks.last()),
    ensures
        stable_ascending(ks, old.insert(pos, (ks.len() - 1) as usize)),
{
    let i = (ks.len() - 1) as usize;
    let n = old.insert(pos, i);
    old.insert_ensures(pos, i);
    let d = ks.drop_last();
    assert forall|q: int| 0 <= q < old.len() implies #[trigger] d[old[q] as int] == ks[old[q] as int] by {}
    assert forall|a: int| 0 <= a < n.len() implies #[trigger] n[a] < ks.len() by {
        if a > pos {
            assert(n[a] == old[a - 1]);
        }
    }
    assert forall|a: int, b: int| 0 <= a < b < n.len() implies n[a] != n[b] by {
        if a > pos {
            assert(n[a] == old[a - 1]);
        }
        if b > pos {
            assert(n[b] == old[b - 1]);
        }
    }
    assert forall|a: int, b: int| 0 <= a < b < n.len() implies text_le(ks[n[a] as int], ks[n[b] as int]) by {
        if a > pos {
            assert(n[a] == old[a - 1]);
        }
        if b > pos {
            assert(n[b] == old[b - 1]);
        }
        if a != pos && b != pos {
            let x = if a < pos { a } else { a - 1 };
            let y = if b < pos { b } else { b - 1 };
            assert(text_le(d[old[x] as int], d[old[y] as int]));
        } else if a == pos {
            lemma_text_le_total(ks[n[b] as int], ks.last());
        }
    }
    assert forall|a: int, b: int|
        0 <= a < b < n.len() && ks[n[a] as int] == ks[n[b] as int] implies n[a] < n[b] by {
        if a > pos {
            assert(n[a] == old[a - 1]);
        }
        if b > pos {
            assert(n[b] == old[b - 1]);
        }
        if a != pos && b != pos {
            let x = if a < pos { a } else { a - 1 };
            let y = if b < pos { b } else { b - 1 };
            assert(d[old[x] as int] == d[old[y] as int]);
        } else if a == pos {
            lemma_text_le_reflexive(ks.last());
        }
    }
}

/// The views of character vectors.
pub open spec fn char_views(list: Seq<Vec<char>>) -> Seq<Seq<char>> {
    list.map_values(|v: Vec<char>| v@)
}

/// The indices of `keys` in the order of a stable sort by key.
pub fn ascending_order(keys: &Vec<Vec<char>>) -> (order: Vec<usize>)
    ensures
        stable_ascending(char_views(keys@), order@),
{
    let ghost all = char_views(keys@);
    let mut order: Vec<usize> = Vec::new();
    let mut i: usize = 0;
    while i < keys.len()
        invariant
            i <= keys.len(),
            all == char_views(keys@),
            stable_ascending(all.take(i as int), order@),
        decreases keys.len() - i,
    {
        let mut pos: usize = 0;
        while pos < order.len() && le(&keys[order[pos]], &keys[i])
            invariant
                pos <= order.len() == i < keys.len(),
                all == char_views(keys@),
                stable_ascending(all.take(i as int), order@),
                forall|q: int| 0 <= q < pos ==> text_le(all[#[trigger] order@[q] as int], all[i as int]),
            decreases order.len() - pos,
        {
            pos = pos + 1;
        }
        let ghost old_order = order@;
        let ghost ks = all.take(i + 1);
        proof {
            let d = all.take(i as int);
            assert(ks.drop_last() == d);
            assert forall|q: int| 0 <= q < old_order.len() implies #[trigger] d[old_order[q] as int]
                == all[old_order[q] as int] by {}
            assert forall|q: int| pos <= q < old_order.len() implies !text_le(ks[#[trigger] old_order[q] as int], ks.last()) by {
                if q > pos {
                    assert(text_le(d[old_order[pos as int] as int], d[old_order[q] as int]));
                    if text_le(ks[old_order[q] as int], ks.last()) {
                        lemma_text_le_transitive(
                            d[old_order[pos as int] as int],
                            d[old_order[q] as int],
                            ks.last(),
                        );
                    }
                }
            }
            assert forall|q: int| 0 <= q < pos implies text_le(ks[#[trigger] old_order[q] as int], ks.last()) by {}
            lemma_insert(ks, old_order, pos as int);
        }
        order.insert(pos, i);
        i = i + 1;
    }
    assert(all.take(keys.len() as int) == all);
    order
}

} // verus!
