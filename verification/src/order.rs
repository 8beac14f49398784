//! Ordering text as Rust orders `String`s (by character code, shorter
//! prefix first), and a stable sort of positions by two text keys.
use vstd::prelude::*;

verus! {

/// The comparison of `a` and `b` by character code: negative, zero or
/// positive.
pub open spec fn text_rank(a: Seq<char>, b: Seq<char>) -> int
    decreases a.len(),
{
    if a.len() == 0 {
        if b.len() == 0 {
            0
        } else {
            -1
        }
    } else if b.len() == 0 {
        1
    } else if a[0] < b[0] {
        -1
    } else if a[0] > b[0] {
        1
    } else {
        text_rank(a.drop_first(), b.drop_first())
    }
}

pub proof fn lemma_rank_antisymmetric(a: Seq<char>, b: Seq<char>)
    ensures
        text_rank(a, b) == -text_rank(b, a),
        -1 <= text_rank(a, b) <= 1,
    decreases a.len(),
{
    if a.len() > 0 && b.len() > 0 && a[0] == b[0] {
        lemma_rank_antisymmetric(a.drop_first(), b.drop_first());
    } else if a.len() > 0 && b.len() > 0 {
        assert(a[0] != b[0]);
    }
}

pub proof fn lemma_rank_zero_equal(a: Seq<char>, b: Seq<char>)
    ensures
        (text_rank(a, b) == 0) == (a == b),
    decreases a.len(),
{
    if a.len() > 0 && b.len() > 0 {
        if a[0] == b[0] {
            assert(a[0] == b[0]);
            lemma_rank_zero_equal(a.drop_first(), b.drop_first());
            if a.drop_first() == b.drop_first() {
                assert(a =~= seq![a[0]] + a.drop_first());
                assert(b =~= seq![b[0]] + b.drop_first());
            }
            if a == b {
                assert(a.drop_first() =~= b.drop_first());
            }
        } else {
            assert(a[0] != b[0]);
        }
    } else if a.len() == 0 && b.len() > 0 {
        assert(a != b);
    } else if a.len() > 0 {
        assert(a != b);
    } else {
        assert(a =~= b);
    }
}

pub proof fn lemma_rank_transitive(a: Seq<char>, b: Seq<char>, c: Seq<char>)
    requires
        text_rank(a, b) <= 0,
        text_rank(b, c) <= 0,
    ensures
        text_rank(a, c) <= 0,
        (text_rank(a, b) < 0 || text_rank(b, c) < 0) ==> text_rank(a, c) < 0,
    decreases a.len(),
{
    if a.len() > 0 && b.len() > 0 && c.len() > 0 {
        if a[0] == b[0] && b[0] == c[0] {
            lemma_rank_transitive(a.drop_first(), b.drop_first(), c.drop_first());
        }
    }
}

/// Compares two character sequences as `String`s compare.
pub fn compare_chars(a: &Vec<char>, b: &Vec<char>) -> (r: i8)
    ensures
        r as int == text_rank(a@, b@),
{
    let mut i: usize = 0;
    assert(a@.skip(0) =~= a@ && b@.skip(0) =~= b@);
    while i < a.len() && i < b.len() && a[i] == b[i]
        invariant
            i <= a@.len(),
            i <= b@.len(),
            a@.subrange(0, i as int) == b@.subrange(0, i as int),
            text_rank(a@, b@) == text_rank(a@.skip(i as int), b@.skip(i as int)),
        decreases a.len() - i,
    {
        proof {
            let sa = a@.skip(i as int);
            let sb = b@.skip(i as int);
            assert(sa[0] == b@[i as int]);
            assert(sa.drop_first() =~= a@.skip(i + 1));
            assert(sb.drop_first() =~= b@.skip(i + 1));
            assert(a@.subrange(0, i + 1) =~= a@.subrange(0, i as int).push(a@[i as int]));
            assert(b@.subrange(0, i + 1) =~= b@.subrange(0, i as int).push(b@[i as int]));
        }
        i = i + 1;
    }
    let ghost sa = a@.skip(i as int);
    let ghost sb = b@.skip(i as int);
    if i == a.len() {
        if i == b.len() {
            assert(sa.len() == 0 && sb.len() == 0);
            0
        } else {
            assert(sa.len() == 0 && sb.len() > 0);
            -1
        }
    } else if i == b.len() {
        assert(sa.len() > 0 && sb.len() == 0);
        1
    } else if a[i] < b[i] {
        assert(sa[0] == a@[i as int] && sb[0] == b@[i as int]);
        -1
    } else {
        assert(sa[0] == a@[i as int] && sb[0] == b@[i as int]);
        1
    }
}

/// Position `i` comes before position `j` when sorting by `k1`, then `k2`,
/// then position.
pub open spec fn key_before(k1: Seq<Seq<char>>, k2: Seq<Seq<char>>, i: int, j: int) -> bool {
    let c1 = text_rank(k1[i], k1[j]);
    let c2 = text_rank(k2[i], k2[j]);
    c1 < 0 || (c1 == 0 && (c2 < 0 || (c2 == 0 && i < j)))
}

/// `order` lists positions below `n`, each ranked strictly before the next
/// by `key_before`; with `order.len() == n` it is the stable sort of
/// `0..n` by the two keys.
pub open spec fn sorted_positions(order: Seq<int>, k1: Seq<Seq<char>>, k2: Seq<Seq<char>>, n: int) -> bool {
    &&& forall|a: int| 0 <= a < order.len() ==> 0 <= #[trigger] order[a] < n
    &&& forall|a: int, b: int|
        0 <= a < b < order.len() ==> key_before(k1, k2, #[trigger] order[a], #[trigger] order[b])
}

pub proof fn lemma_key_before_total(k1: Seq<Seq<char>>, k2: Seq<Seq<char>>, i: int, j: int)
    requires
        i != j,
    ensures
        key_before(k1, k2, i, j) || key_before(k1, k2, j, i),
        !(key_before(k1, k2, i, j) && key_before(k1, k2, j, i)),
{
    lemma_rank_antisymmetric(k1[i], k1[j]);
    lemma_rank_antisymmetric(k2[i], k2[j]);
}

pub proof fn lemma_key_before_transitive(k1: Seq<Seq<char>>, k2: Seq<Seq<char>>, i: int, j: int, l: int)
    requires
        key_before(k1, k2, i, j),
        key_before(k1, k2, j, l),
    ensures
        key_before(k1, k2, i, l),
{
    lemma_rank_transitive(k1[i], k1[j], k1[l]);
    if text_rank(k1[i], k1[j]) == 0 && text_rank(k1[j], k1[l]) == 0 {
        lemma_rank_zero_equal(k1[i], k1[j]);
        lemma_rank_zero_equal(k1[j], k1[l]);
        lemma_rank_transitive(k2[i], k2[j], k2[l]);
        if text_rank(k2[i], k2[j]) == 0 && text_rank(k2[j], k2[l]) == 0 {
            lemma_rank_zero_equal(k2[i], k2[j]);
            lemma_rank_zero_equal(k2[j], k2[l]);
            lemma_rank_zero_equal(k2[i], k2[l]);
        }
        lemma_rank_zero_equal(k1[i], k1[l]);
    }
}

/// The view of a list of positions.
pub open spec fn positions(v: Seq<usize>) -> Seq<int> {
    v.map_values(|x: usize| x as int)
}

/// Whether position `i` comes before position `j`.
fn before_exec(k1: &Vec<Vec<char>>, k2: &Vec<Vec<char>>, i: usize, j: usize) -> (r: bool)
    requires
        i < k1@.len(),
        j < k1@.len(),
        k1@.len() == k2@.len(),
    ensures
        r == key_before(k1@.map_values(|v: Vec<char>| v@), k2@.map_values(|v: Vec<char>| v@), i as int, j as int),
{
    let c1 = compare_chars(&k1[i], &k1[j]);
    if c1 != 0 {
        return c1 < 0;
    }
    let c2 = compare_chars(&k2[i], &k2[j]);
    if c2 != 0 {
        return c2 < 0;
    }
    i < j
}

/// The positions `0..n` in the stable order of `(k1, k2)`.
pub fn sort_positions(k1: &Vec<Vec<char>>, k2: &Vec<Vec<char>>) -> (order: Vec<usize>)
    requires
        k1@.len() == k2@.len(),
    ensures
        order@.len() == k1@.len(),
        sorted_positions(
            positions(order@),
            k1@.map_values(|v: Vec<char>| v@),
            k2@.map_values(|v: Vec<char>| v@),
            k1@.len() as int,
        ),
{
    let ghost s1 = k1@.map_values(|v: Vec<char>| v@);
    let ghost s2 = k2@.map_values(|v: Vec<char>| v@);
    let n = k1.len();
    let mut order: Vec<usize> = Vec::new();
    let mut k: usize = 0;
    while k < n
        invariant
            k <= n == k1@.len() == k2@.len(),
            s1 == k1@.map_values(|v: Vec<char>| v@),
            s2 == k2@.map_values(|v: Vec<char>| v@),
            order@.len() == k,
            sorted_positions(positions(order@), s1, s2, k as int),
            forall|a: int| 0 <= a < order@.len() ==> #[trigger] order@[a] < k,
        decreases n - k,
    {
        let mut p: usize = 0;
        while p < order.len() && !before_exec(k1, k2, k, order[p])
            invariant
                p <= order@.len() == k,
                k < n == k1@.len() == k2@.len(),
                s1 == k1@.map_values(|v: Vec<char>| v@),
                s2 == k2@.map_values(|v: Vec<char>| v@),
                sorted_positions(positions(order@), s1, s2, k as int),
                forall|a: int| 0 <= a < order@.len() ==> #[trigger] order@[a] < k,
                forall|a: int| 0 <= a < p ==> !key_before(s1, s2, k as int, #[trigger] order@[a] as int),
            decreases order.len() - p,
        {
            p = p + 1;
        }
        let ghost old_order = positions(order@);
        order.insert(p, k);
        proof {
            let no = positions(order@);
            assert forall|a: int| 0 <= a < order@.len() implies #[trigger] order@[a] < k + 1 by {
                assert(no[a] == order@[a] as int);
            }
            assert(no =~= old_order.subrange(0, p as int).push(k as int) + old_order.subrange(
                p as int,
                old_order.len() as int,
            ));
            assert forall|a: int| 0 <= a < no.len() implies 0 <= #[trigger] no[a] < k + 1 by {
                if a < p {
                    assert(no[a] == old_order[a]);
                } else if a > p {
                    assert(no[a] == old_order[a - 1]);
                }
            }
            assert forall|a: int, b: int| 0 <= a < b < no.len() implies key_before(
                s1,
                s2,
                #[trigger] no[a],
                #[trigger] no[b],
            ) by {
                if b < p {
                    assert(no[a] == old_order[a] && no[b] == old_order[b]);
                } else if b == p {
                    assert(no[a] == old_order[a]);
                    assert(!key_before(s1, s2, k as int, order@[a] as int));
                    lemma_key_before_total(s1, s2, k as int, no[a]);
                } else if a == p {
                    assert(no[b] == old_order[b - 1]);
                    assert(p < old_order.len());
                    assert(key_before(s1, s2, k as int, old_order[p as int]));
                    if b - 1 > p {
                        lemma_key_before_transitive(s1, s2, k as int, old_order[p as int], old_order[b - 1]);
                    }
                } else if a < p {
                    assert(no[a] == old_order[a] && no[b] == old_order[b - 1]);
                } else {
                    assert(no[a] == old_order[a - 1] && no[b] == old_order[b - 1]);
                }
            }
        }
        k = k + 1;
    }
    order
}

/// A sorted list of `n` positions below `n` lists each of them once.
pub proof fn lemma_sorted_positions_cover(order: Seq<int>, k1: Seq<Seq<char>>, k2: Seq<Seq<char>>, n: int)
    requires
        order.len() == n,
        sorted_positions(order, k1, k2, n),
    ensures
        order.no_duplicates(),
        forall|i: int| 0 <= i < n ==> #[trigger] order.contains(i),
{
    assert forall|a: int, b: int| 0 <= a < order.len() && 0 <= b < order.len() && a != b implies order[a] != order[b] by {
        let (x, y) = if a < b { (a, b) } else { (b, a) };
        assert(key_before(k1, k2, order[x], order[y]));
        if order[x] == order[y] {
            lemma_rank_antisymmetric(k1[order[x]], k1[order[x]]);
            lemma_rank_antisymmetric(k2[order[x]], k2[order[x]]);
        }
    }
    order.unique_seq_to_set();
    vstd::set_lib::lemma_int_range(0, n);
    assert(order.to_set().subset_of(vstd::set_lib::set_int_range(0, n)));
    vstd::set_lib::lemma_len_subset(order.to_set(), vstd::set_lib::set_int_range(0, n));
    vstd::set_lib::lemma_subset_equality(order.to_set(), vstd::set_lib::set_int_range(0, n));
    assert forall|i: int| 0 <= i < n implies #[trigger] order.contains(i) by {
        assert(vstd::set_lib::set_int_range(0, n).contains(i));
        assert(order.to_set().contains(i));
    }
}

} // verus!
