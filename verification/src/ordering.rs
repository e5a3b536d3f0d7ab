//! Lexicographic order of strings (by character code, as Rust orders
//! `String`s) and sorting by it.

use vstd::prelude::*;
use vstd::relations::{sorted_by, total_ordering};

verus! {

/// `a` comes before `b`, or equals it, in lexicographic order.
pub open spec fn lex_le(a: Seq<char>, b: Seq<char>) -> bool
    decreases a.len(),
{
    if a.len() == 0 {
        true
    } else if b.len() == 0 {
        false
    } else if a[0] != b[0] {
        a[0] < b[0]
    } else {
        lex_le(a.drop_first(), b.drop_first())
    }
}

/// The lexicographic order as a relation.
pub open spec fn lex_order() -> spec_fn(Seq<char>, Seq<char>) -> bool {
    |a: Seq<char>, b: Seq<char>| lex_le(a, b)
}

proof fn lemma_lex_reflexive(a: Seq<char>)
    ensures
        lex_le(a, a),
    decreases a.len(),
{
    if a.len() > 0 {
        lemma_lex_reflexive(a.drop_first());
    }
}

proof fn lemma_lex_antisymmetric(a: Seq<char>, b: Seq<char>)
    requires
        lex_le(a, b),
        lex_le(b, a),
    ensures
        a == b,
    decreases a.len(),
{
    if a.len() == 0 {
        assert(b.len() == 0);
        assert(a =~= b);
    } else {
        assert(b.len() > 0);
        assert(a[0] == b[0]);
        lemma_lex_antisymmetric(a.drop_first(), b.drop_first());
        assert(a.drop_first().len() == b.drop_first().len());
        assert forall|i: int| 0 <= i < a.len() implies a[i] == b[i] by {
            if i > 0 {
                assert(a.drop_first()[i - 1] == b.drop_first()[i - 1]);
            }
        }
        assert(a =~= b);
    }
}

proof fn lemma_lex_transitive(a: Seq<char>, b: Seq<char>, c: Seq<char>)
    requires
        lex_le(a, b),
        lex_le(b, c),
    ensures
        lex_le(a, c),
    decreases a.len(),
{
    if a.len() > 0 {
        assert(b.len() > 0);
        assert(c.len() > 0);
        if a[0] == b[0] && b[0] == c[0] {
            lemma_lex_transitive(a.drop_first(), b.drop_first(), c.drop_first());
        }
    }
}

proof fn lemma_lex_total(a: Seq<char>, b: Seq<char>)
    ensures
        lex_le(a, b) || lex_le(b, a),
    decreases a.len(),
{
    if a.len() > 0 && b.len() > 0 && a[0] == b[0] {
        lemma_lex_total(a.drop_first(), b.drop_first());
    }
}

/// Lexicographic order is a total order.
pub proof fn lex_is_total_ordering()
    ensures
        total_ordering(lex_order()),
{
    assert forall|x: Seq<char>| #[trigger] lex_order()(x, x) by {
        lemma_lex_reflexive(x);
    }
    assert forall|x: Seq<char>, y: Seq<char>| #[trigger] lex_order()(x, y) && #[trigger] lex_order()(y, x) implies x == y by {
        lemma_lex_antisymmetric(x, y);
    }
    assert forall|x: Seq<char>, y: Seq<char>, z: Seq<char>| #[trigger] lex_order()(x, y) && #[trigger] lex_order()(y, z) implies lex_order()(x, z) by {
        lemma_lex_transitive(x, y, z);
    }
    assert forall|x: Seq<char>, y: Seq<char>| #[trigger] lex_order()(x, y) || #[trigger] lex_order()(y, x) by {
        lemma_lex_total(x, y);
    }
}

proof fn lemma_lex_skip(a: Seq<char>, b: Seq<char>, i: int)
    requires
        0 <= i < a.len(),
        i < b.len(),
    ensures
        lex_le(a.skip(i), b.skip(i)) == if a[i] != b[i] {
            a[i] < b[i]
        } else {
            lex_le(a.skip(i + 1), b.skip(i + 1))
        },
{
    assert(a.skip(i).drop_first() =~= a.skip(i + 1));
    assert(b.skip(i).drop_first() =~= b.skip(i + 1));
}

/// Whether `a` comes before `b`, or equals it, in lexicographic order.
pub fn str_lex_le(a: &str, b: &str) -> (res: bool)
    ensures
        res == lex_le(a@, b@),
{
    let n = a.unicode_len();
    let m = b.unicode_len();
    let mut i: usize = 0;
    assert(a@.skip(0) =~= a@);
    assert(b@.skip(0) =~= b@);
    while i < n && i < m
        invariant
            n == a@.len(),
            m == b@.len(),
            0 <= i <= n,
            i <= m,
            lex_le(a@, b@) == lex_le(a@.skip(i as int), b@.skip(i as int)),
        decreases n - i,
    {
        proof {
            lemma_lex_skip(a@, b@, i as int);
        }
        let x = a.get_char(i);
        let y = b.get_char(i);
        if x != y {
            return x < y;
        }
        i = i + 1;
    }
    if i == n {
        true
    } else {
        assert(a@.skip(i as int).len() > 0);
        assert(b@.skip(i as int).len() == 0);
        false
    }
}

/// The views of a sequence of strings.
pub open spec fn views(v: Seq<String>) -> Seq<Seq<char>> {
    v.map_values(|s: String| s@)
}

proof fn lemma_insert_sorted(r: Seq<Seq<char>>, p: int, s: Seq<char>)
    requires
        sorted_by(r, lex_order()),
        0 <= p <= r.len(),
        forall|j: int| 0 <= j < p ==> lex_le(#[trigger] r[j], s),
        p < r.len() ==> lex_le(s, r[p]),
    ensures
        sorted_by(r.insert(p, s), lex_order()),
{
    lex_is_total_ordering();
    let r2 = r.insert(p, s);
    assert forall|i: int, j: int| 0 <= i < j < r2.len() implies #[trigger] lex_order()(r2[i], r2[j]) by {
        if j < p {
            assert(lex_order()(r[i], r[j]));
        } else if j == p {
            assert(lex_le(r[i], s));
        } else if i < p {
            assert(lex_order()(r[i], r[j - 1]));
        } else if i == p {
            if j - 1 > p {
                assert(lex_order()(r[p], r[j - 1]));
                lemma_lex_transitive(s, r[p], r[j - 1]);
            }
        } else {
            assert(lex_order()(r[i - 1], r[j - 1]));
        }
    }
}

/// The strings in lexicographic order.
pub fn sort_strings(v: &Vec<String>) -> (res: Vec<String>)
    ensures
        views(res@) == views(v@).sort_by(lex_order()),
{
    broadcast use vstd::seq_lib::group_to_multiset_ensures;

    proof {
        lex_is_total_ordering();
    }
    let mut res: Vec<String> = Vec::new();
    let mut i: usize = 0;
    assert(views(res@) =~= Seq::empty());
    assert(views(v@).take(0) =~= Seq::<Seq<char>>::empty());
    while i < v.len()
        invariant
            0 <= i <= v.len(),
            total_ordering(lex_order()),
            sorted_by(views(res@), lex_order()),
            views(res@).to_multiset() == views(v@).take(i as int).to_multiset(),
        decreases v.len() - i,
    {
        let s = v[i].clone();
        let mut p: usize = 0;
        while p < res.len() && str_lex_le(res[p].as_str(), s.as_str())
            invariant
                0 <= p <= res.len(),
                forall|j: int| 0 <= j < p ==> lex_le(#[trigger] views(res@)[j], s@),
            decreases res.len() - p,
        {
            p = p + 1;
        }
        proof {
            if p < res.len() {
                lemma_lex_total(views(res@)[p as int], s@);
            }
            lemma_insert_sorted(views(res@), p as int, s@);
            vstd::seq_lib::to_multiset_insert(views(res@), p as int, s@);
            assert(views(v@)[i as int] == s@);
            assert(views(v@).take(i + 1) =~= views(v@).take(i as int).push(s@));
            vstd::seq_lib::to_multiset_build(views(v@).take(i as int), s@);
        }
        let ghost before = views(res@);
        res.insert(p, s);
        assert(views(res@) =~= before.insert(p as int, s@));
        i = i + 1;
    }
    proof {
        assert(views(v@).take(v.len() as int) =~= views(v@));
        views(v@).lemma_sort_by_ensures(lex_order());
        vstd::seq_lib::lemma_sorted_unique(views(res@), views(v@).sort_by(lex_order()), lex_order());
    }
    res
}

} // verus!
