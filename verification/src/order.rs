//! The orderings listings present their rows in: a stable sort specification
//! (`order_by`), the lemmas the listing loops use to build it and to read
//! properties off it, and the lexicographic order on names. Rows with equal
//! keys keep their insertion order.

use vstd::prelude::*;

verus! {

/// `x` placed into `s` after every element that may precede it, so that rows
/// with equal keys keep their earlier positions.
pub open spec fn insert_ordered<A>(x: A, s: Seq<A>, leq: spec_fn(A, A) -> bool) -> Seq<A>
    decreases s.len(),
{
    if s.len() == 0 {
        seq![x]
    } else if leq(s[0], x) {
        seq![s[0]] + insert_ordered(x, s.drop_first(), leq)
    } else {
        seq![x] + s
    }
}

/// The rows of `s` arranged by `leq`: each row, in turn, inserted after every
/// earlier row that may precede it. A stable sort.
pub open spec fn order_by<A>(s: Seq<A>, leq: spec_fn(A, A) -> bool) -> Seq<A>
    decreases s.len(),
{
    if s.len() == 0 {
        Seq::empty()
    } else {
        insert_ordered(s.last(), order_by(s.drop_last(), leq), leq)
    }
}

/// Adjacent-free statement of sortedness: every earlier row may precede every
/// later one.
pub open spec fn ordered_by<A>(s: Seq<A>, leq: spec_fn(A, A) -> bool) -> bool {
    forall|i: int, j: int| 0 <= i < j < s.len() ==> leq(s[i], s[j])
}

/// Appending one row and ordering is inserting it into the ordered rest.
pub proof fn lemma_order_by_push<A>(s: Seq<A>, leq: spec_fn(A, A) -> bool, x: A)
    ensures
        order_by(s.push(x), leq) == insert_ordered(x, order_by(s, leq), leq),
{
    assert(s.push(x).drop_last() =~= s);
    assert(s.push(x).last() == x);
}

/// Insertion lands exactly at the first position whose row need not precede
/// the new one.
pub proof fn lemma_insert_ordered_at<A>(x: A, s: Seq<A>, leq: spec_fn(A, A) -> bool, j: int)
    requires
        0 <= j <= s.len(),
        forall|k: int| 0 <= k < j ==> leq(s[k], x),
        j < s.len() ==> !leq(s[j], x),
    ensures
        insert_ordered(x, s, leq) == s.insert(j, x),
    decreases s.len(),
{
    if s.len() == 0 {
        assert(insert_ordered(x, s, leq) =~= s.insert(0, x));
    } else if j == 0 {
        assert(insert_ordered(x, s, leq) =~= s.insert(0, x));
    } else {
        assert(leq(s[0], x));
        let rest = s.drop_first();
        assert(forall|k: int| 0 <= k < j - 1 ==> leq(#[trigger] rest[k], x));
        lemma_insert_ordered_at(x, rest, leq, j - 1);
        assert(seq![s[0]] + rest.insert(j - 1, x) =~= s.insert(j, x));
    }
}

/// Every row of an insertion is the new row or a row of the sequence, and the
/// length grows by one.
pub proof fn lemma_insert_ordered_sub<A>(x: A, s: Seq<A>, leq: spec_fn(A, A) -> bool)
    ensures
        insert_ordered(x, s, leq).len() == s.len() + 1,
        forall|i: int|
            0 <= i < s.len() + 1 ==> (#[trigger] insert_ordered(x, s, leq)[i] == x || exists|j: int|
                0 <= j < s.len() && insert_ordered(x, s, leq)[i] == s[j]),
    decreases s.len(),
{
    if s.len() == 0 {
    } else if leq(s[0], x) {
        let rest = s.drop_first();
        lemma_insert_ordered_sub(x, rest, leq);
        assert forall|i: int|
            0 <= i < s.len() + 1 implies (#[trigger] insert_ordered(x, s, leq)[i] == x || exists|j: int|
                0 <= j < s.len() && insert_ordered(x, s, leq)[i] == s[j]) by {
            if i == 0 {
                assert(insert_ordered(x, s, leq)[0] == s[0]);
            } else {
                assert(insert_ordered(x, s, leq)[i] == insert_ordered(x, rest, leq)[i - 1]);
                if insert_ordered(x, rest, leq)[i - 1] != x {
                    let j = choose|j: int|
                        0 <= j < rest.len() && insert_ordered(x, rest, leq)[i - 1] == rest[j];
                    assert(insert_ordered(x, s, leq)[i] == s[j + 1]);
                }
            }
        }
    }
}

/// Every row of an ordered sequence is a row of the original, and the length
/// is kept.
pub proof fn lemma_order_by_sub<A>(s: Seq<A>, leq: spec_fn(A, A) -> bool)
    ensures
        order_by(s, leq).len() == s.len(),
        forall|i: int|
            0 <= i < s.len() ==> exists|j: int|
                0 <= j < s.len() && #[trigger] order_by(s, leq)[i] == s[j],
    decreases s.len(),
{
    if s.len() > 0 {
        let d = s.drop_last();
        lemma_order_by_sub(d, leq);
        lemma_insert_ordered_sub(s.last(), order_by(d, leq), leq);
        assert forall|i: int|
            0 <= i < s.len() implies exists|j: int|
                0 <= j < s.len() && #[trigger] order_by(s, leq)[i] == s[j] by {
            if order_by(s, leq)[i] == s.last() {
                assert(order_by(s, leq)[i] == s[s.len() - 1]);
            } else {
                let k = choose|k: int|
                    0 <= k < order_by(d, leq).len() && order_by(s, leq)[i] == order_by(d, leq)[k];
                let j = choose|j: int| 0 <= j < d.len() && order_by(d, leq)[k] == d[j];
                assert(order_by(s, leq)[i] == s[j]);
            }
        }
    }
}

/// Inserting into a sorted sequence keeps it sorted, for a total and
/// transitive order.
pub proof fn lemma_insert_ordered_keeps_order<A>(x: A, s: Seq<A>, leq: spec_fn(A, A) -> bool)
    requires
        ordered_by(s, leq),
        forall|a: A, b: A| #[trigger] leq(a, b) || leq(b, a),
        forall|a: A, b: A, c: A| #[trigger] leq(a, b) && #[trigger] leq(b, c) ==> leq(a, c),
    ensures
        ordered_by(insert_ordered(x, s, leq), leq),
    decreases s.len(),
{
    let r = insert_ordered(x, s, leq);
    if s.len() == 0 {
    } else if leq(s[0], x) {
        let rest = s.drop_first();
        assert(ordered_by(rest, leq)) by {
            assert forall|i: int, j: int| 0 <= i < j < rest.len() implies leq(
                #[trigger] rest[i],
                #[trigger] rest[j],
            ) by {
                assert(leq(s[i + 1], s[j + 1]));
            }
        }
        lemma_insert_ordered_keeps_order(x, rest, leq);
        lemma_insert_ordered_sub(x, rest, leq);
        assert forall|i: int, j: int| 0 <= i < j < r.len() implies leq(
            #[trigger] r[i],
            #[trigger] r[j],
        ) by {
            if i == 0 {
                assert(r[j] == insert_ordered(x, rest, leq)[j - 1]);
                if insert_ordered(x, rest, leq)[j - 1] == x {
                    assert(leq(s[0], x));
                } else {
                    let k = choose|k: int|
                        0 <= k < rest.len() && insert_ordered(x, rest, leq)[j - 1] == rest[k];
                    assert(leq(s[0], s[k + 1]));
                }
            } else {
                assert(r[i] == insert_ordered(x, rest, leq)[i - 1]);
                assert(r[j] == insert_ordered(x, rest, leq)[j - 1]);
            }
        }
    } else {
        assert(leq(x, s[0]));
        assert forall|i: int, j: int| 0 <= i < j < r.len() implies leq(
            #[trigger] r[i],
            #[trigger] r[j],
        ) by {
            if i == 0 {
                assert(r[j] == s[j - 1]);
                if j == 1 {
                    assert(leq(x, s[0]));
                } else {
                    assert(leq(s[0], s[j - 1]));
                    assert(leq(x, s[0]) && leq(s[0], s[j - 1]) ==> leq(x, s[j - 1]));
                }
            } else {
                assert(leq(s[i - 1], s[j - 1]));
            }
        }
    }
}

/// An ordered sequence is sorted, for a total and transitive order.
pub proof fn lemma_order_by_sorted<A>(s: Seq<A>, leq: spec_fn(A, A) -> bool)
    requires
        forall|a: A, b: A| #[trigger] leq(a, b) || leq(b, a),
        forall|a: A, b: A, c: A| #[trigger] leq(a, b) && #[trigger] leq(b, c) ==> leq(a, c),
    ensures
        ordered_by(order_by(s, leq), leq),
    decreases s.len(),
{
    if s.len() > 0 {
        lemma_order_by_sorted(s.drop_last(), leq);
        lemma_insert_ordered_keeps_order(s.last(), order_by(s.drop_last(), leq), leq);
    }
}

/// The lexicographic order on names, by character code point; a prefix comes
/// before its extensions.
pub open spec fn lex_leq(a: Seq<char>, b: Seq<char>) -> bool
    decreases a.len(),
{
    if a.len() == 0 {
        true
    } else if b.len() == 0 {
        false
    } else if a[0] != b[0] {
        (a[0] as u32) < (b[0] as u32)
    } else {
        lex_leq(a.drop_first(), b.drop_first())
    }
}

/// The lexicographic order is total.
pub proof fn lemma_lex_total(a: Seq<char>, b: Seq<char>)
    ensures
        lex_leq(a, b) || lex_leq(b, a),
    decreases a.len(),
{
    if a.len() == 0 {
        assert(lex_leq(a, b));
    } else if b.len() == 0 {
        assert(lex_leq(b, a));
    } else if a[0] == b[0] {
        lemma_lex_total(a.drop_first(), b.drop_first());
        assert(lex_leq(a, b) == lex_leq(a.drop_first(), b.drop_first()));
        assert(lex_leq(b, a) == lex_leq(b.drop_first(), a.drop_first()));
    } else {
        vstd::utf8::char_u32_cast(a[0], a[0] as u32);
        vstd::utf8::char_u32_cast(b[0], b[0] as u32);
        if (a[0] as u32) < (b[0] as u32) {
            assert(lex_leq(a, b));
        } else {
            assert((b[0] as u32) < (a[0] as u32));
            assert(lex_leq(b, a));
        }
    }
}

/// The lexicographic order is antisymmetric.
pub proof fn lemma_lex_antisym(a: Seq<char>, b: Seq<char>)
    requires
        lex_leq(a, b),
        lex_leq(b, a),
    ensures
        a == b,
    decreases a.len(),
{
    if a.len() == 0 {
        assert(b.len() == 0);
        assert(a =~= b);
    } else {
        assert(b.len() > 0);
        if a[0] != b[0] {
            assert((a[0] as u32) < (b[0] as u32));
            assert((b[0] as u32) < (a[0] as u32));
            assert(false);
        }
        assert(a[0] == b[0]);
        lemma_lex_antisym(a.drop_first(), b.drop_first());
        assert(a.len() == b.len());
        assert forall|k: int| 0 <= k < a.len() implies a[k] == b[k] by {
            if k > 0 {
                assert(a[k] == a.drop_first()[k - 1]);
                assert(b[k] == b.drop_first()[k - 1]);
            }
        }
        assert(a =~= b);
    }
}

/// The lexicographic order is transitive.
pub proof fn lemma_lex_trans(a: Seq<char>, b: Seq<char>, c: Seq<char>)
    requires
        lex_leq(a, b),
        lex_leq(b, c),
    ensures
        lex_leq(a, c),
    decreases a.len(),
{
    if a.len() == 0 {
    } else {
        assert(b.len() > 0);
        assert(c.len() > 0);
        if a[0] == b[0] && b[0] == c[0] {
            lemma_lex_trans(a.drop_first(), b.drop_first(), c.drop_first());
        }
    }
}

/// Compares two names in the lexicographic order.
pub fn str_le(a: &str, b: &str) -> (r: bool)
    ensures
        r == lex_leq(a@, b@),
{
    let na = a.unicode_len();
    let nb = b.unicode_len();
    let mut i: usize = 0;
    proof {
        assert(a@.skip(0) =~= a@);
        assert(b@.skip(0) =~= b@);
    }
    loop
        invariant
            na == a@.len(),
            nb == b@.len(),
            0 <= i <= na,
            0 <= i <= nb,
            lex_leq(a@, b@) == lex_leq(a@.skip(i as int), b@.skip(i as int)),
            forall|k: int| 0 <= k < i ==> a@[k] == b@[k],
        decreases na - i,
    {
        if i == na {
            proof {
                assert(a@.skip(i as int).len() == 0);
            }
            return true;
        }
        if i == nb {
            proof {
                assert(b@.skip(i as int).len() == 0);
                assert(a@.skip(i as int).len() > 0);
            }
            return false;
        }
        let ca = a.get_char(i);
        let cb = b.get_char(i);
        proof {
            assert(a@.skip(i as int)[0] == a@[i as int]);
            assert(b@.skip(i as int)[0] == b@[i as int]);
        }
        if ca != cb {
            return (ca as u32) < (cb as u32);
        }
        proof {
            assert(a@.skip(i as int).drop_first() =~= a@.skip(i + 1));
            assert(b@.skip(i as int).drop_first() =~= b@.skip(i + 1));
        }
        i += 1;
    }
}

} // verus!
