//! Texts in order, and lists of them without repetition.

use vstd::prelude::*;

use crate::text::characters;

verus! {

/// Whether a text stands before another: by the first character that differs, and a
/// beginning before the whole.
pub open spec fn before(a: Seq<char>, b: Seq<char>) -> bool
    decreases a.len(),
{
    b.len() > 0 && (a.len() == 0 || a[0] < b[0] || (a[0] == b[0] && before(
        a.drop_first(),
        b.drop_first(),
    )))
}

/// Whether a list is in order, with nothing in it twice.
pub open spec fn strictly_sorted(list: Seq<Seq<char>>) -> bool {
    forall|i: int, j: int|
        0 <= i < j < list.len() ==> before(#[trigger] list[i], #[trigger] list[j])
}

/// No text stands before itself.
pub proof fn lemma_not_before_itself(a: Seq<char>)
    ensures
        !before(a, a),
    decreases a.len(),
{
    if a.len() > 0 {
        lemma_not_before_itself(a.drop_first());
    }
}

/// The order of texts is transitive.
pub proof fn lemma_before_is_transitive(a: Seq<char>, b: Seq<char>, c: Seq<char>)
    requires
        before(a, b),
        before(b, c),
    ensures
        before(a, c),
    decreases a.len(),
{
    if a.len() > 0 && a[0] == b[0] && b[0] == c[0] {
        lemma_before_is_transitive(a.drop_first(), b.drop_first(), c.drop_first());
    }
}

/// Of two different texts one stands before the other.
pub proof fn lemma_before_is_total(a: Seq<char>, b: Seq<char>)
    ensures
        a == b || before(a, b) || before(b, a),
    decreases a.len(),
{
    if a.len() > 0 && b.len() > 0 && a[0] == b[0] {
        lemma_before_is_total(a.drop_first(), b.drop_first());
        if a.drop_first() == b.drop_first() {
            assert(a =~= seq![a[0]] + a.drop_first());
            assert(b =~= seq![b[0]] + b.drop_first());
        }
    } else if a.len() == 0 && b.len() == 0 {
        assert(a =~= b);
    }
}

/// Where two texts agree, the rest decides.
proof fn lemma_agreeing_start(a: Seq<char>, b: Seq<char>, k: int)
    requires
        0 <= k <= a.len(),
        k <= b.len(),
        a.take(k) == b.take(k),
    ensures
        before(a, b) == before(a.skip(k), b.skip(k)),
    decreases k,
{
    if k == 0 {
        assert(a.skip(0) =~= a);
        assert(b.skip(0) =~= b);
    } else {
        assert(a[0] == a.take(k)[0] && b[0] == b.take(k)[0]);
        assert(a.drop_first().take(k - 1) =~= a.take(k).drop_first());
        assert(b.drop_first().take(k - 1) =~= b.take(k).drop_first());
        lemma_agreeing_start(a.drop_first(), b.drop_first(), k - 1);
        assert(a.drop_first().skip(k - 1) =~= a.skip(k));
        assert(b.drop_first().skip(k - 1) =~= b.skip(k));
    }
}

/// Whether a text stands before another.
pub fn is_before(a: &str, b: &str) -> (result: bool)
    ensures
        result == before(a@, b@),
{
    let left = characters(a);
    let right = characters(b);
    let mut k: usize = 0;
    while k < left.len() && k < right.len() && left[k] == right[k]
        invariant
            left@ == a@,
            right@ == b@,
            k <= left.len(),
            k <= right.len(),
            left@.take(k as int) == right@.take(k as int),
        decreases left.len() - k,
    {
        assert(left@.take(k + 1) =~= left@.take(k as int).push(left@[k as int]));
        assert(right@.take(k + 1) =~= right@.take(k as int).push(right@[k as int]));
        k += 1;
    }
    proof {
        lemma_agreeing_start(a@, b@, k as int);
    }
    k < right.len() && (k == left.len() || left[k] < right[k])
}

/// Puts a text into a list that is in order; one that is in it already is left out.
pub fn insert_sorted(list: &mut Vec<String>, item: String)
    requires
        strictly_sorted(crate::text::texts(old(list)@)),
    ensures
        strictly_sorted(crate::text::texts(final(list)@)),
        forall|t: Seq<char>|
            crate::text::texts(final(list)@).contains(t) <==> crate::text::texts(
                old(list)@,
            ).contains(t) || t == item@,
{
    let ghost texts = crate::text::texts(list@);
    let mut k: usize = 0;
    while k < list.len() && is_before(list[k].as_str(), item.as_str())
        invariant
            texts == crate::text::texts(list@),
            list@ == old(list)@,
            k <= list.len(),
            forall|i: int| 0 <= i < k ==> before(#[trigger] texts[i], item@),
        decreases list.len() - k,
    {
        k += 1;
    }
    if k < list.len() && list[k] == item {
        proof {
            assert(texts[k as int] == item@);
        }
        return ;
    }
    let ghost text = item@;
    proof {
        if k < list.len() {
            lemma_before_is_total(texts[k as int], text);
            assert forall|j: int| k <= j < texts.len() implies before(text, #[trigger] texts[j]) by {
                if j > k {
                    lemma_before_is_transitive(text, texts[k as int], texts[j]);
                }
            }
        }
    }
    list.insert(k, item);
    proof {
        let after = crate::text::texts(list@);
        assert(after =~= texts.insert(k as int, text));
        assert forall|t: Seq<char>| after.contains(t) <==> texts.contains(t) || t == text by {
            if after.contains(t) {
                let i = choose|i: int| 0 <= i < after.len() && after[i] == t;
                if i < k {
                    assert(texts[i] == t);
                } else if i > k {
                    assert(texts[i - 1] == t);
                }
            }
            if texts.contains(t) {
                let i = choose|i: int| 0 <= i < texts.len() && texts[i] == t;
                if i < k {
                    assert(after[i] == t);
                } else {
                    assert(after[i + 1] == t);
                }
            }
            assert(after[k as int] == text);
        }
    }
}

/// A list that is in order is determined by what is in it.
pub proof fn law_sorted_lists_are_unique(a: Seq<Seq<char>>, b: Seq<Seq<char>>)
    requires
        strictly_sorted(a),
        strictly_sorted(b),
        forall|t: Seq<char>| a.contains(t) <==> b.contains(t),
    ensures
        a == b,
    decreases a.len(),
{
    if a.len() == 0 {
        if b.len() > 0 {
            assert(b.contains(b[0]));
        }
        assert(a =~= b);
    } else {
        assert(a.contains(a[0]));
        assert(b.contains(a[0]));
        assert(b.contains(b[0]));
        assert(a.contains(b[0]));
        let i = choose|i: int| 0 <= i < b.len() && b[i] == a[0];
        let j = choose|j: int| 0 <= j < a.len() && a[j] == b[0];
        if i > 0 && j > 0 {
            lemma_before_is_transitive(b[0], a[0], b[0]);
            lemma_not_before_itself(b[0]);
        }
        assert(a[0] == b[0]);
        let x = a.drop_first();
        let y = b.drop_first();
        assert forall|t: Seq<char>| x.contains(t) <==> y.contains(t) by {
            lemma_not_before_itself(t);
            if x.contains(t) {
                let m = choose|m: int| 0 <= m < x.len() && x[m] == t;
                assert(a[m + 1] == t);
                assert(before(a[0], a[m + 1]));
                assert(a.contains(t) && b.contains(t));
                let n = choose|n: int| 0 <= n < b.len() && b[n] == t;
                assert(y[n - 1] == t);
            }
            if y.contains(t) {
                let m = choose|m: int| 0 <= m < y.len() && y[m] == t;
                assert(b[m + 1] == t);
                assert(before(b[0], b[m + 1]));
                assert(b.contains(t) && a.contains(t));
                let n = choose|n: int| 0 <= n < a.len() && a[n] == t;
                assert(x[n - 1] == t);
            }
        }
        law_sorted_lists_are_unique(x, y);
        assert(a =~= seq![a[0]] + x);
        assert(b =~= seq![b[0]] + y);
    }
}

} // verus!
