//! The order of texts by code point (the order of their UTF-8 bytes), and
//! vectors of texts kept sorted without repeats.

use vstd::prelude::*;
use crate::text::chars_of;

verus! {

/// Whether `a` comes before `b`: at the first place they differ `a` has the
/// smaller character, or `a` is a proper prefix of `b`.
pub open spec fn text_less(a: Seq<char>, b: Seq<char>) -> bool
    decreases a.len(),
{
    if a.len() == 0 {
        b.len() > 0
    } else if b.len() == 0 {
        false
    } else if a[0] != b[0] {
        a[0] < b[0]
    } else {
        text_less(a.drop_first(), b.drop_first())
    }
}

/// The texts of a vector of strings.
pub open spec fn texts(v: Seq<String>) -> Seq<Seq<char>> {
    v.map_values(|s: String| s@)
}

/// Whether the texts go up strictly, so that none repeats.
pub open spec fn strictly_sorted(v: Seq<Seq<char>>) -> bool {
    forall|i: int, j: int| 0 <= i < j < v.len() ==> text_less(#[trigger] v[i], #[trigger] v[j])
}

/// No text comes before itself.
pub proof fn lemma_text_less_irreflexive(a: Seq<char>)
    ensures
        !text_less(a, a),
    decreases a.len(),
{
    if a.len() > 0 {
        lemma_text_less_irreflexive(a.drop_first());
    }
}

/// The order of texts is transitive.
pub proof fn lemma_text_less_transitive(a: Seq<char>, b: Seq<char>, c: Seq<char>)
    requires
        text_less(a, b),
        text_less(b, c),
    ensures
        text_less(a, c),
    decreases a.len(),
{
    if a.len() > 0 && b.len() > 0 && c.len() > 0 && a[0] == b[0] && b[0] == c[0] {
        lemma_text_less_transitive(a.drop_first(), b.drop_first(), c.drop_first());
    }
}

/// Of two different texts, one comes before the other.
pub proof fn lemma_text_less_total(a: Seq<char>, b: Seq<char>)
    ensures
        text_less(a, b) || text_less(b, a) || a == b,
    decreases a.len(),
{
    if a.len() > 0 && b.len() > 0 {
        if a[0] == b[0] {
            lemma_text_less_total(a.drop_first(), b.drop_first());
            if a.drop_first() == b.drop_first() {
                assert(a =~= seq![a[0]] + a.drop_first());
                assert(b =~= seq![b[0]] + b.drop_first());
            }
        }
    } else if a.len() == 0 && b.len() == 0 {
        assert(a =~= b);
    }
}

/// Whether `a` comes before `b`.
pub fn chars_less(a: &Vec<char>, b: &Vec<char>) -> (r: bool)
    ensures
        r == text_less(a@, b@),
{
    let mut i: usize = 0;
    assert(a@.skip(0) =~= a@);
    assert(b@.skip(0) =~= b@);
    while i < a.len() && i < b.len() && a[i] == b[i]
        invariant
            i <= a.len(),
            i <= b.len(),
            text_less(a@, b@) == text_less(a@.skip(i as int), b@.skip(i as int)),
        decreases a.len() - i,
    {
        proof {
            let sa = a@.skip(i as int);
            let sb = b@.skip(i as int);
            assert(sa[0] == a@[i as int]);
            assert(sb[0] == b@[i as int]);
            assert(sa.drop_first() =~= a@.skip(i + 1));
            assert(sb.drop_first() =~= b@.skip(i + 1));
        }
        i += 1;
    }
    let ghost sa = a@.skip(i as int);
    let ghost sb = b@.skip(i as int);
    if i == a.len() {
        i < b.len()
    } else if i == b.len() {
        false
    } else {
        assert(sa[0] == a@[i as int] && sb[0] == b@[i as int]);
        a[i] < b[i]
    }
}

/// Whether string `a` comes before string `b`.
pub fn string_less(a: &String, b: &String) -> (r: bool)
    ensures
        r == text_less(a@, b@),
{
    let ca = chars_of(a.as_str());
    let cb = chars_of(b.as_str());
    chars_less(&ca, &cb)
}

/// Puts `item` into a strictly sorted vector, unless it is there already.
pub fn insert_sorted(set: &mut Vec<String>, item: &String)
    requires
        strictly_sorted(texts(old(set)@)),
    ensures
        strictly_sorted(texts(final(set)@)),
        texts(final(set)@).to_set() == texts(old(set)@).to_set().insert(item@),
{
    let ghost before = texts(set@);
    let mut i: usize = 0;
    while i < set.len() && string_less(&set[i], item)
        invariant
            i <= set.len(),
            set@ == old(set)@,
            before == texts(set@),
            strictly_sorted(before),
            forall|k: int| 0 <= k < i ==> text_less(#[trigger] before[k], item@),
        decreases set.len() - i,
    {
        i += 1;
    }
    if i < set.len() && set[i] == *item {
        proof {
            assert(before[i as int] == item@);
            assert(before.to_set().insert(item@) =~= before.to_set());
        }
        return;
    }
    proof {
        if i < set.len() {
            assert(before[i as int] == set@[i as int]@);
            lemma_text_less_total(before[i as int], item@);
        }
    }
    set.insert(i, item.clone());
    proof {
        let after = texts(set@);
        assert(after =~= before.insert(i as int, item@));
        assert forall|a: int, b: int| 0 <= a < b < after.len() implies text_less(
            #[trigger] after[a],
            #[trigger] after[b],
        ) by {
            if a < i && b == i {
            } else if a < i && b > i {
                assert(after[b] == before[b - 1]);
            } else if a == i && b > i {
                assert(after[b] == before[b - 1]);
                if b - 1 > i {
                    assert(text_less(before[i as int], before[b - 1]));
                    lemma_text_less_transitive(item@, before[i as int], before[b - 1]);
                }
            } else if a > i {
                assert(after[a] == before[a - 1]);
                assert(after[b] == before[b - 1]);
            }
        }
        assert(after.to_set() =~= before.to_set().insert(item@)) by {
            assert forall|x: Seq<char>| after.to_set().contains(x) implies before.to_set().insert(
                x,
            ).contains(x) by {}
            assert forall|x: Seq<char>| #[trigger] before.to_set().insert(item@).contains(x)
                implies after.to_set().contains(x) by {
                if x == item@ {
                    assert(after[i as int] == x);
                } else {
                    let k = choose|k: int| 0 <= k < before.len() && before[k] == x;
                    if k < i {
                        assert(after[k] == x);
                    } else {
                        assert(after[k + 1] == x);
                    }
                }
            }
            assert forall|x: Seq<char>| #[trigger] after.to_set().contains(x) implies before.to_set().insert(
                item@,
            ).contains(x) by {
                let k = choose|k: int| 0 <= k < after.len() && after[k] == x;
                if k < i {
                    assert(before[k] == x);
                } else if k > i {
                    assert(before[k - 1] == x);
                }
            }
        }
    }
}

} // verus!
