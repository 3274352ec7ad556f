//! The order of texts, character by character.
use vstd::prelude::*;
use core::cmp::Ordering;
use crate::text::chars_of;

verus! {

/// The lexicographic order of two texts: by their first differing character,
/// or else by length.
pub open spec fn text_order(a: Seq<char>, b: Seq<char>) -> Ordering
    decreases a.len(),
{
    if a.len() == 0 {
        if b.len() == 0 {
            Ordering::Equal
        } else {
            Ordering::Less
        }
    } else if b.len() == 0 {
        Ordering::Greater
    } else if a[0] < b[0] {
        Ordering::Less
    } else if a[0] > b[0] {
        Ordering::Greater
    } else {
        text_order(a.drop_first(), b.drop_first())
    }
}

/// Two texts that first differ at position `i` are ordered as their characters
/// there are, whatever their lengths.
pub proof fn law_text_order_first_difference(a: Seq<char>, b: Seq<char>, i: int)
    requires
        0 <= i < a.len(),
        i < b.len(),
        a.take(i) == b.take(i),
        a[i] != b[i],
    ensures
        text_order(a, b) == (if a[i] < b[i] { Ordering::Less } else { Ordering::Greater }),
    decreases i,
{
    if i > 0 {
        assert(a[0] == a.take(i)[0]);
        assert(b[0] == b.take(i)[0]);
        assert(a.drop_first().take(i - 1) =~= b.drop_first().take(i - 1)) by {
            assert forall|j: int| 0 <= j < i - 1 implies a.drop_first()[j] == b.drop_first()[j] by {
                assert(a.take(i)[j + 1] == b.take(i)[j + 1]);
                assert(a.take(i)[j + 1] == a[j + 1]);
                assert(b.take(i)[j + 1] == b[j + 1]);
            }
        }
        law_text_order_first_difference(a.drop_first(), b.drop_first(), i - 1);
    }
}

/// A text is ordered before every longer text that it begins, and after it the
/// other way round.
pub proof fn law_text_order_prefix(a: Seq<char>, b: Seq<char>)
    requires
        a.len() < b.len(),
        forall|j: int| 0 <= j < a.len() ==> a[j] == b[j],
    ensures
        text_order(a, b) == Ordering::Less,
        text_order(b, a) == Ordering::Greater,
    decreases a.len(),
{
    if a.len() > 0 {
        assert forall|j: int| 0 <= j < a.drop_first().len() implies a.drop_first()[j]
            == b.drop_first()[j] by {
            assert(a[j + 1] == b[j + 1]);
        }
        law_text_order_prefix(a.drop_first(), b.drop_first());
    }
}

/// A text is equal to itself, and to no other text.
pub proof fn law_text_order_equal(a: Seq<char>, b: Seq<char>)
    ensures
        text_order(a, b) == Ordering::Equal <==> a == b,
    decreases a.len(),
{
    if a.len() > 0 && b.len() > 0 {
        law_text_order_equal(a.drop_first(), b.drop_first());
        if a[0] == b[0] {
            if a.drop_first() == b.drop_first() {
                assert forall|j: int| 0 <= j < a.len() implies a[j] == b[j] by {
                    if j > 0 {
                        assert(a[j] == a.drop_first()[j - 1]);
                        assert(b[j] == b.drop_first()[j - 1]);
                    }
                }
                assert(a =~= b);
            } else if a == b {
                assert(a.drop_first() =~= b.drop_first());
            }
        }
    } else if a.len() != b.len() {
        assert(a != b);
    } else {
        assert(a =~= b);
    }
}

/// Compares two texts in lexicographic order.
pub fn compare_texts(a: &str, b: &str) -> (res: Ordering)
    ensures
        res == text_order(a@, b@),
{
    let x = chars_of(a);
    let y = chars_of(b);
    let mut i: usize = 0;
    let ghost mut k: int = 0;
    assert(a@.skip(0) =~= a@);
    assert(b@.skip(0) =~= b@);
    while i < x.len() && i < y.len()
        invariant
            x@ == a@,
            y@ == b@,
            k == i,
            i <= x.len(),
            i <= y.len(),
            text_order(a@, b@) == text_order(a@.skip(k), b@.skip(k)),
        decreases x.len() - i,
    {
        assert(a@.skip(k).drop_first() =~= a@.skip(k + 1));
        assert(b@.skip(k).drop_first() =~= b@.skip(k + 1));
        if x[i] < y[i] {
            return Ordering::Less;
        } else if x[i] > y[i] {
            return Ordering::Greater;
        }
        i = i + 1;
        proof {
            k = k + 1;
        }
    }
    if i < x.len() {
        Ordering::Greater
    } else if i < y.len() {
        Ordering::Less
    } else {
        Ordering::Equal
    }
}

} // verus!
