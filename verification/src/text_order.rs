//! The order of texts: character by character, the shorter text first where
//! one is the start of the other. It is the order in which strings compare.

use vstd::prelude::*;

verus! {

/// Whether `a` comes before `b` because of what stands at place `i`: the two
/// texts agree before `i`, and there `a` has ended while `b` goes on, or `a`
/// holds the smaller character.
pub open spec fn comes_before_at(a: Seq<char>, b: Seq<char>, i: int) -> bool {
    &&& 0 <= i <= a.len()
    &&& i < b.len()
    &&& a.take(i) == b.take(i)
    &&& (i < a.len() ==> (a[i] as u32) < (b[i] as u32))
}

/// Whether `a` comes strictly before `b` in the order of texts.
pub open spec fn text_lt(a: Seq<char>, b: Seq<char>) -> bool {
    exists|i: int| comes_before_at(a, b, i)
}

/// No text comes before itself.
pub proof fn lemma_text_lt_irreflexive(a: Seq<char>)
    ensures
        !text_lt(a, a),
{
}

/// Two texts of one character compare as their characters do.
pub proof fn lemma_text_lt_single(x: char, y: char)
    ensures
        text_lt(seq![x], seq![y]) <==> (x as u32) < (y as u32),
{
    let a = seq![x];
    let b = seq![y];
    if (x as u32) < (y as u32) {
        assert(a.take(0) == b.take(0));
        assert(comes_before_at(a, b, 0));
    }
    if text_lt(a, b) {
        let i = choose|i: int| comes_before_at(a, b, i);
        assert(i == 0);
    }
}

/// Behind two starts of equal length, the order is decided by the starts,
/// and by what follows only where the starts are the same.
pub proof fn lemma_text_lt_concat(
    head_a: Seq<char>,
    tail_a: Seq<char>,
    head_b: Seq<char>,
    tail_b: Seq<char>,
)
    requires
        head_a.len() == head_b.len(),
    ensures
        text_lt(head_a + tail_a, head_b + tail_b) <==> text_lt(head_a, head_b) || (head_a
            == head_b && text_lt(tail_a, tail_b)),
{
    let a = head_a + tail_a;
    let b = head_b + tail_b;
    let len = head_a.len() as int;
    if text_lt(a, b) {
        let i = choose|i: int| comes_before_at(a, b, i);
        if i < len {
            assert(head_a.take(i) == a.take(i));
            assert(head_b.take(i) == b.take(i));
            assert(comes_before_at(head_a, head_b, i));
        } else {
            assert(head_a == a.take(i).take(len));
            assert(head_b == b.take(i).take(len));
            assert(tail_a.take(i - len) == a.take(i).skip(len));
            assert(tail_b.take(i - len) == b.take(i).skip(len));
            assert(comes_before_at(tail_a, tail_b, i - len));
        }
    }
    if text_lt(head_a, head_b) {
        let i = choose|i: int| comes_before_at(head_a, head_b, i);
        assert(a.take(i) == head_a.take(i));
        assert(b.take(i) == head_b.take(i));
        assert(comes_before_at(a, b, i));
    }
    if head_a == head_b && text_lt(tail_a, tail_b) {
        let i = choose|i: int| comes_before_at(tail_a, tail_b, i);
        assert(a.take(len + i) == head_a + tail_a.take(i));
        assert(b.take(len + i) == head_b + tail_b.take(i));
        assert(comes_before_at(a, b, len + i));
    }
}

} // verus!
