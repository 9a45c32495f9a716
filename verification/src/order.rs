//! The order of texts: the first character in which two texts differ
//! decides, by its code point; a text comes before every text that it
//! begins.

use std::cmp::Ordering;
use vstd::prelude::*;
use vstd::utf8::*;

verus! {

/// Whether `a` comes before `b` in the order of texts.
pub open spec fn precedes(a: Seq<char>, b: Seq<char>) -> bool
    decreases a.len(),
{
    if b.len() == 0 {
        false
    } else if a.len() == 0 {
        true
    } else if a[0] == b[0] {
        precedes(a.drop_first(), b.drop_first())
    } else {
        (a[0] as u32) < (b[0] as u32)
    }
}

/// Of two texts exactly one holds: they are equal, the first comes before
/// the second, or the second before the first.
pub proof fn lemma_precedes_total(a: Seq<char>, b: Seq<char>)
    ensures
        a == b || precedes(a, b) || precedes(b, a),
        !(a == b && precedes(a, b)),
        !(a == b && precedes(b, a)),
        !(precedes(a, b) && precedes(b, a)),
    decreases a.len(),
{
    if a.len() > 0 && b.len() > 0 {
        if a[0] == b[0] {
            lemma_precedes_total(a.drop_first(), b.drop_first());
            if a.drop_first() == b.drop_first() {
                assert(a =~= seq![a[0]] + a.drop_first());
            }
        } else {
            vstd::utf8::char_u32_cast(a[0], a[0] as u32);
            vstd::utf8::char_u32_cast(b[0], b[0] as u32);
        }
    }
}

/// What comes before a text comes before everything that the text comes
/// before.
pub proof fn lemma_precedes_transitive(a: Seq<char>, b: Seq<char>, c: Seq<char>)
    requires
        precedes(a, b),
        precedes(b, c),
    ensures
        precedes(a, c),
    decreases a.len(),
{
    if a.len() > 0 && a[0] == b[0] && b[0] == c[0] {
        lemma_precedes_transitive(a.drop_first(), b.drop_first(), c.drop_first());
    }
}

/// Whether `a` comes before `b` in the order of byte strings: the first
/// byte in which they differ decides, and a string comes before every
/// string that it begins.
pub open spec fn bytes_precede(a: Seq<u8>, b: Seq<u8>) -> bool
    decreases a.len(),
{
    if b.len() == 0 {
        false
    } else if a.len() == 0 {
        true
    } else if a[0] == b[0] {
        bytes_precede(a.drop_first(), b.drop_first())
    } else {
        a[0] < b[0]
    }
}

/// Two byte strings that agree before `at` compare as what follows in each.
proof fn lemma_bytes_precede_from(a: Seq<u8>, b: Seq<u8>, at: int)
    requires
        0 <= at <= a.len(),
        at <= b.len(),
        forall|j: int| 0 <= j < at ==> a[j] == b[j],
    ensures
        bytes_precede(a, b) == bytes_precede(
            a.subrange(at, a.len() as int),
            b.subrange(at, b.len() as int),
        ),
    decreases at,
{
    if at == 0 {
        assert(a.subrange(0, a.len() as int) =~= a);
        assert(b.subrange(0, b.len() as int) =~= b);
    } else {
        let a1 = a.drop_first();
        let b1 = b.drop_first();
        lemma_bytes_precede_from(a1, b1, at - 1);
        assert(a1.subrange(at - 1, a1.len() as int) =~= a.subrange(at, a.len() as int));
        assert(b1.subrange(at - 1, b1.len() as int) =~= b.subrange(at, b.len() as int));
    }
}

/// No byte string comes both before and after another.
proof fn lemma_bytes_precede_one_way(a: Seq<u8>, b: Seq<u8>)
    ensures
        !(bytes_precede(a, b) && bytes_precede(b, a)),
    decreases a.len(),
{
    if a.len() > 0 && b.len() > 0 && a[0] == b[0] {
        lemma_bytes_precede_one_way(a.drop_first(), b.drop_first());
    }
}

/// Whether `x` and `y` agree before `at` and `x` has the smaller byte there.
spec fn smaller_at(x: Seq<u8>, y: Seq<u8>, at: int) -> bool {
    &&& 0 <= at < x.len()
    &&& at < y.len()
    &&& forall|j: int| 0 <= j < at ==> x[j] == y[j]
    &&& x[at] < y[at]
}

/// A byte string with the smaller byte at the first difference comes
/// first, whatever follows in either.
proof fn lemma_smaller_at_precedes(
    x: Seq<u8>,
    y: Seq<u8>,
    at: int,
    after_x: Seq<u8>,
    after_y: Seq<u8>,
)
    requires
        smaller_at(x, y, at),
    ensures
        bytes_precede(x + after_x, y + after_y),
{
    let a = x + after_x;
    let b = y + after_y;
    assert(forall|j: int| 0 <= j < at ==> a[j] == b[j]);
    lemma_bytes_precede_from(a, b, at);
}

proof fn lemma_order_1_1(c: u32, d: u32)
    by (bit_vector)
    requires
        has_width_1_encoding(c),
        has_width_1_encoding(d),
        c < d,
    ensures
        leading_byte_width_1(c) < leading_byte_width_1(d),
{
}

proof fn lemma_order_1_more(c: u32, d: u32)
    by (bit_vector)
    requires
        has_width_1_encoding(c),
    ensures
        leading_byte_width_1(c) < leading_byte_width_2(d),
        leading_byte_width_1(c) < leading_byte_width_3(d),
        leading_byte_width_1(c) < leading_byte_width_4(d),
{
}

proof fn lemma_order_2_2(c: u32, d: u32)
    by (bit_vector)
    requires
        has_width_2_encoding(c),
        has_width_2_encoding(d),
        c < d,
    ensures
        leading_byte_width_2(c) < leading_byte_width_2(d) || (leading_byte_width_2(c)
            == leading_byte_width_2(d) && last_continuation_byte(c) < last_continuation_byte(d)),
{
}

proof fn lemma_order_2_more(c: u32, d: u32)
    by (bit_vector)
    ensures
        leading_byte_width_2(c) < leading_byte_width_3(d),
        leading_byte_width_2(c) < leading_byte_width_4(d),
{
}

proof fn lemma_order_3_3(c: u32, d: u32)
    by (bit_vector)
    requires
        has_width_3_encoding(c),
        has_width_3_encoding(d),
        c < d,
    ensures
        leading_byte_width_3(c) < leading_byte_width_3(d) || (leading_byte_width_3(c)
            == leading_byte_width_3(d) && (second_last_continuation_byte(c)
            < second_last_continuation_byte(d) || (second_last_continuation_byte(c)
            == second_last_continuation_byte(d) && last_continuation_byte(c)
            < last_continuation_byte(d)))),
{
}

proof fn lemma_order_3_4(c: u32, d: u32)
    by (bit_vector)
    ensures
        leading_byte_width_3(c) < leading_byte_width_4(d),
{
}

proof fn lemma_order_4_4(c: u32, d: u32)
    by (bit_vector)
    requires
        has_width_4_encoding(c),
        has_width_4_encoding(d),
        c < d,
    ensures
        leading_byte_width_4(c) < leading_byte_width_4(d) || (leading_byte_width_4(c)
            == leading_byte_width_4(d) && (third_last_continuation_byte(c)
            < third_last_continuation_byte(d) || (third_last_continuation_byte(c)
            == third_last_continuation_byte(d) && (second_last_continuation_byte(c)
            < second_last_continuation_byte(d) || (second_last_continuation_byte(c)
            == second_last_continuation_byte(d) && last_continuation_byte(c)
            < last_continuation_byte(d)))))),
{
}

/// The encodings of two characters differ first in a byte that is smaller
/// in the encoding of the character with the smaller code point.
proof fn lemma_scalar_order(c: u32, d: u32) -> (at: int)
    requires
        is_scalar(c),
        is_scalar(d),
        c < d,
    ensures
        smaller_at(encode_scalar(c), encode_scalar(d), at),
{
    let x = encode_scalar(c);
    let y = encode_scalar(d);
    if has_width_1_encoding(c) {
        if has_width_1_encoding(d) {
            lemma_order_1_1(c, d);
        } else {
            lemma_order_1_more(c, d);
        }
        0
    } else if has_width_2_encoding(c) {
        if has_width_2_encoding(d) {
            lemma_order_2_2(c, d);
            if x[0] < y[0] {
                0
            } else {
                1
            }
        } else {
            lemma_order_2_more(c, d);
            0
        }
    } else if has_width_3_encoding(c) {
        if has_width_3_encoding(d) {
            lemma_order_3_3(c, d);
            if x[0] < y[0] {
                0
            } else if x[1] < y[1] {
                1
            } else {
                2
            }
        } else {
            lemma_order_3_4(c, d);
            0
        }
    } else {
        lemma_order_4_4(c, d);
        if x[0] < y[0] {
            0
        } else if x[1] < y[1] {
            1
        } else if x[2] < y[2] {
            2
        } else {
            3
        }
    }
}

/// Texts are ordered as their encodings are ordered byte by byte.
pub proof fn lemma_precedes_as_encoded(a: Seq<char>, b: Seq<char>)
    ensures
        precedes(a, b) == bytes_precede(encode_utf8(a), encode_utf8(b)),
    decreases a.len(),
{
    let ea = encode_utf8(a);
    let eb = encode_utf8(b);
    if b.len() == 0 {
        // Nothing comes before the empty text.
    } else if a.len() == 0 {
        char_is_scalar(b[0]);
    } else {
        let c = a[0] as u32;
        let d = b[0] as u32;
        char_is_scalar(a[0]);
        char_is_scalar(b[0]);
        let x = encode_scalar(c);
        let y = encode_scalar(d);
        let ta = encode_utf8(a.drop_first());
        let tb = encode_utf8(b.drop_first());
        if a[0] == b[0] {
            lemma_precedes_as_encoded(a.drop_first(), b.drop_first());
            assert(forall|j: int| 0 <= j < x.len() ==> ea[j] == eb[j]);
            lemma_bytes_precede_from(ea, eb, x.len() as int);
            assert(ea.subrange(x.len() as int, ea.len() as int) =~= ta);
            assert(eb.subrange(x.len() as int, eb.len() as int) =~= tb);
        } else {
            char_u32_cast(a[0], c);
            char_u32_cast(b[0], d);
            if c < d {
                let at = lemma_scalar_order(c, d);
                lemma_smaller_at_precedes(x, y, at, ta, tb);
            } else {
                let at = lemma_scalar_order(d, c);
                lemma_smaller_at_precedes(y, x, at, tb, ta);
                lemma_bytes_precede_one_way(ea, eb);
            }
        }
    }
}

/// Whether the bytes of `a` come before the bytes of `b`.
fn bytes_before(a: &[u8], b: &[u8]) -> (before: bool)
    ensures
        before == bytes_precede(a@, b@),
{
    let mut i: usize = 0;
    while i < a.len() && i < b.len()
        invariant
            i <= a.len(),
            i <= b.len(),
            forall|j: int| 0 <= j < i ==> a@[j] == b@[j],
        decreases a.len() - i,
    {
        if a[i] != b[i] {
            proof {
                lemma_bytes_precede_from(a@, b@, i as int);
            }
            return a[i] < b[i];
        }
        i += 1;
    }
    proof {
        lemma_bytes_precede_from(a@, b@, i as int);
    }
    i < b.len()
}

/// Whether `a` comes before `b` in the order of texts.
pub fn text_precedes(a: &str, b: &str) -> (before: bool)
    ensures
        before == precedes(a@, b@),
{
    proof {
        lemma_precedes_as_encoded(a@, b@);
    }
    bytes_before(a.as_bytes(), b.as_bytes())
}

/// How `a` stands to `b` in the order of texts.
pub open spec fn text_order(a: Seq<char>, b: Seq<char>) -> Ordering {
    if a == b {
        Ordering::Equal
    } else if precedes(a, b) {
        Ordering::Less
    } else {
        Ordering::Greater
    }
}

/// How `a` stands to `b` in the order of texts.
pub fn compare_text(a: &str, b: &str) -> (order: Ordering)
    ensures
        order == text_order(a@, b@),
{
    proof {
        lemma_precedes_total(a@, b@);
    }
    if text_precedes(a, b) {
        Ordering::Less
    } else if text_precedes(b, a) {
        Ordering::Greater
    } else {
        Ordering::Equal
    }
}

} // verus!
