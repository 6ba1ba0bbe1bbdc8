//! Comparing and building text.

use vstd::prelude::*;
use vstd::string::*;
use vstd::utf8::*;

verus! {

/// `String::push` appends the character to the end of the string.
pub assume_specification[ String::push ](s: &mut String, c: char)
    ensures
        final(s)@ == old(s)@.push(c),
;

/// Whether two byte strings are equal.
pub fn same_bytes(a: &[u8], b: &[u8]) -> (same: bool)
    ensures
        same == (a@ == b@),
{
    if a.len() != b.len() {
        return false;
    }
    let mut i: usize = 0;
    while i < a.len()
        invariant
            i <= a.len(),
            a.len() == b.len(),
            forall|j: int| 0 <= j < i ==> a[j] == b[j],
        decreases a.len() - i,
    {
        if a[i] != b[i] {
            return false;
        }
        i = i + 1;
    }
    assert(a@ =~= b@);
    true
}

/// Whether two strings hold the same characters.
pub fn same_text(a: &str, b: &str) -> (same: bool)
    ensures
        same == (a@ == b@),
{
    proof {
        encode_utf8_decode_utf8(a@);
        encode_utf8_decode_utf8(b@);
    }
    same_bytes(a.as_bytes(), b.as_bytes())
}

/// The string that holds just `c`.
pub fn single(c: char) -> (text: String)
    ensures
        text@ == seq![c],
{
    let mut text = String::new();
    text.push(c);
    assert(text@ =~= seq![c]);
    text
}

/// Whether `a` comes before `b` in lexicographic order, or is `b`.
pub open spec fn lex_le(a: Seq<u8>, b: Seq<u8>) -> bool
    decreases a.len(),
{
    ||| a.len() == 0
    ||| b.len() > 0 && (a[0] < b[0] || a[0] == b[0] && lex_le(a.drop_first(), b.drop_first()))
}

/// Any two byte strings are in order one way or the other, and both ways only if they are equal.
pub proof fn lemma_lex_total(a: Seq<u8>, b: Seq<u8>)
    ensures
        lex_le(a, b) || lex_le(b, a),
        lex_le(a, b) && lex_le(b, a) ==> a == b,
    decreases a.len(),
{
    if a.len() > 0 && b.len() > 0 {
        lemma_lex_total(a.drop_first(), b.drop_first());
        if a[0] == b[0] && a.drop_first() == b.drop_first() {
            assert(a =~= seq![a[0]] + a.drop_first());
            assert(b =~= seq![b[0]] + b.drop_first());
        }
    } else if a.len() == 0 && b.len() == 0 {
        assert(a =~= b);
    }
}

/// The order is transitive.
pub proof fn lemma_lex_transitive(a: Seq<u8>, b: Seq<u8>, c: Seq<u8>)
    requires
        lex_le(a, b),
        lex_le(b, c),
    ensures
        lex_le(a, c),
    decreases a.len(),
{
    if a.len() > 0 && a[0] == b[0] && b[0] == c[0] {
        lemma_lex_transitive(a.drop_first(), b.drop_first(), c.drop_first());
    }
}

/// Whether `a` is not after `b` in lexicographic order.
pub fn not_after(a: &[u8], b: &[u8]) -> (ordered: bool)
    ensures
        ordered == lex_le(a@, b@),
{
    let mut i: usize = 0;
    assert(a@.skip(0) =~= a@);
    assert(b@.skip(0) =~= b@);
    while i < a.len()
        invariant
            i <= a.len(),
            i <= b.len(),
            lex_le(a@, b@) == lex_le(a@.skip(i as int), b@.skip(i as int)),
        decreases a.len() - i,
    {
        if i >= b.len() {
            return false;
        }
        if a[i] != b[i] {
            return a[i] < b[i];
        }
        assert(a@.skip(i as int).drop_first() =~= a@.skip(i + 1));
        assert(b@.skip(i as int).drop_first() =~= b@.skip(i + 1));
        i = i + 1;
    }
    true
}

/// `n` in lower-case hexadecimal digits, without leading zeros.
pub open spec fn hex(n: nat) -> Seq<char>
    decreases n,
{
    if n < 16 {
        seq!["0123456789abcdef"@[n as int]]
    } else {
        hex(n / 16).push("0123456789abcdef"@[(n % 16) as int])
    }
}

/// Appends `n` in hexadecimal digits.
pub fn append_hex(text: &mut String, n: u32)
    ensures
        final(text)@ == old(text)@ + hex(n as nat),
    decreases n,
{
    proof {
        reveal_strlit("0123456789abcdef");
    }
    if n >= 16 {
        append_hex(text, n / 16);
    }
    text.push("0123456789abcdef".get_char((n % 16) as usize));
    assert(text@ =~= old(text)@ + hex(n as nat));
}

/// The value of a lower-case hexadecimal digit.
pub open spec fn digit_value(c: char) -> int {
    if '0' <= c <= '9' {
        c as int - '0' as int
    } else {
        c as int - 'a' as int + 10
    }
}

/// Whether this is a lower-case hexadecimal digit.
pub open spec fn is_digit(c: char) -> bool {
    '0' <= c <= '9' || 'a' <= c <= 'f'
}

/// The number that hexadecimal digits stand for.
pub open spec fn hex_value(digits: Seq<char>) -> int
    decreases digits.len(),
{
    if digits.len() == 0 {
        0
    } else {
        16 * hex_value(digits.drop_last()) + digit_value(digits.last())
    }
}

/// A number in hexadecimal digits reads as that number again, with lower-case digits and without
/// leading zeros.
pub proof fn law_hex_digits_stand_for_their_number(n: nat)
    ensures
        hex_value(hex(n)) == n,
        hex(n).len() > 0,
        forall|i: int| 0 <= i < hex(n).len() ==> is_digit(#[trigger] hex(n)[i]),
        n > 0 ==> hex(n)[0] != '0',
    decreases n,
{
    reveal_strlit("0123456789abcdef");
    reveal_with_fuel(hex_value, 2);
    if n >= 16 {
        law_hex_digits_stand_for_their_number(n / 16);
        let last = "0123456789abcdef"@[(n % 16) as int];
        assert(hex(n).drop_last() =~= hex(n / 16));
        assert(is_digit(last) && digit_value(last) == n % 16);
        assert forall|i: int| 0 <= i < hex(n).len() implies is_digit(#[trigger] hex(n)[i]) by {
            if i < hex(n).len() - 1 {
                assert(hex(n)[i] == hex(n / 16)[i]);
            }
        }
        assert(hex(n)[0] == hex(n / 16)[0]);
    } else {
        assert(hex(n).drop_last() =~= seq![]);
    }
}

/// Appending a number in hexadecimal keeps the text and adds digits that stand for the number.
pub proof fn law_appended_digits_stand_for_the_number(text: &mut String, n: u32)
    requires
        call_ensures(append_hex, (text, n), ()),
    ensures
        ({
            let len = old(text)@.len() as int;
            &&& final(text)@.len() > len
            &&& final(text)@.take(len) == old(text)@
            &&& hex_value(final(text)@.skip(len)) == n
            &&& forall|i: int|
                len <= i < final(text)@.len() ==> is_digit(#[trigger] final(text)@[i])
            &&& n > 0 ==> final(text)@[len] != '0'
        }),
{
    law_hex_digits_stand_for_their_number(n as nat);
    let len = old(text)@.len() as int;
    assert(final(text)@.take(len) =~= old(text)@);
    assert(final(text)@.skip(len) =~= hex(n as nat));
    assert forall|i: int| len <= i < final(text)@.len() implies is_digit(
        #[trigger] final(text)@[i],
    ) by {
        assert(final(text)@[i] == hex(n as nat)[i - len]);
    }
}

/// Texts and byte strings are the same exactly when they have the same length and agree everywhere.
pub proof fn law_same_means_equal(
    a: &[u8],
    b: &[u8],
    same: bool,
    text: &str,
    other: &str,
    same_texts: bool,
    c: char,
    alone: String,
)
    requires
        call_ensures(same_bytes, (a, b), same),
        call_ensures(same_text, (text, other), same_texts),
        call_ensures(single, (c,), alone),
    ensures
        same <==> a@.len() == b@.len() && forall|i: int| 0 <= i < a@.len() ==> a@[i] == b@[i],
        same_texts <==> text@.len() == other@.len() && forall|i: int|
            0 <= i < text@.len() ==> text@[i] == other@[i],
        alone@.len() == 1 && alone@[0] == c,
{
    if a@.len() == b@.len() && forall|i: int| 0 <= i < a@.len() ==> a@[i] == b@[i] {
        assert(a@ =~= b@);
    }
    if text@.len() == other@.len() && forall|i: int| 0 <= i < text@.len() ==> text@[i] == other@[i] {
        assert(text@ =~= other@);
    }
}

/// Whether `a` is the start of `b`, or is smaller at the first place where they differ.
pub open spec fn starts_or_is_smaller(a: Seq<u8>, b: Seq<u8>) -> bool {
    ||| a.len() <= b.len() && a == b.take(a.len() as int)
    ||| exists|at: int|
        0 <= at < a.len() && at < b.len() && a.take(at) == b.take(at) && #[trigger] a[at] < b[at]
}

/// Byte strings are ordered by the first byte in which they differ; the start of one comes before
/// the whole.
pub proof fn law_bytes_are_ordered_by_their_first_difference(a: Seq<u8>, b: Seq<u8>)
    ensures
        lex_le(a, b) <==> starts_or_is_smaller(a, b),
    decreases a.len(),
{
    if a.len() == 0 {
        assert(a =~= b.take(0));
    } else if b.len() > 0 {
        let (s, t) = (a.drop_first(), b.drop_first());
        law_bytes_are_ordered_by_their_first_difference(s, t);
        if lex_le(a, b) {
            if a[0] < b[0] {
                assert(a.take(0) =~= b.take(0));
            } else if s.len() <= t.len() && s == t.take(s.len() as int) {
                assert forall|i: int| 0 <= i < a.len() implies a[i] == b[i] by {
                    if i > 0 {
                        assert(a[i] == s[i - 1] && b[i] == t.take(s.len() as int)[i - 1]);
                    }
                }
                assert(a =~= b.take(a.len() as int));
            } else {
                let at = choose|at: int|
                    0 <= at < s.len() && at < t.len() && s.take(at) == t.take(at)
                        && #[trigger] s[at] < t[at];
                assert forall|i: int| 0 <= i < at + 1 implies a[i] == b[i] by {
                    if i > 0 {
                        assert(s.take(at)[i - 1] == t.take(at)[i - 1]);
                    }
                }
                assert(a.take(at + 1) =~= b.take(at + 1));
                assert(a[at + 1] < b[at + 1]);
            }
        }
        if starts_or_is_smaller(a, b) {
            if a.len() <= b.len() && a == b.take(a.len() as int) {
                assert(a[0] == b.take(a.len() as int)[0]);
                assert(s =~= t.take(s.len() as int)) by {
                    assert forall|i: int| 0 <= i < s.len() implies s[i] == t[i] by {
                        assert(a[i + 1] == b.take(a.len() as int)[i + 1]);
                    }
                }
            } else {
                let at = choose|at: int|
                    0 <= at < a.len() && at < b.len() && a.take(at) == b.take(at)
                        && #[trigger] a[at] < b[at];
                if at > 0 {
                    assert(a.take(at)[0] == b.take(at)[0]);
                    assert forall|i: int| 0 <= i < at - 1 implies s[i] == t[i] by {
                        assert(a.take(at)[i + 1] == b.take(at)[i + 1]);
                    }
                    assert(s.take(at - 1) =~= t.take(at - 1));
                    assert(s[at - 1] < t[at - 1]);
                }
            }
        }
    }
}

} // verus!
