//! Text helpers: comparison of strings and decimal numbers written as text,
//! both stated over character sequences.
use vstd::prelude::*;
use vstd::string::is_ascii_spec_bytes;
use vstd::utf8::{encode_utf8, encode_utf8_decode_utf8};

verus! {

/// Tells whether two strings hold the same characters.
pub fn same_text(a: &str, b: &str) -> (same: bool)
    ensures
        same == (a@ == b@),
{
    let x = a.as_bytes();
    let y = b.as_bytes();
    proof {
        encode_utf8_decode_utf8(a@);
        encode_utf8_decode_utf8(b@);
    }
    if x.len() != y.len() {
        return false;
    }
    let mut i: usize = 0;
    while i < x.len()
        invariant
            i <= x.len(),
            x.len() == y.len(),
            x@ == encode_utf8(a@),
            y@ == encode_utf8(b@),
            forall|j: int| 0 <= j < i ==> x@[j] == y@[j],
        decreases x.len() - i,
    {
        if x[i] != y[i] {
            return false;
        }
        i += 1;
    }
    assert(x@ =~= y@);
    true
}

/// A decimal digit, `0` to `9`.
pub open spec fn is_digit(c: char) -> bool {
    '0' <= c <= '9'
}

/// The number a decimal digit stands for.
pub open spec fn digit_value(c: char) -> nat {
    (c as u32 - '0' as u32) as nat
}

/// Every character of `s` is a decimal digit.
pub open spec fn all_digits(s: Seq<char>) -> bool {
    forall|i: int| 0 <= i < s.len() ==> is_digit(#[trigger] s[i])
}

/// The number that a sequence of decimal digits denotes, most significant digit first.
pub open spec fn decimal_value(s: Seq<char>) -> nat
    decreases s.len(),
{
    if s.len() == 0 {
        0
    } else {
        decimal_value(s.drop_last()) * 10 + digit_value(s.last())
    }
}

/// The text without one leading plus sign, if it has one.
pub open spec fn unsigned_part(s: Seq<char>) -> Seq<char> {
    if s.len() > 0 && s[0] == '+' {
        s.subrange(1, s.len() as int)
    } else {
        s
    }
}

/// The unsigned 16-bit number that a text denotes: an optional plus sign, then one or more
/// decimal digits (leading zeros allowed) whose value is at most 65535. Any other text,
/// the empty one and a lone sign included, denotes nothing.
pub open spec fn u16_of_text(s: Seq<char>) -> Option<u16> {
    let digits = unsigned_part(s);
    if digits.len() > 0 && all_digits(digits) && decimal_value(digits) <= u16::MAX {
        Some(decimal_value(digits) as u16)
    } else {
        None
    }
}

/// A number written with digits is at least the number written with any prefix of them.
pub proof fn lemma_decimal_value_prefix(s: Seq<char>, k: int)
    requires
        0 <= k <= s.len(),
    ensures
        decimal_value(s.subrange(0, k)) <= decimal_value(s),
    decreases s.len(),
{
    if k == s.len() {
        assert(s.subrange(0, k) =~= s);
    } else {
        lemma_decimal_value_prefix(s.drop_last(), k);
        assert(s.drop_last().subrange(0, k) =~= s.subrange(0, k));
    }
}

/// The digit that stands for a number below ten.
pub open spec fn digit_of(n: nat) -> char
    recommends
        n < 10,
{
    ((n + '0' as u32) as u32) as char
}

/// A number written in decimal digits, without sign or leading zeros.
pub open spec fn decimal_text(n: nat) -> Seq<char>
    decreases n,
{
    if n < 10 {
        seq![digit_of(n)]
    } else {
        decimal_text(n / 10).push(digit_of(n % 10))
    }
}

/// The decimal text of a number consists of digits and denotes the number.
pub proof fn lemma_decimal_text_denotes(n: nat)
    ensures
        decimal_text(n).len() > 0,
        all_digits(decimal_text(n)),
        decimal_value(decimal_text(n)) == n,
    decreases n,
{
    if n < 10 {
        let text = seq![digit_of(n)];
        assert(is_digit(digit_of(n)) && digit_value(digit_of(n)) == n);
        assert(text.drop_last() =~= Seq::<char>::empty());
        assert(decimal_value(text.drop_last()) == 0);
    } else {
        let front = decimal_text(n / 10);
        let last = digit_of(n % 10);
        lemma_decimal_text_denotes(n / 10);
        assert(is_digit(last) && digit_value(last) == n % 10);
        assert(front.push(last).drop_last() =~= front);
        assert forall|i: int| 0 <= i < front.push(last).len() implies is_digit(
            #[trigger] front.push(last)[i],
        ) by {
            if i < front.len() {
                assert(front.push(last)[i] == front[i]);
            }
        }
    }
}

/// Reading undoes writing: every unsigned 16-bit number is read back from its decimal
/// text.
pub proof fn lemma_decimal_text_reads_back(n: u16)
    ensures
        u16_of_text(decimal_text(n as nat)) == Some(n),
{
    lemma_decimal_text_denotes(n as nat);
    let text = decimal_text(n as nat);
    assert(is_digit(text[0]));
}

/// A text that holds anything but digits after its optional plus sign denotes no number.
pub proof fn lemma_non_digit_is_no_number(text: Seq<char>, i: int)
    requires
        0 <= i < text.len(),
        !is_digit(text[i]),
        i > 0 || text[0] != '+',
    ensures
        u16_of_text(text) is None,
{
    let digits = unsigned_part(text);
    if digits.len() == text.len() {
        assert(!is_digit(digits[i]));
    } else {
        assert(digits[i - 1] == text[i]);
        assert(!is_digit(digits[i - 1]));
    }
}

/// Reads an unsigned 16-bit number from its decimal text, as `u16`'s `FromStr` does.
pub fn parse_u16(s: &str) -> (number: Option<u16>)
    ensures
        number == u16_of_text(s@),
{
    if !s.is_ascii() {
        proof {
            let i = choose|i: int| 0 <= i < s@.len() && !('\0' <= #[trigger] s@[i] <= '\u{7f}');
            lemma_non_digit_is_no_number(s@, i);
        }
        return None;
    }
    let bytes = s.as_bytes();
    proof {
        is_ascii_spec_bytes(s);
    }
    let n = bytes.len();
    let start: usize = if n > 0 && bytes[0] == 43u8 { 1 } else { 0 };
    let ghost digits = unsigned_part(s@);
    assert(digits.len() == n - start);
    assert(forall|j: int| 0 <= j < digits.len() ==> digits[j] == s@[j + start]);
    if start == n {
        return None;
    }
    let mut value: u32 = 0;
    let mut i: usize = start;
    while i < n
        invariant
            start <= i <= n,
            n == bytes@.len(),
            n == s@.len(),
            digits.len() == n - start,
            forall|j: int| 0 <= j < digits.len() ==> digits[j] == s@[j + start],
            forall|j: int| 0 <= j < n ==> '\0' <= #[trigger] s@[j] <= '\u{7f}',
            forall|j: int| 0 <= j < n ==> bytes@[j] == s@[j] as u8,
            all_digits(digits.subrange(0, i - start)),
            value == decimal_value(digits.subrange(0, i - start)),
            value <= u16::MAX,
            digits == unsigned_part(s@),
        decreases n - i,
    {
        let b = bytes[i];
        let ghost c = s@[i as int];
        assert(digits[i - start] == c);
        assert(b == c as u8);
        if b < 48u8 || b > 57u8 {
            assert(!is_digit(c));
            return None;
        }
        assert(is_digit(c));
        let next: u32 = value * 10 + (b - 48u8) as u32;
        proof {
            let longer = digits.subrange(0, i - start + 1);
            assert(longer.drop_last() =~= digits.subrange(0, i - start));
            assert(longer.last() == c);
            assert(next == decimal_value(longer));
            lemma_decimal_value_prefix(digits, i - start + 1);
            assert(all_digits(longer));
        }
        if next > 65535u32 {
            return None;
        }
        value = next;
        i += 1;
    }
    assert(digits.subrange(0, i - start) =~= digits);
    Some(value as u16)
}

} // verus!
