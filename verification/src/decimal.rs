//! Decimal text of integers, as it appears unquoted in SQL.

use vstd::prelude::*;
use vstd::string::StringExecFns;

verus! {

/// The character that writes the digit `d`.
pub open spec fn digit_char(d: int) -> char {
    if d == 0 {
        '0'
    } else if d == 1 {
        '1'
    } else if d == 2 {
        '2'
    } else if d == 3 {
        '3'
    } else if d == 4 {
        '4'
    } else if d == 5 {
        '5'
    } else if d == 6 {
        '6'
    } else if d == 7 {
        '7'
    } else if d == 8 {
        '8'
    } else {
        '9'
    }
}

/// Whether `c` is one of the ten decimal digits.
pub open spec fn is_digit(c: char) -> bool {
    '0' <= c && c <= '9'
}

/// The decimal text of `n`: most significant digit first, no leading zero, at
/// least one digit.
pub open spec fn unsigned_decimal(n: nat) -> Seq<char>
    decreases n,
{
    if n < 10 {
        seq![digit_char(n as int)]
    } else {
        unsigned_decimal(n / 10).push(digit_char((n % 10) as int))
    }
}

/// The decimal text of `i`: a minus sign for a negative number, then the
/// decimal text of its magnitude.
pub open spec fn signed_decimal(i: int) -> Seq<char> {
    if i < 0 {
        seq!['-'] + unsigned_decimal((-i) as nat)
    } else {
        unsigned_decimal(i as nat)
    }
}

/// Whether `s` is a nonempty run of decimal digits.
pub open spec fn is_unsigned_decimal(s: Seq<char>) -> bool {
    &&& s.len() > 0
    &&& forall|i: int| 0 <= i < s.len() ==> is_digit(#[trigger] s[i])
}

/// Whether `s` is a run of decimal digits with at most one minus sign in front.
pub open spec fn is_signed_decimal(s: Seq<char>) -> bool {
    ||| is_unsigned_decimal(s)
    ||| s.len() > 0 && s[0] == '-' && is_unsigned_decimal(s.skip(1))
}

/// The number that a run of digits writes.
pub open spec fn decimal_value(s: Seq<char>) -> nat
    decreases s.len(),
{
    if s.len() == 0 {
        0
    } else {
        (decimal_value(s.drop_last()) * 10 + (s.last() as int - '0' as int)) as nat
    }
}

/// The decimal text of a number is a nonempty run of digits.
pub proof fn lemma_unsigned_decimal_is_digits(n: nat)
    ensures
        is_unsigned_decimal(unsigned_decimal(n)),
    decreases n,
{
    if n >= 10 {
        lemma_unsigned_decimal_is_digits(n / 10);
    }
}

/// The decimal text of a number writes that number, and starts with a zero
/// only when the number is zero.
pub proof fn lemma_unsigned_decimal_value(n: nat)
    ensures
        decimal_value(unsigned_decimal(n)) == n,
        n > 0 ==> unsigned_decimal(n)[0] != '0',
        n == 0 ==> unsigned_decimal(n) == seq!['0'],
    decreases n,
{
    let text = unsigned_decimal(n);
    if n < 10 {
        assert(text.drop_last() =~= Seq::<char>::empty());
        assert(decimal_value(text.drop_last()) == 0);
    } else {
        lemma_unsigned_decimal_value(n / 10);
        lemma_unsigned_decimal_is_digits(n / 10);
        assert(text.drop_last() =~= unsigned_decimal(n / 10));
    }
}

/// The decimal text of an integer follows the grammar of a signed decimal.
pub proof fn lemma_signed_decimal_is_decimal(i: int)
    ensures
        is_signed_decimal(signed_decimal(i)),
        i >= 0 ==> is_unsigned_decimal(signed_decimal(i)),
{
    if i < 0 {
        lemma_unsigned_decimal_is_digits((-i) as nat);
        assert(signed_decimal(i).skip(1) =~= unsigned_decimal((-i) as nat));
    } else {
        lemma_unsigned_decimal_is_digits(i as nat);
    }
}

/// The part of a number's text that follows its sign: `s` without a leading
/// minus sign.
pub open spec fn unsigned_part(s: Seq<char>) -> Seq<char> {
    if s.len() > 0 && s[0] == '-' {
        s.skip(1)
    } else {
        s
    }
}

/// Whether `s` is the decimal text of a number that may have a fraction: an
/// optional minus sign, then digits with at most one point among them, which
/// stands neither first nor last.
pub open spec fn is_fractional_decimal(s: Seq<char>) -> bool {
    let body = unsigned_part(s);
    &&& body.len() > 0
    &&& is_digit(body[0])
    &&& is_digit(body.last())
    &&& forall|i: int| 0 <= i < body.len() ==> is_digit(#[trigger] body[i]) || body[i] == '.'
    &&& forall|i: int, j: int|
        0 <= i < j < body.len() ==> !(#[trigger] body[i] == '.' && #[trigger] body[j] == '.')
}

/// Whether the byte `b` is an ASCII decimal digit.
fn is_digit_byte(b: u8) -> (digit: bool)
    ensures
        digit == (48 <= b <= 57),
{
    48 <= b && b <= 57
}

/// Tests whether `text` is the decimal text of a number that may have a
/// fraction.
pub fn is_fractional_decimal_str(text: &str) -> (ok: bool)
    ensures
        ok == is_fractional_decimal(text@),
{
    if !text.is_ascii() {
        proof {
            if is_fractional_decimal(text@) {
                lemma_fractional_decimal_is_ascii(text@);
            }
        }
        return false;
    }
    let bytes = text.as_bytes();
    let n = bytes.len();
    let ghost body = unsigned_part(text@);
    proof {
        vstd::string::is_ascii_spec_bytes(text);
        vstd::utf8::is_ascii_chars_nat_bound(text@);
        assert(n == text@.len());
        assert forall|k: int| 0 <= k < n implies bytes[k] as int == #[trigger] text@[k] as int by {
            assert((text@[k] as nat) < 128);
            assert(bytes@[k] == text@[k] as u8);
        }
    }
    let start: usize = if n > 0 && bytes[0] == 45 {
        1
    } else {
        0
    };
    assert(body.len() == n - start);
    assert(forall|k: int| 0 <= k < body.len() ==> #[trigger] body[k] == text@[k + start]);
    if start >= n {
        return false;
    }
    if !is_digit_byte(bytes[start]) || !is_digit_byte(bytes[n - 1]) {
        assert(body[0] == text@[start as int]);
        assert(body.last() == text@[n - 1]);
        return false;
    }
    let mut points: usize = 0;
    let mut i: usize = start;
    let ghost mut point_at: int = 0;
    while i < n
        invariant
            start <= i <= n,
            n == bytes.len(),
            n == text@.len(),
            body == unsigned_part(text@),
            body.len() == n - start,
            points <= 1,
            forall|k: int| 0 <= k < n ==> bytes[k] as int == #[trigger] text@[k] as int,
            forall|k: int| 0 <= k < body.len() ==> #[trigger] body[k] == text@[k + start],
            forall|k: int| 0 <= k < i - start ==> is_digit(#[trigger] body[k]) || body[k] == '.',
            points == 0 ==> forall|k: int| 0 <= k < i - start ==> #[trigger] body[k] != '.',
            points == 1 ==> 0 <= point_at < i - start && body[point_at] == '.' && forall|k: int|
                0 <= k < i - start && k != point_at ==> #[trigger] body[k] != '.',
        decreases n - i,
    {
        let b = bytes[i];
        assert(body[i - start] == text@[i as int]);
        assert(b as int == body[i - start] as int);
        if b == 46 {
            assert(body[i - start] == '.');
            if points == 1 {
                assert(point_at < i - start && body[point_at] == '.' && body[i - start] == '.');
                return false;
            }
            points = 1;
            proof {
                point_at = i - start;
            }
        } else if !is_digit_byte(b) {
            assert(!is_digit(body[i - start]) && body[i - start] != '.');
            return false;
        } else {
            assert(is_digit(body[i - start]));
        }
        i += 1;
    }
    proof {
        assert(body[0] == text@[start as int]);
        assert(body.last() == text@[n - 1]);
        assert(is_digit(body[0]));
        assert(is_digit(body.last()));
    }
    true
}

/// The decimal text of a number is made of ASCII characters.
pub proof fn lemma_fractional_decimal_is_ascii(s: Seq<char>)
    requires
        is_fractional_decimal(s),
    ensures
        vstd::utf8::is_ascii_chars(s),
{
    let body = unsigned_part(s);
    assert forall|i: int| 0 <= i < s.len() implies '\0' <= #[trigger] s[i] <= '\u{7f}' by {
        if s[0] == '-' {
            if i > 0 {
                assert(s[i] == body[i - 1]);
            }
        } else {
            assert(s[i] == body[i]);
        }
    }
}

/// The text of one decimal digit.
fn digit_str(d: u64) -> (s: &'static str)
    requires
        d < 10,
    ensures
        s@ == seq![digit_char(d as int)],
{
    proof {
        reveal_strlit("0");
        reveal_strlit("1");
        reveal_strlit("2");
        reveal_strlit("3");
        reveal_strlit("4");
        reveal_strlit("5");
        reveal_strlit("6");
        reveal_strlit("7");
        reveal_strlit("8");
        reveal_strlit("9");
    }
    let s = if d == 0 {
        "0"
    } else if d == 1 {
        "1"
    } else if d == 2 {
        "2"
    } else if d == 3 {
        "3"
    } else if d == 4 {
        "4"
    } else if d == 5 {
        "5"
    } else if d == 6 {
        "6"
    } else if d == 7 {
        "7"
    } else if d == 8 {
        "8"
    } else {
        "9"
    };
    assert(s@ =~= seq![digit_char(d as int)]);
    s
}

/// Writes `u` in decimal.
pub fn uint_to_string(u: u64) -> (text: String)
    ensures
        text@ == unsigned_decimal(u as nat),
    decreases u,
{
    if u < 10 {
        String::from_str(digit_str(u))
    } else {
        let mut text = uint_to_string(u / 10);
        text.append(digit_str(u % 10));
        assert(text@ =~= unsigned_decimal(u as nat));
        text
    }
}

/// Writes `i` in decimal, with a minus sign in front of a negative number.
pub fn int_to_string(i: i64) -> (text: String)
    ensures
        text@ == signed_decimal(i as int),
{
    if i < 0 {
        let magnitude: u64 = if i == i64::MIN {
            0x8000_0000_0000_0000u64
        } else {
            (-i) as u64
        };
        let digits = uint_to_string(magnitude);
        let mut text = String::from_str("-");
        text.append(digits.as_str());
        proof {
            reveal_strlit("-");
            assert(text@ =~= signed_decimal(i as int));
        }
        text
    } else {
        uint_to_string(i as u64)
    }
}

} // verus!
