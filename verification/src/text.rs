//! Plain text renderings of a fixed-point value: the diagnostic form
//! `I32F<e>(s)` in decimal, and the raw bit pattern in binary, octal and
//! hexadecimal, rendered as the underlying 32-bit unsigned integer would be.

use crate::i32f::I32F;
use vstd::arithmetic::div_mod::lemma_div_is_strictly_smaller;
use vstd::arithmetic::div_mod::lemma_fundamental_div_mod;
use vstd::arithmetic::div_mod::lemma_mod_bound;
use vstd::prelude::*;
use vstd::string::StringExecFns;

verus! {

broadcast use vstd::seq::group_seq_axioms;

/// The character for one digit of value `d`, in bases up to sixteen; letter
/// digits come out upper- or lower-case as asked.
pub open spec fn digit_char(d: nat, upper: bool) -> char
    recommends
        d < 16,
{
    if d == 0 {
        '0'
    } else if d == 1 {
        '1'
    } else if d == 2 {
        '2'
    } else if d == 3 {
        '3'
    } else if d == 4 {
        '4'
    } else if d == 5 {
        '5'
    } else if d == 6 {
        '6'
    } else if d == 7 {
        '7'
    } else if d == 8 {
        '8'
    } else if d == 9 {
        '9'
    } else if d == 10 {
        if upper {
            'A'
        } else {
            'a'
        }
    } else if d == 11 {
        if upper {
            'B'
        } else {
            'b'
        }
    } else if d == 12 {
        if upper {
            'C'
        } else {
            'c'
        }
    } else if d == 13 {
        if upper {
            'D'
        } else {
            'd'
        }
    } else if d == 14 {
        if upper {
            'E'
        } else {
            'e'
        }
    } else {
        if upper {
            'F'
        } else {
            'f'
        }
    }
}

/// The digits of `n` in the given base, most significant first, with no
/// leading zeros; zero renders as the single digit `0`.
pub open spec fn radix_digits(n: nat, base: nat, upper: bool) -> Seq<char>
    recommends
        2 <= base <= 16,
    decreases n,
    when 2 <= base
    via radix_digits_decreases
{
    if n < base {
        seq![digit_char(n, upper)]
    } else {
        radix_digits(n / base, base, upper).push(digit_char(n % base, upper))
    }
}

#[via_fn]
proof fn radix_digits_decreases(n: nat, base: nat, upper: bool) {
    if n >= base {
        lemma_div_is_strictly_smaller(n as int, base as int);
    }
}

/// The decimal rendering of a signed integer: a minus sign for negative
/// values, then the digits of the magnitude.
pub open spec fn dec_chars(v: int) -> Seq<char> {
    if v < 0 {
        seq!['-'] + radix_digits((-v) as nat, 10, false)
    } else {
        radix_digits(v as nat, 10, false)
    }
}

/// The diagnostic text form of a fixed-point value with exponent `e` and
/// significand `s`: `I32F<e>(s)`, both numbers in decimal.
pub open spec fn debug_chars(e: int, s: int) -> Seq<char> {
    "I32F<"@ + dec_chars(e) + ">("@ + dec_chars(s) + ")"@
}

/// Whether a character is one of the ten decimal digits.
pub open spec fn dec_digit(c: char) -> bool {
    c == '0' || c == '1' || c == '2' || c == '3' || c == '4' || c == '5' || c == '6' || c == '7'
        || c == '8' || c == '9'
}

/// A base-ten rendering is never empty and is made of decimal digits alone.
proof fn lemma_dec_digits_shape(n: nat)
    ensures
        radix_digits(n, 10, false).len() >= 1,
        forall|i: int|
            0 <= i < radix_digits(n, 10, false).len() ==> dec_digit(
                #[trigger] radix_digits(n, 10, false)[i],
            ),
    decreases n,
{
    if n >= 10 {
        lemma_div_is_strictly_smaller(n as int, 10);
        lemma_mod_bound(n as int, 10);
        lemma_dec_digits_shape(n / 10);
        let p = radix_digits(n / 10, 10, false);
        let c = digit_char(n % 10, false);
        assert forall|i: int| 0 <= i < radix_digits(n, 10, false).len() implies dec_digit(
            radix_digits(n, 10, false)[i],
        ) by {
            if i < p.len() {
                assert(p.push(c)[i] == p[i]);
            } else {
                assert(p.push(c)[i] == c);
            }
        }
    }
}

/// Two numbers with the same base-ten rendering are the same number.
proof fn lemma_dec_digits_injective(n1: nat, n2: nat)
    requires
        radix_digits(n1, 10, false) == radix_digits(n2, 10, false),
    ensures
        n1 == n2,
    decreases n1,
{
    if n1 < 10 && n2 < 10 {
        assert(seq![digit_char(n1, false)][0] == digit_char(n1, false));
        assert(seq![digit_char(n2, false)][0] == digit_char(n2, false));
        assert(radix_digits(n1, 10, false)[0] == radix_digits(n2, 10, false)[0]);
        assert(digit_char(n1, false) == digit_char(n2, false));
        assert(n1 == n2);
    } else if n1 >= 10 && n2 >= 10 {
        lemma_div_is_strictly_smaller(n1 as int, 10);
        lemma_mod_bound(n1 as int, 10);
        lemma_mod_bound(n2 as int, 10);
        let p1 = radix_digits(n1 / 10, 10, false);
        let p2 = radix_digits(n2 / 10, 10, false);
        let c1 = digit_char(n1 % 10, false);
        let c2 = digit_char(n2 % 10, false);
        assert(p1.push(c1) == p2.push(c2));
        assert(p1.len() == p2.len()) by {
            assert(p1.push(c1).len() == p2.push(c2).len());
        }
        assert(c1 == c2) by {
            assert(p1.push(c1)[p1.len() as int] == c1);
            assert(p2.push(c2)[p2.len() as int] == c2);
        }
        assert(p1 =~= p2) by {
            assert forall|i: int| 0 <= i < p1.len() implies p1[i] == p2[i] by {
                assert(p1.push(c1)[i] == p1[i]);
                assert(p2.push(c2)[i] == p2[i]);
            }
        }
        lemma_dec_digits_injective(n1 / 10, n2 / 10);
        lemma_fundamental_div_mod(n1 as int, 10);
        lemma_fundamental_div_mod(n2 as int, 10);
    } else {
        let small: nat = if n1 < 10 {
            n1
        } else {
            n2
        };
        let large: nat = if n1 < 10 {
            n2
        } else {
            n1
        };
        lemma_div_is_strictly_smaller(large as int, 10);
        lemma_dec_digits_shape(large / 10);
        assert(radix_digits(large, 10, false).len() >= 2);
        assert(radix_digits(small, 10, false).len() == 1);
    }
}

/// A signed decimal rendering is never empty, holds only digits and the
/// minus sign, and opens with a digit exactly when the number is not
/// negative.
proof fn lemma_dec_chars_shape(v: int)
    ensures
        dec_chars(v).len() >= 1,
        forall|i: int|
            0 <= i < dec_chars(v).len() ==> dec_digit(#[trigger] dec_chars(v)[i]) || dec_chars(
                v,
            )[i] == '-',
        dec_digit(dec_chars(v)[0]) <==> v >= 0,
{
    if v < 0 {
        lemma_dec_digits_shape((-v) as nat);
    } else {
        lemma_dec_digits_shape(v as nat);
    }
}

/// Two numbers with the same signed decimal rendering are the same number.
proof fn lemma_dec_chars_injective(v1: int, v2: int)
    requires
        dec_chars(v1) == dec_chars(v2),
    ensures
        v1 == v2,
{
    lemma_dec_chars_shape(v1);
    lemma_dec_chars_shape(v2);
    if v1 < 0 && v2 < 0 {
        let a = radix_digits((-v1) as nat, 10, false);
        let b = radix_digits((-v2) as nat, 10, false);
        assert(a =~= b) by {
            assert(seq!['-'] + a == seq!['-'] + b);
            assert forall|i: int| 0 <= i < a.len() implies a[i] == b[i] by {
                assert((seq!['-'] + a)[i + 1] == a[i]);
                assert((seq!['-'] + b)[i + 1] == b[i]);
            }
        }
        lemma_dec_digits_injective((-v1) as nat, (-v2) as nat);
    } else if v1 >= 0 && v2 >= 0 {
        lemma_dec_digits_injective(v1 as nat, v2 as nat);
    } else {
        assert(dec_digit(dec_chars(v1)[0]) == dec_digit(dec_chars(v2)[0]));
    }
}

/// Where each piece of the diagnostic form stands: the exponent starts at
/// position five, a `>` closes it, and the significand follows two places
/// later.
proof fn lemma_debug_chars_index(e: int, s: int)
    ensures
        debug_chars(e, s).len() == 8 + dec_chars(e).len() + dec_chars(s).len(),
        forall|i: int|
            5 <= i < 5 + dec_chars(e).len() ==> #[trigger] debug_chars(e, s)[i] == dec_chars(
                e,
            )[i - 5],
        debug_chars(e, s)[5 + dec_chars(e).len() as int] == '>',
        forall|i: int|
            0 <= i < dec_chars(s).len() ==> #[trigger] debug_chars(e, s)[7 + dec_chars(e).len()
                + i] == dec_chars(s)[i],
{
    reveal_strlit("I32F<");
    reveal_strlit(">(");
    reveal_strlit(")");
    let d = dec_chars(e);
    let t = dec_chars(s);
    let head = "I32F<"@ + d;
    let mid = head + ">("@;
    let body = mid + t;
    assert(debug_chars(e, s) == body + ")"@);
    assert forall|i: int| 5 <= i < 5 + d.len() implies #[trigger] debug_chars(e, s)[i] == d[i
        - 5] by {
        assert((body + ")"@)[i] == body[i]);
        assert(body[i] == mid[i]);
        assert(mid[i] == head[i]);
        assert(head[i] == d[i - 5]);
    }
    assert(debug_chars(e, s)[5 + d.len() as int] == '>') by {
        let j = 5 + d.len() as int;
        assert((body + ")"@)[j] == body[j]);
        assert(body[j] == mid[j]);
        assert(mid[j] == ">("@[0]);
    }
    assert forall|i: int| 0 <= i < t.len() implies #[trigger] debug_chars(e, s)[7 + d.len() + i]
        == t[i] by {
        let j = 7 + d.len() as int + i;
        assert((body + ")"@)[j] == body[j]);
        assert(body[j] == t[j - mid.len()]);
    }
}

/// The diagnostic form is unambiguous: two renderings read the same only
/// when both the exponent and the significand agree.
pub proof fn lemma_debug_chars_injective(e1: int, s1: int, e2: int, s2: int)
    requires
        debug_chars(e1, s1) == debug_chars(e2, s2),
    ensures
        e1 == e2,
        s1 == s2,
{
    lemma_dec_chars_shape(e1);
    lemma_dec_chars_shape(e2);
    lemma_dec_chars_shape(s1);
    lemma_dec_chars_shape(s2);
    lemma_debug_chars_index(e1, s1);
    lemma_debug_chars_index(e2, s2);
    let d1 = dec_chars(e1);
    let d2 = dec_chars(e2);
    let t1 = dec_chars(s1);
    let t2 = dec_chars(s2);
    if d1.len() < d2.len() {
        let j = 5 + d1.len() as int;
        assert(debug_chars(e1, s1)[j] == '>');
        assert(debug_chars(e2, s2)[j] == d2[j - 5]);
        assert(false);
    }
    if d2.len() < d1.len() {
        let j = 5 + d2.len() as int;
        assert(debug_chars(e2, s2)[j] == '>');
        assert(debug_chars(e1, s1)[j] == d1[j - 5]);
        assert(false);
    }
    assert(d1 =~= d2) by {
        assert forall|i: int| 0 <= i < d1.len() implies d1[i] == d2[i] by {
            assert(debug_chars(e1, s1)[i + 5] == d1[i]);
            assert(debug_chars(e2, s2)[i + 5] == d2[i]);
        }
    }
    lemma_dec_chars_injective(e1, e2);
    assert(t1.len() == t2.len());
    assert(t1 =~= t2) by {
        assert forall|i: int| 0 <= i < t1.len() implies t1[i] == t2[i] by {
            assert(debug_chars(e1, s1)[7 + d1.len() + i] == t1[i]);
            assert(debug_chars(e2, s2)[7 + d2.len() + i] == t2[i]);
        }
    }
    lemma_dec_chars_injective(s1, s2);
}

/// Appends the character for the single digit `d`.
fn push_digit(s: &mut String, d: u32, upper: bool)
    requires
        d < 16,
    ensures
        final(s)@ == old(s)@ + seq![digit_char(d as nat, upper)],
{
    proof {
        reveal_strlit("0");
        reveal_strlit("1");
        reveal_strlit("2");
        reveal_strlit("3");
        reveal_strlit("4");
        reveal_strlit("5");
        reveal_strlit("6");
        reveal_strlit("7");
        reveal_strlit("8");
        reveal_strlit("9");
        reveal_strlit("A");
        reveal_strlit("B");
        reveal_strlit("C");
        reveal_strlit("D");
        reveal_strlit("E");
        reveal_strlit("F");
        reveal_strlit("a");
        reveal_strlit("b");
        reveal_strlit("c");
        reveal_strlit("d");
        reveal_strlit("e");
        reveal_strlit("f");
    }
    let c: &'static str = if d == 0 {
        "0"
    } else if d == 1 {
        "1"
    } else if d == 2 {
        "2"
    } else if d == 3 {
        "3"
    } else if d == 4 {
        "4"
    } else if d == 5 {
        "5"
    } else if d == 6 {
        "6"
    } else if d == 7 {
        "7"
    } else if d == 8 {
        "8"
    } else if d == 9 {
        "9"
    } else if d == 10 {
        if upper {
            "A"
        } else {
            "a"
        }
    } else if d == 11 {
        if upper {
            "B"
        } else {
            "b"
        }
    } else if d == 12 {
        if upper {
            "C"
        } else {
            "c"
        }
    } else if d == 13 {
        if upper {
            "D"
        } else {
            "d"
        }
    } else if d == 14 {
        if upper {
            "E"
        } else {
            "e"
        }
    } else {
        if upper {
            "F"
        } else {
            "f"
        }
    };
    s.append(c);
    proof {
        assert(s@ =~= old(s)@ + seq![digit_char(d as nat, upper)]);
    }
}

/// Appends the digits of `n` in the given base, most significant first.
fn push_radix(s: &mut String, n: u32, base: u32, upper: bool)
    requires
        2 <= base <= 16,
    ensures
        final(s)@ == old(s)@ + radix_digits(n as nat, base as nat, upper),
    decreases n,
{
    if n < base {
        push_digit(s, n, upper);
    } else {
        proof {
            lemma_div_is_strictly_smaller(n as int, base as int);
            lemma_mod_bound(n as int, base as int);
        }
        push_radix(s, n / base, base, upper);
        push_digit(s, n % base, upper);
        proof {
            assert(s@ =~= old(s)@ + radix_digits(n as nat, base as nat, upper));
        }
    }
}

/// Appends the decimal rendering of a signed 32-bit integer.
fn push_decimal(s: &mut String, v: i32)
    ensures
        final(s)@ == old(s)@ + dec_chars(v as int),
{
    if v < 0 {
        proof {
            reveal_strlit("-");
        }
        s.append("-");
        let mag: u32 = (-(v as i64)) as u32;
        push_radix(s, mag, 10, false);
        proof {
            assert(s@ =~= old(s)@ + dec_chars(v as int));
        }
    } else {
        push_radix(s, v as u32, 10, false);
    }
}

impl<const E: u32> I32F<E> {
    /// The diagnostic text form `I32F<e>(s)`: the exponent and the stored
    /// significand, both in decimal, so that every distinct pair reads
    /// distinctly.
    #[must_use]
    pub fn debug_string(self) -> (r: String)
        ensures
            r@ == debug_chars(Self::spec_exponent(), self.spec_significand() as int),
    {
        proof {
            reveal_strlit("I32F<");
            reveal_strlit(">(");
            reveal_strlit(")");
        }
        let mut s = String::new();
        s.append("I32F<");
        push_decimal(&mut s, self.exponent());
        s.append(">(");
        push_decimal(&mut s, self.significand());
        s.append(")");
        proof {
            assert(s@ =~= debug_chars(Self::spec_exponent(), self.spec_significand() as int));
        }
        s
    }

    /// The bit pattern rendered in binary, as the underlying `u32` would be.
    #[must_use]
    pub fn binary_string(self) -> (r: String)
        ensures
            r@ == radix_digits(self.spec_bits() as nat, 2, false),
    {
        let mut s = String::new();
        push_radix(&mut s, self.to_bits(), 2, false);
        s
    }

    /// The bit pattern rendered in octal, as the underlying `u32` would be.
    #[must_use]
    pub fn octal_string(self) -> (r: String)
        ensures
            r@ == radix_digits(self.spec_bits() as nat, 8, false),
    {
        let mut s = String::new();
        push_radix(&mut s, self.to_bits(), 8, false);
        s
    }

    /// The bit pattern rendered in lower-case hexadecimal, as the underlying
    /// `u32` would be.
    #[must_use]
    pub fn lower_hex_string(self) -> (r: String)
        ensures
            r@ == radix_digits(self.spec_bits() as nat, 16, false),
    {
        let mut s = String::new();
        push_radix(&mut s, self.to_bits(), 16, false);
        s
    }

    /// The bit pattern rendered in upper-case hexadecimal, as the underlying
    /// `u32` would be.
    #[must_use]
    pub fn upper_hex_string(self) -> (r: String)
        ensures
            r@ == radix_digits(self.spec_bits() as nat, 16, true),
    {
        let mut s = String::new();
        push_radix(&mut s, self.to_bits(), 16, true);
        s
    }
}

} // verus!
