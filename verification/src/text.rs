//! Text building blocks: decimal and hexadecimal rendering of integers and
//! character-level string construction, each stated over `Seq<char>`.

use vstd::prelude::*;
use vstd::arithmetic::div_mod::lemma_breakdown;
use vstd::arithmetic::power::{lemma_pow_positive, pow};

verus! {

/// The ASCII character of a decimal digit.
pub open spec fn digit_char(d: nat) -> char
    recommends
        d < 10,
{
    ((48 + d) as u8) as char
}

/// Decimal rendering of a natural number, as Rust's `Display` writes it.
pub open spec fn decimal_seq(n: nat) -> Seq<char>
    decreases n,
{
    if n < 10 {
        seq![digit_char(n)]
    } else {
        decimal_seq(n / 10).push(digit_char(n % 10))
    }
}

/// Decimal rendering of a signed integer, as Rust's `Display` writes it.
pub open spec fn signed_decimal_seq(i: int) -> Seq<char> {
    if i < 0 {
        seq!['-'] + decimal_seq((-i) as nat)
    } else {
        decimal_seq(i as nat)
    }
}

/// The lowercase ASCII character of a hexadecimal digit.
pub open spec fn hex_char(d: nat) -> char
    recommends
        d < 16,
{
    if d < 10 {
        ((48 + d) as u8) as char
    } else {
        ((87 + d) as u8) as char
    }
}

/// The last `width` lowercase hexadecimal digits of `n`, most significant
/// first (zero-padded), as `{:0width$x}` writes a number that fits.
pub open spec fn hex_fixed_seq(n: nat, width: nat) -> Seq<char>
    decreases width,
{
    if width == 0 {
        Seq::empty()
    } else {
        hex_fixed_seq(n / 16, (width - 1) as nat).push(hex_char(n % 16))
    }
}

/// Appends one character to a string (`String::push`).
#[verifier::external_body]
pub(crate) fn push_char(s: &mut String, c: char)
    ensures
        final(s)@ == old(s)@.push(c),
{
    s.push(c);
}

/// Appends the decimal rendering of `n` to `out`.
pub fn push_decimal(out: &mut String, n: u64)
    ensures
        final(out)@ == old(out)@ + decimal_seq(n as nat),
    decreases n,
{
    if n >= 10 {
        push_decimal(out, n / 10);
    }
    let d: u64 = n % 10;
    let c: char = ((48 + d) as u8) as char;
    push_char(out, c);
    proof {
        assert(decimal_seq(n as nat) == if n < 10 {
            seq![digit_char(n as nat)]
        } else {
            decimal_seq((n / 10) as nat).push(digit_char((n % 10) as nat))
        });
    }
}

/// Appends the decimal rendering of a signed `n` to `out`.
pub fn push_signed_decimal(out: &mut String, n: i64)
    ensures
        final(out)@ == old(out)@ + signed_decimal_seq(n as int),
{
    if n < 0 {
        push_char(out, '-');
        let magnitude: u64 = (0i128 - (n as i128)) as u64;
        push_decimal(out, magnitude);
        proof {
            assert(final(out)@ =~= old(out)@ + (seq!['-'] + decimal_seq((-n) as nat)));
        }
    } else {
        push_decimal(out, n as u64);
    }
}

/// Appends the last `width` hexadecimal digits of `n` (zero-padded) to `out`.
pub fn push_hex_fixed(out: &mut String, n: u64, width: u32)
    ensures
        final(out)@ == old(out)@ + hex_fixed_seq(n as nat, width as nat),
    decreases width,
{
    if width > 0 {
        push_hex_fixed(out, n / 16, width - 1);
        let d: u64 = n % 16;
        let c: char = if d < 10 {
            ((48 + d) as u8) as char
        } else {
            ((87 + d) as u8) as char
        };
        push_char(out, c);
        proof {
            assert(hex_fixed_seq(n as nat, width as nat) == hex_fixed_seq(
                (n / 16) as nat,
                (width - 1) as nat,
            ).push(hex_char((n % 16) as nat)));
        }
    }
}

/// Renders `n` in decimal.
pub fn u64_to_decimal(n: u64) -> (s: String)
    ensures
        s@ == decimal_seq(n as nat),
{
    let mut s = String::new();
    push_decimal(&mut s, n);
    proof {
        assert(s@ =~= decimal_seq(n as nat));
    }
    s
}

/// Appends a string slice to `out`.
pub fn push_str(out: &mut String, piece: &str)
    ensures
        final(out)@ == old(out)@ + piece@,
{
    out.append(piece);
}

/// The number that a string of decimal digits spells, most significant
/// digit first.
pub open spec fn digits_value(s: Seq<char>) -> int
    decreases s.len(),
{
    if s.len() == 0 {
        0
    } else {
        digits_value(s.drop_last()) * 10 + (s.last() as int - '0' as int)
    }
}

/// Every character of `s` is one of `0`..`9`.
pub open spec fn all_decimal_digits(s: Seq<char>) -> bool {
    forall|i: int| 0 <= i < s.len() ==> '0' <= #[trigger] s[i] && s[i] <= '9'
}

/// `decimal_seq(n)` is the canonical decimal numeral of `n`: a non-empty run
/// of digits that spells `n`, with no leading zero unless `n` is zero.
pub proof fn lemma_decimal_is_numeral(n: nat)
    ensures
        decimal_seq(n).len() >= 1,
        all_decimal_digits(decimal_seq(n)),
        digits_value(decimal_seq(n)) == n,
        n > 0 ==> decimal_seq(n)[0] != '0',
        n == 0 ==> decimal_seq(n) == seq!['0'],
    decreases n,
{
    if n < 10 {
        assert(decimal_seq(n) == seq![digit_char(n)]);
        assert(seq![digit_char(n)].drop_last() =~= Seq::<char>::empty());
        assert(digit_char(n) as int == 48 + n);
        assert(digits_value(Seq::<char>::empty()) == 0);
        assert(digits_value(seq![digit_char(n)]) == digits_value(Seq::<char>::empty()) * 10 + (digit_char(n) as int
            - '0' as int));
    } else {
        lemma_decimal_is_numeral(n / 10);
        let prefix = decimal_seq(n / 10);
        let d = digit_char(n % 10);
        assert(d as int == 48 + n % 10);
        assert(decimal_seq(n) == prefix.push(d));
        assert(prefix.push(d).drop_last() =~= prefix);
        assert(n == (n / 10) * 10 + n % 10);
        assert(digits_value(prefix.push(d)) == digits_value(prefix) * 10 + (d as int - '0' as int));
        assert forall|i: int| 0 <= i < prefix.push(d).len() implies '0' <= #[trigger] prefix.push(d)[i]
            && prefix.push(d)[i] <= '9' by {
            if i < prefix.len() {
                assert(prefix.push(d)[i] == prefix[i]);
            }
        }
        assert(n / 10 > 0);
        assert(prefix.push(d)[0] == prefix[0]);
    }
}

/// The number that a string of lowercase hexadecimal digits spells, most
/// significant digit first.
pub open spec fn hex_digits_value(s: Seq<char>) -> int
    decreases s.len(),
{
    if s.len() == 0 {
        0
    } else {
        hex_digits_value(s.drop_last()) * 16 + (if s.last() <= '9' {
            s.last() as int - '0' as int
        } else {
            s.last() as int - 'a' as int + 10
        })
    }
}

/// Every character of `s` is one of `0`..`9`, `a`..`f`.
pub open spec fn all_hex_digits(s: Seq<char>) -> bool {
    forall|i: int| 0 <= i < s.len() ==> ('0' <= #[trigger] s[i] && s[i] <= '9') || ('a' <= s[i] && s[i] <= 'f')
}

/// `hex_fixed_seq(n, width)` is `width` lowercase hexadecimal digits that
/// spell what `n` leaves below `16^width`.
pub proof fn lemma_hex_fixed_is_numeral(n: nat, width: nat)
    ensures
        hex_fixed_seq(n, width).len() == width,
        all_hex_digits(hex_fixed_seq(n, width)),
        hex_digits_value(hex_fixed_seq(n, width)) == n % pow(16, width) as nat,
    decreases width,
{
    reveal(pow);
    if width == 0 {
        assert(hex_fixed_seq(n, width) =~= Seq::<char>::empty());
        assert(pow(16, 0) == 1);
    } else {
        lemma_hex_fixed_is_numeral(n / 16, (width - 1) as nat);
        let prefix = hex_fixed_seq(n / 16, (width - 1) as nat);
        let d = hex_char(n % 16);
        assert(hex_fixed_seq(n, width) == prefix.push(d));
        assert(prefix.push(d).drop_last() =~= prefix);
        if n % 16 < 10 {
            assert(d as int == 48 + n % 16);
        } else {
            assert(d as int == 87 + n % 16);
        }
        assert(hex_digits_value(prefix.push(d)) == hex_digits_value(prefix) * 16 + n % 16);
        assert forall|i: int| 0 <= i < prefix.push(d).len() implies ('0' <= #[trigger] prefix.push(d)[i]
            && prefix.push(d)[i] <= '9') || ('a' <= prefix.push(d)[i] && prefix.push(d)[i] <= 'f') by {
            if i < prefix.len() {
                assert(prefix.push(d)[i] == prefix[i]);
            }
        }
        let p = pow(16, (width - 1) as nat);
        lemma_pow_positive(16, (width - 1) as nat);
        assert(pow(16, width) == 16 * p);
        lemma_breakdown(n as int, 16, p);
        let q = (n / 16) as int % p;
        assert(hex_digits_value(prefix) == q);
        assert(q * 16 == 16 * q) by (nonlinear_arith);
    }
}

} // verus!
