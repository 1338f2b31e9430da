//! Small string building blocks shared by the renderer and the resolvers.
use vstd::prelude::*;

verus! {

/// Appends one character to a `String` (`String::push`).
/// Trusted: `String::push` appends its argument at the end, as its documentation says.
#[verifier::external_body]
pub(crate) fn push_char(s: &mut String, c: char)
    ensures
        final(s)@ == old(s)@.push(c),
{
    s.push(c);
}

/// Appends a string slice to a `String` (`String::push_str`).
/// Trusted: `String::push_str` appends the characters of its argument at the end.
#[verifier::external_body]
pub(crate) fn push_str(s: &mut String, t: &str)
    ensures
        final(s)@ == old(s)@ + t@,
{
    s.push_str(t);
}

/// Compares two string slices (`<str as PartialEq>::eq`).
/// Trusted: two `str` values are equal exactly when they hold the same characters.
#[verifier::external_body]
pub(crate) fn str_equal(a: &str, b: &str) -> (r: bool)
    ensures
        r == (a@ == b@),
{
    a == b
}

/// Decimal digits of a natural number, most significant first, without sign.
pub open spec fn decimal_digits(n: nat) -> Seq<char>
    decreases n,
{
    if n < 10 {
        seq![digit_char(n)]
    } else {
        decimal_digits(n / 10).push(digit_char(n % 10))
    }
}

/// The ASCII digit for a value below ten.
pub open spec fn digit_char(d: nat) -> char {
    if d == 0 {
        '0'
    } else if d == 1 {
        '1'
    } else if d == 2 {
        '2'
    } else if d == 3 {
        '3'
    } else if d == 4 {
        '4'
    } else if d == 5 {
        '5'
    } else if d == 6 {
        '6'
    } else if d == 7 {
        '7'
    } else if d == 8 {
        '8'
    } else {
        '9'
    }
}

/// Decimal text of an integer as Rust's `Display` writes it: a leading `-` for negatives.
pub open spec fn decimal_text(v: int) -> Seq<char> {
    if v < 0 {
        seq!['-'] + decimal_digits((-v) as nat)
    } else {
        decimal_digits(v as nat)
    }
}

/// Every character of a decimal numeral is a digit.
pub(crate) proof fn lemma_decimal_digits_are_digits(n: nat)
    ensures
        decimal_digits(n).len() >= 1,
        n >= 10 ==> decimal_digits(n).len() >= 2,
        forall|i: int|
            0 <= i < decimal_digits(n).len() ==> '0' <= #[trigger] decimal_digits(n)[i] <= '9',
    decreases n,
{
    if n >= 10 {
        lemma_decimal_digits_are_digits(n / 10);
        lemma_decimal_digits_are_digits(n / 10);
    }
}

proof fn lemma_digit_char_injective(x: nat, y: nat)
    requires
        x < 10,
        y < 10,
        digit_char(x) == digit_char(y),
    ensures
        x == y,
{
}

/// Different numbers have different decimal numerals.
pub(crate) proof fn lemma_decimal_digits_injective(a: nat, b: nat)
    requires
        decimal_digits(a) == decimal_digits(b),
    ensures
        a == b,
    decreases a,
{
    lemma_decimal_digits_are_digits(a);
    lemma_decimal_digits_are_digits(b);
    if a >= 10 && b >= 10 {
        assert(decimal_digits(a).last() == digit_char(a % 10));
        assert(decimal_digits(b).last() == digit_char(b % 10));
        lemma_digit_char_injective(a % 10, b % 10);
        assert(decimal_digits(a).drop_last() =~= decimal_digits(a / 10));
        assert(decimal_digits(b).drop_last() =~= decimal_digits(b / 10));
        lemma_decimal_digits_injective(a / 10, b / 10);
    } else if a < 10 && b < 10 {
        assert(decimal_digits(a)[0] == digit_char(a));
        assert(decimal_digits(b)[0] == digit_char(b));
        lemma_digit_char_injective(a, b);
    }
}

fn digit_to_char(d: u64) -> (c: char)
    requires
        d < 10,
    ensures
        c == digit_char(d as nat),
{
    if d == 0 {
        '0'
    } else if d == 1 {
        '1'
    } else if d == 2 {
        '2'
    } else if d == 3 {
        '3'
    } else if d == 4 {
        '4'
    } else if d == 5 {
        '5'
    } else if d == 6 {
        '6'
    } else if d == 7 {
        '7'
    } else if d == 8 {
        '8'
    } else {
        '9'
    }
}

/// Appends the decimal digits of `n` to `out`.
pub fn push_decimal_u64(out: &mut String, n: u64)
    ensures
        final(out)@ == old(out)@ + decimal_digits(n as nat),
    decreases n,
{
    if n < 10 {
        push_char(out, digit_to_char(n));
    } else {
        push_decimal_u64(out, n / 10);
        push_char(out, digit_to_char(n % 10));
        assert(old(out)@ + decimal_digits(n as nat) =~= old(out)@ + decimal_digits((n / 10) as nat)
            + seq![digit_char((n % 10) as nat)]);
    }
}

/// Appends the decimal text of a signed 64-bit value to `out`.
pub fn push_decimal_i64(out: &mut String, v: i64)
    ensures
        final(out)@ == old(out)@ + decimal_text(v as int),
{
    if v < 0 {
        push_char(out, '-');
        let mag: u64 = if v == i64::MIN {
            9223372036854775808u64
        } else {
            (-v) as u64
        };
        push_decimal_u64(out, mag);
        assert(old(out)@ + decimal_text(v as int) =~= old(out)@.push('-') + decimal_digits(
            mag as nat,
        ));
    } else {
        push_decimal_u64(out, v as u64);
    }
}

/// `n / d` rounded to the nearest integer, ties to the even neighbour.
pub open spec fn round_half_even(n: nat, d: nat) -> nat
    recommends
        d > 0,
{
    let q = n / d;
    let r = n % d;
    if 2 * r < d {
        q
    } else if 2 * r > d {
        q + 1
    } else if q % 2 == 0 {
        q
    } else {
        q + 1
    }
}

pub(crate) fn round_half_even_exec(n: u64, d: u64) -> (r: u64)
    requires
        d > 0,
        n <= 0xFFFF_FFFF,
    ensures
        r == round_half_even(n as nat, d as nat),
{
    let q = n / d;
    let r = n % d;
    if r < d - r {
        q
    } else if r > d - r {
        q + 1
    } else if q % 2 == 0 {
        q
    } else {
        q + 1
    }
}


/// Ten to the power `k`.
pub open spec fn pow10(k: nat) -> nat
    decreases k,
{
    if k == 0 {
        1
    } else {
        10 * pow10((k - 1) as nat)
    }
}

/// The `k` lowest decimal digits of `f`, most significant first, zero-padded.
pub open spec fn low_digits(f: nat, k: nat) -> Seq<char>
    decreases k,
{
    if k == 0 {
        Seq::empty()
    } else {
        low_digits(f / 10, (k - 1) as nat).push(digit_char(f % 10))
    }
}

/// The value `num / den` written with `k` decimals, as Rust's `{:.k}` writes a number: a
/// `-` for a negative value, the integer part and, for `k > 0`, a point and `k` digits; the
/// last digit is rounded half to even.
#[verifier::opaque]
pub open spec fn fmt_fixed(num: int, den: nat, k: nat) -> Seq<char> {
    let mag: nat = if num < 0 {
        (-num) as nat
    } else {
        num as nat
    };
    let units = round_half_even(mag * pow10(k), den);
    (if num < 0 {
        seq!['-']
    } else {
        Seq::empty()
    }) + decimal_digits(units / pow10(k)) + (if k == 0 {
        Seq::empty()
    } else {
        seq!['.'] + low_digits(units % pow10(k), k)
    })
}

fn round_half_even_u128(n: u128, d: u128) -> (r: u128)
    requires
        d > 0,
        n < 0x1_0000_0000_0000_0000_0000_0000_0000,
    ensures
        r == round_half_even(n as nat, d as nat),
        r <= n + 1,
{
    let q = n / d;
    let r = n % d;
    assert(q <= n) by (nonlinear_arith)
        requires
            q == n / d,
            d > 0,
    ;
    if r < d - r {
        q
    } else if r > d - r {
        q + 1
    } else if q % 2 == 0 {
        q
    } else {
        q + 1
    }
}

/// Appends the decimal digits of `n` to `out`.
pub fn push_decimal_u128(out: &mut String, n: u128)
    ensures
        final(out)@ == old(out)@ + decimal_digits(n as nat),
    decreases n,
{
    if n < 10 {
        push_char(out, digit_to_char(n as u64));
    } else {
        push_decimal_u128(out, n / 10);
        push_char(out, digit_to_char((n % 10) as u64));
        assert(old(out)@ + decimal_digits(n as nat) =~= old(out)@ + decimal_digits((n / 10) as nat)
            + seq![digit_char((n % 10) as nat)]);
    }
}

fn push_low_digits(out: &mut String, f: u128, k: u32)
    requires
        k <= 4,
    ensures
        final(out)@ == old(out)@ + low_digits(f as nat, k as nat),
    decreases k,
{
    if k > 0 {
        push_low_digits(out, f / 10, k - 1);
        push_char(out, digit_to_char((f % 10) as u64));
        assert(old(out)@ + low_digits(f as nat, k as nat) =~= old(out)@ + low_digits(
            (f / 10) as nat,
            (k - 1) as nat,
        ) + seq![digit_char((f % 10) as nat)]);
    } else {
        assert(old(out)@ + low_digits(f as nat, 0) =~= old(out)@);
    }
}

/// Appends `num / den` written with `k` decimals (at most four), as `{:.k}` writes it.
pub fn push_fixed(out: &mut String, num: i128, den: u128, k: u32)
    requires
        den > 0,
        k <= 4,
        -0x1_0000_0000_0000_0000_0000_0000 <= num <= 0x1_0000_0000_0000_0000_0000_0000,
    ensures
        final(out)@ == old(out)@ + fmt_fixed(num as int, den as nat, k as nat),
{
    reveal(fmt_fixed);
    let mag: u128 = if num < 0 {
        (0 - num) as u128
    } else {
        num as u128
    };
    let p: u128 = if k == 0 {
        1
    } else if k == 1 {
        10
    } else if k == 2 {
        100
    } else if k == 3 {
        1000
    } else {
        10000
    };
    proof {
        reveal_with_fuel(pow10, 5);
        assert(p == pow10(k as nat));
    }
    assert(mag * p <= 0x1_0000_0000_0000_0000_0000_0000 * 10000) by (nonlinear_arith)
        requires
            mag <= 0x1_0000_0000_0000_0000_0000_0000,
            p <= 10000,
    ;
    let units = round_half_even_u128(mag * p, den);
    if num < 0 {
        push_char(out, '-');
    }
    push_decimal_u128(out, units / p);
    if k > 0 {
        push_char(out, '.');
        push_low_digits(out, units % p, k);
    }
    assert(out@ =~= old(out)@ + fmt_fixed(num as int, den as nat, k as nat));
}

} // verus!
