//! Labels of auto-numbered bullets: arabic, alphabetic and Roman numbering.
use vstd::prelude::*;
use vstd::seq_lib::lemma_concat_associative;

use crate::strings::{decimal_text, push_char, push_decimal_i64, str_equal};

verus! {

/// The ASCII letter with index `k` (0 = `a`) in lower or upper case.
pub open spec fn letter(k: int, upper: bool) -> char {
    if upper {
        ((65 + k) as u32) as char
    } else {
        ((97 + k) as u32) as char
    }
}

/// Bijective base-26 letters of `n`: 1 = a, 26 = z, 27 = aa, ... (empty for 0).
pub open spec fn alpha_letters(n: nat, upper: bool) -> Seq<char>
    decreases n,
{
    if n == 0 {
        Seq::empty()
    } else {
        alpha_letters(((n - 1) / 26) as nat, upper).push(letter((n - 1) % 26, upper))
    }
}

/// Lower-case alphabetic label of a value; values below 1 give `a`.
pub open spec fn spec_alpha_lc(v: int) -> Seq<char> {
    if v <= 0 {
        seq!['a']
    } else {
        alpha_letters(v as nat, false)
    }
}

/// Upper-case alphabetic label of a value; values below 1 give `A`.
pub open spec fn spec_alpha_uc(v: int) -> Seq<char> {
    if v <= 0 {
        seq!['A']
    } else {
        alpha_letters(v as nat, true)
    }
}

/// ASCII upper case of a character.
pub open spec fn ascii_upper(c: char) -> char {
    if 97 <= c as u32 && c as u32 <= 122 {
        (((c as u32) - 32) as u32) as char
    } else {
        c
    }
}

/// ASCII lower case of a character.
pub open spec fn ascii_lower(c: char) -> char {
    if 65 <= c as u32 && c as u32 <= 90 {
        (((c as u32) + 32) as u32) as char
    } else {
        c
    }
}

fn letter_char(k: u32, upper: bool) -> (c: char)
    requires
        k < 26,
    ensures
        c == letter(k as int, upper),
{
    let base: u8 = if upper {
        65
    } else {
        97
    };
    let b: u8 = base + (k as u8);
    let c = b as char;
    assert(c as u32 == b as u32);
    c
}

/// Appends the alphabetic letters of `n` (n >= 1).
fn push_alpha(out: &mut String, n: u32, upper: bool)
    ensures
        final(out)@ == old(out)@ + alpha_letters(n as nat, upper),
    decreases n,
{
    if n == 0 {
        assert(old(out)@ + Seq::<char>::empty() =~= old(out)@);
        return ;
    }
    let m = n - 1;
    push_alpha(out, m / 26, upper);
    push_char(out, letter_char(m % 26, upper));
    assert(old(out)@ + alpha_letters(n as nat, upper) =~= old(out)@ + alpha_letters(
        (m / 26) as nat,
        upper,
    ) + seq![letter((m % 26) as int, upper)]);
}

/// Lower-case alphabetic numbering (1 = a, 2 = b, ..., 26 = z, 27 = aa, ...).
pub fn to_alpha_lc(val: i32) -> (r: String)
    ensures
        r@ == spec_alpha_lc(val as int),
{
    let mut result = String::new();
    if val <= 0 {
        push_char(&mut result, 'a');
        return result;
    }
    push_alpha(&mut result, val as u32, false);
    result
}

/// Upper-case alphabetic numbering (1 = A, ...): the upper case of `to_alpha_lc`.
pub fn to_alpha_uc(val: i32) -> (r: String)
    ensures
        r@ == spec_alpha_uc(val as int),
        r@ == spec_alpha_lc(val as int).map_values(|c: char| ascii_upper(c)),
{
    let lc = to_alpha_lc(val);
    let r = ascii_uppercase(lc.as_str());
    proof {
        lemma_alpha_upper(val as int);
    }
    r
}

/// `ascii_upper` applied to every character.
fn ascii_uppercase(s: &str) -> (r: String)
    ensures
        r@ == s@.map_values(|c: char| ascii_upper(c)),
{
    let mut out = String::new();
    for ch in it: s.chars()
        invariant
            it.seq() == s@,
            out@ == s@.take(it.index() as int).map_values(|c: char| ascii_upper(c)),
    {
        let code: u32 = ch as u32;
        let u = if 97 <= code && code <= 122 {
            let d: u32 = code - 32;
            let b: u8 = d as u8;
            assert(d as u8 as u32 == d) by (bit_vector)
                requires
                    65 <= d <= 90,
            ;
            let c = b as char;
            assert(c as u32 == b as u32);
            assert((d as char) as u32 == d);
            assert(c == d as char);
            c
        } else {
            ch
        };
        assert(u == ascii_upper(ch));
        push_char(&mut out, u);
        proof {
            assert(s@.take(it.index() + 1).map_values(|c: char| ascii_upper(c)) =~= s@.take(
                it.index() as int,
            ).map_values(|c: char| ascii_upper(c)).push(ascii_upper(ch)));
        }
    }
    proof {
        assert(s@.take(s@.len() as int) == s@);
    }
    out
}

/// `ascii_lower` applied to every character.
fn ascii_lowercase(s: &str) -> (r: String)
    ensures
        r@ == s@.map_values(|c: char| ascii_lower(c)),
{
    let mut out = String::new();
    for ch in it: s.chars()
        invariant
            it.seq() == s@,
            out@ == s@.take(it.index() as int).map_values(|c: char| ascii_lower(c)),
    {
        let code: u32 = ch as u32;
        let u = if 65 <= code && code <= 90 {
            let d: u32 = code + 32;
            let b: u8 = d as u8;
            assert(d as u8 as u32 == d) by (bit_vector)
                requires
                    97 <= d <= 122,
            ;
            let c = b as char;
            assert(c as u32 == b as u32);
            assert((d as char) as u32 == d);
            assert(c == d as char);
            c
        } else {
            ch
        };
        assert(u == ascii_lower(ch));
        push_char(&mut out, u);
        proof {
            assert(s@.take(it.index() + 1).map_values(|c: char| ascii_lower(c)) =~= s@.take(
                it.index() as int,
            ).map_values(|c: char| ascii_lower(c)).push(ascii_lower(ch)));
        }
    }
    proof {
        assert(s@.take(s@.len() as int) == s@);
    }
    out
}

proof fn lemma_alpha_letters_upper(n: nat)
    ensures
        alpha_letters(n, false).map_values(|c: char| ascii_upper(c)) == alpha_letters(n, true),
    decreases n,
{
    if n > 0 {
        let q = ((n - 1) / 26) as nat;
        let k = (n - 1) % 26;
        lemma_alpha_letters_upper(q);
        assert(ascii_upper(letter(k, false)) == letter(k, true));
        assert(alpha_letters(n, false).map_values(|c: char| ascii_upper(c)) =~= alpha_letters(
            q,
            false,
        ).map_values(|c: char| ascii_upper(c)).push(ascii_upper(letter(k, false))));
    } else {
        assert(alpha_letters(n, false).map_values(|c: char| ascii_upper(c)) =~= alpha_letters(
            n,
            true,
        ));
    }
}

proof fn lemma_alpha_upper(v: int)
    ensures
        spec_alpha_lc(v).map_values(|c: char| ascii_upper(c)) == spec_alpha_uc(v),
{
    if v <= 0 {
        assert(seq!['a'].map_values(|c: char| ascii_upper(c)) =~= seq!['A']);
    } else {
        lemma_alpha_letters_upper(v as nat);
    }
}

/// The value of a bijective base-26 numeral in lower case (a = 1, ..., z = 26, aa = 27).
pub open spec fn alpha_value(s: Seq<char>) -> int
    decreases s.len(),
{
    if s.len() == 0 {
        0
    } else {
        alpha_value(s.drop_last()) * 26 + (s.last() as u32 - 96)
    }
}

/// Alphabetic numbering is exact: reading the letters of `to_alpha_lc(n)` back as a
/// bijective base-26 numeral gives `n`, for every positive `n`.
pub proof fn alpha_numbering_round_trips(n: int)
    requires
        n >= 1,
    ensures
        alpha_value(spec_alpha_lc(n)) == n,
    decreases n,
{
    lemma_alpha_value(n as nat);
}

proof fn lemma_alpha_value(n: nat)
    ensures
        alpha_value(alpha_letters(n, false)) == n,
    decreases n,
{
    if n > 0 {
        let q = ((n - 1) / 26) as nat;
        lemma_alpha_value(q);
        let s = alpha_letters(n, false);
        assert(s.drop_last() == alpha_letters(q, false));
        assert(s.last() == letter((n - 1) % 26, false));
        assert(letter((n - 1) % 26, false) as u32 == 97 + (n - 1) % 26);
    }
}

// ---------------------------------------------------------------------------
// Roman numerals
// ---------------------------------------------------------------------------

/// Upper-case Roman numeral of `n` by the greedy rule (M, CM, D, CD, C, XC, L, XL, X, IX,
/// V, IV, I); empty for 0.
pub open spec fn roman(n: nat) -> Seq<char>
    decreases n,
{
    if n >= 1000 {
        seq!['M'] + roman((n - 1000) as nat)
    } else if n >= 900 {
        seq!['C', 'M'] + roman((n - 900) as nat)
    } else if n >= 500 {
        seq!['D'] + roman((n - 500) as nat)
    } else if n >= 400 {
        seq!['C', 'D'] + roman((n - 400) as nat)
    } else if n >= 100 {
        seq!['C'] + roman((n - 100) as nat)
    } else if n >= 90 {
        seq!['X', 'C'] + roman((n - 90) as nat)
    } else if n >= 50 {
        seq!['L'] + roman((n - 50) as nat)
    } else if n >= 40 {
        seq!['X', 'L'] + roman((n - 40) as nat)
    } else if n >= 10 {
        seq!['X'] + roman((n - 10) as nat)
    } else if n >= 9 {
        seq!['I', 'X'] + roman((n - 9) as nat)
    } else if n >= 5 {
        seq!['V'] + roman((n - 5) as nat)
    } else if n >= 4 {
        seq!['I', 'V'] + roman((n - 4) as nat)
    } else if n >= 1 {
        seq!['I'] + roman((n - 1) as nat)
    } else {
        Seq::empty()
    }
}

/// Upper-case Roman numbering: 1..=3999 as Roman numerals, anything else in decimal.
pub open spec fn spec_roman_uc(v: int) -> Seq<char> {
    if v <= 0 || v > 3999 {
        decimal_text(v)
    } else {
        roman(v as nat)
    }
}

/// Lower-case Roman numbering: the lower case of `spec_roman_uc`.
pub open spec fn spec_roman_lc(v: int) -> Seq<char> {
    spec_roman_uc(v).map_values(|c: char| ascii_lower(c))
}

fn push_roman(out: &mut String, n: u32)
    ensures
        final(out)@ == old(out)@ + roman(n as nat),
    decreases n,
{
    let ghost start = out@;
    if n >= 1000 {
        push_char(out, 'M');
        push_roman(out, n - 1000);
    } else if n >= 900 {
        push_char(out, 'C');
        push_char(out, 'M');
        push_roman(out, n - 900);
    } else if n >= 500 {
        push_char(out, 'D');
        push_roman(out, n - 500);
    } else if n >= 400 {
        push_char(out, 'C');
        push_char(out, 'D');
        push_roman(out, n - 400);
    } else if n >= 100 {
        push_char(out, 'C');
        push_roman(out, n - 100);
    } else if n >= 90 {
        push_char(out, 'X');
        push_char(out, 'C');
        push_roman(out, n - 90);
    } else if n >= 50 {
        push_char(out, 'L');
        push_roman(out, n - 50);
    } else if n >= 40 {
        push_char(out, 'X');
        push_char(out, 'L');
        push_roman(out, n - 40);
    } else if n >= 10 {
        push_char(out, 'X');
        push_roman(out, n - 10);
    } else if n >= 9 {
        push_char(out, 'I');
        push_char(out, 'X');
        push_roman(out, n - 9);
    } else if n >= 5 {
        push_char(out, 'V');
        push_roman(out, n - 5);
    } else if n >= 4 {
        push_char(out, 'I');
        push_char(out, 'V');
        push_roman(out, n - 4);
    } else if n >= 1 {
        push_char(out, 'I');
        push_roman(out, n - 1);
    }
    assert(out@ =~= start + roman(n as nat));
}

/// Upper-case Roman numerals; values outside 1..=3999 are written in decimal.
pub fn to_roman_uc(val: i32) -> (r: String)
    ensures
        r@ == spec_roman_uc(val as int),
{
    let mut result = String::new();
    if val <= 0 || val > 3999 {
        push_decimal_i64(&mut result, val as i64);
        assert(result@ =~= decimal_text(val as int));
        return result;
    }
    push_roman(&mut result, val as u32);
    assert(result@ =~= roman(val as nat));
    result
}

/// Lower-case Roman numerals: the lower case of `to_roman_uc`.
pub fn to_roman_lc(val: i32) -> (r: String)
    ensures
        r@ == spec_roman_lc(val as int),
{
    let uc = to_roman_uc(val);
    ascii_lowercase(uc.as_str())
}

/// Roman numerals use only the letters I, V, X, L, C, D and M.
pub proof fn roman_uses_roman_letters(n: nat)
    ensures
        forall|i: int|
            0 <= i < roman(n).len() ==> {
                let c = #[trigger] roman(n)[i];
                c == 'I' || c == 'V' || c == 'X' || c == 'L' || c == 'C' || c == 'D' || c == 'M'
            },
    decreases n,
{
    if n >= 1 {
        let (head, rest): (Seq<char>, nat) = if n >= 1000 {
            (seq!['M'], (n - 1000) as nat)
        } else if n >= 900 {
            (seq!['C', 'M'], (n - 900) as nat)
        } else if n >= 500 {
            (seq!['D'], (n - 500) as nat)
        } else if n >= 400 {
            (seq!['C', 'D'], (n - 400) as nat)
        } else if n >= 100 {
            (seq!['C'], (n - 100) as nat)
        } else if n >= 90 {
            (seq!['X', 'C'], (n - 90) as nat)
        } else if n >= 50 {
            (seq!['L'], (n - 50) as nat)
        } else if n >= 40 {
            (seq!['X', 'L'], (n - 40) as nat)
        } else if n >= 10 {
            (seq!['X'], (n - 10) as nat)
        } else if n >= 9 {
            (seq!['I', 'X'], (n - 9) as nat)
        } else if n >= 5 {
            (seq!['V'], (n - 5) as nat)
        } else if n >= 4 {
            (seq!['I', 'V'], (n - 4) as nat)
        } else {
            (seq!['I'], (n - 1) as nat)
        };
        roman_uses_roman_letters(rest);
        assert(roman(n) == head + roman(rest));
        assert forall|i: int| 0 <= i < roman(n).len() implies {
            let c = #[trigger] roman(n)[i];
            c == 'I' || c == 'V' || c == 'X' || c == 'L' || c == 'C' || c == 'D' || c == 'M'
        } by {
            if i >= head.len() {
                assert(roman(n)[i] == roman(rest)[i - head.len()]);
            }
        }
    }
}

/// The value of a Roman letter: I 1, V 5, X 10, L 50, C 100, D 500, M 1000; other
/// characters count nothing.
pub open spec fn roman_letter_value(c: char) -> int {
    if c == 'I' {
        1
    } else if c == 'V' {
        5
    } else if c == 'X' {
        10
    } else if c == 'L' {
        50
    } else if c == 'C' {
        100
    } else if c == 'D' {
        500
    } else if c == 'M' {
        1000
    } else {
        0
    }
}

/// The value of a Roman numeral read the standard way: each letter adds its value, or
/// subtracts it when the letter after it is worth more.
pub open spec fn roman_value(s: Seq<char>) -> int
    decreases s.len(),
{
    if s.len() == 0 {
        0
    } else {
        (if s.len() >= 2 && roman_letter_value(s[0]) < roman_letter_value(s[1]) {
            -roman_letter_value(s[0])
        } else {
            roman_letter_value(s[0])
        }) + roman_value(s.drop_first())
    }
}

/// The canonical numeral of a decimal digit `d` (0..=9) in a place whose letters for one,
/// five and ten units are `one`, `five` and `ten`: up to three ones; one before five for
/// four; five then up to three ones; one before ten for nine.
pub open spec fn place_numeral(d: int, one: char, five: char, ten: char) -> Seq<char> {
    if d == 4 {
        seq![one, five]
    } else if d == 9 {
        seq![one, ten]
    } else if d >= 5 {
        seq![five] + Seq::new((d - 5) as nat, |i: int| one)
    } else {
        Seq::new(d as nat, |i: int| one)
    }
}

/// Roman numbering reads back: for every `v` in 1..=3999 the numeral reads, the standard
/// way, as `v`.
pub proof fn roman_numbering_reads_back(v: int)
    requires
        1 <= v <= 3999,
    ensures
        roman_value(spec_roman_uc(v)) == v,
{
    lemma_roman_value(v as nat);
}

/// Roman numbering is canonical: for every `v` in 1..=3999 the numeral is the thousands
/// as that many M, then the hundreds, tens and units digits each written as the canonical
/// numeral of a digit in its place's letters (C, D, M; X, L, C; I, V, X).
pub proof fn roman_numbering_is_canonical(v: int)
    requires
        1 <= v <= 3999,
    ensures
        spec_roman_uc(v) == Seq::new((v / 1000) as nat, |i: int| 'M') + place_numeral(
            (v / 100) % 10,
            'C',
            'D',
            'M',
        ) + place_numeral((v / 10) % 10, 'X', 'L', 'C') + place_numeral(v % 10, 'I', 'V', 'X'),
{
    let n = v as nat;
    lemma_roman_thousands(n);
    let r1 = (n % 1000) as nat;
    lemma_roman_hundreds(r1);
    let r2 = (r1 % 100) as nat;
    lemma_roman_tens(r2);
    lemma_roman_ones((r2 % 10) as nat);
    assert(r1 / 100 == (v / 100) % 10 && r2 == v % 100 && r2 / 10 == (v / 10) % 10 && r2 % 10 == v % 10)
        by (nonlinear_arith)
        requires
            1 <= v <= 3999,
            n == v,
            r1 == n % 1000,
            r2 == r1 % 100,
    ;
    lemma_concat_associative(
        Seq::new((v / 1000) as nat, |i: int| 'M'),
        place_numeral((v / 100) % 10, 'C', 'D', 'M'),
        roman(r2),
    );
    lemma_concat_associative(
        Seq::new((v / 1000) as nat, |i: int| 'M') + place_numeral((v / 100) % 10, 'C', 'D', 'M'),
        place_numeral((v / 10) % 10, 'X', 'L', 'C'),
        place_numeral(v % 10, 'I', 'V', 'X'),
    );
}

/// Lower-case Roman numbering writes the same numeral in small letters: for every `v`
/// in 1..=3999 each of its characters is the upper-case numeral's letter moved to the
/// ASCII lower case (I to i, V to v, X to x, L to l, C to c, D to d, M to m).
pub proof fn roman_lower_case_is_the_numeral_in_small_letters(v: int)
    requires
        1 <= v <= 3999,
    ensures
        spec_roman_lc(v).len() == spec_roman_uc(v).len(),
        forall|i: int|
            0 <= i < spec_roman_lc(v).len() ==> #[trigger] spec_roman_lc(v)[i] as u32 == spec_roman_uc(
                v,
            )[i] as u32 + 32,
{
    roman_uses_roman_letters(v as nat);
    assert forall|i: int| 0 <= i < spec_roman_lc(v).len() implies #[trigger] spec_roman_lc(v)[i] as u32
        == spec_roman_uc(v)[i] as u32 + 32 by {
        let c = roman(v as nat)[i];
        assert(c == 'I' || c == 'V' || c == 'X' || c == 'L' || c == 'C' || c == 'D' || c == 'M');
    }
}

proof fn lemma_roman_ones(n: nat)
    requires
        n < 10,
    ensures
        roman(n) == place_numeral(n as int, 'I', 'V', 'X'),
    decreases n,
{
    if n == 0 {
        assert(roman(0) =~= place_numeral(0, 'I', 'V', 'X'));
    } else if n == 9 {
        assert(roman(9) =~= seq!['I', 'X'] + roman(0));
    } else if n == 4 {
        assert(roman(4) =~= seq!['I', 'V'] + roman(0));
    } else if n >= 5 {
        lemma_roman_ones((n - 5) as nat);
        assert(roman(n) == seq!['V'] + roman((n - 5) as nat));
        assert(place_numeral((n - 5) as int, 'I', 'V', 'X') =~= Seq::new((n - 5) as nat, |i: int| 'I'));
    } else {
        lemma_roman_ones((n - 1) as nat);
        assert(roman(n) == seq!['I'] + roman((n - 1) as nat));
        assert(seq!['I'] + Seq::new((n - 1) as nat, |i: int| 'I') =~= Seq::new(n, |i: int| 'I'));
    }
}

proof fn lemma_roman_tens(n: nat)
    requires
        n < 100,
    ensures
        roman(n) == place_numeral((n / 10) as int, 'X', 'L', 'C') + roman(n % 10),
    decreases n,
{
    let t = (n / 10) as int;
    if n < 10 {
        assert(place_numeral(0, 'X', 'L', 'C') =~= Seq::<char>::empty());
        assert(roman(n) =~= Seq::<char>::empty() + roman(n % 10));
    } else if n >= 90 {
        assert(roman(n) == seq!['X', 'C'] + roman((n - 90) as nat));
    } else if n >= 50 {
        let m = (n - 50) as nat;
        lemma_roman_tens(m);
        assert(m / 10 == t - 5 && m % 10 == n % 10);
        assert(roman(n) == seq!['L'] + roman(m));
        assert(place_numeral(t - 5, 'X', 'L', 'C') =~= Seq::new((t - 5) as nat, |i: int| 'X'));
        lemma_concat_associative(seq!['L'], Seq::new((t - 5) as nat, |i: int| 'X'), roman(n % 10));
    } else if n >= 40 {
        assert(roman(n) == seq!['X', 'L'] + roman((n - 40) as nat));
    } else {
        let m = (n - 10) as nat;
        lemma_roman_tens(m);
        assert(m / 10 == t - 1 && m % 10 == n % 10);
        assert(roman(n) == seq!['X'] + roman(m));
        assert(seq!['X'] + Seq::new((t - 1) as nat, |i: int| 'X') =~= Seq::new(t as nat, |i: int| 'X'));
        lemma_concat_associative(seq!['X'], Seq::new((t - 1) as nat, |i: int| 'X'), roman(n % 10));
    }
}

proof fn lemma_roman_hundreds(n: nat)
    requires
        n < 1000,
    ensures
        roman(n) == place_numeral((n / 100) as int, 'C', 'D', 'M') + roman(n % 100),
    decreases n,
{
    let t = (n / 100) as int;
    if n < 100 {
        assert(place_numeral(0, 'C', 'D', 'M') =~= Seq::<char>::empty());
        assert(roman(n) =~= Seq::<char>::empty() + roman(n % 100));
    } else if n >= 900 {
        assert(roman(n) == seq!['C', 'M'] + roman((n - 900) as nat));
    } else if n >= 500 {
        let m = (n - 500) as nat;
        lemma_roman_hundreds(m);
        assert(m / 100 == t - 5 && m % 100 == n % 100);
        assert(roman(n) == seq!['D'] + roman(m));
        assert(place_numeral(t - 5, 'C', 'D', 'M') =~= Seq::new((t - 5) as nat, |i: int| 'C'));
        lemma_concat_associative(seq!['D'], Seq::new((t - 5) as nat, |i: int| 'C'), roman(n % 100));
    } else if n >= 400 {
        assert(roman(n) == seq!['C', 'D'] + roman((n - 400) as nat));
    } else {
        let m = (n - 100) as nat;
        lemma_roman_hundreds(m);
        assert(m / 100 == t - 1 && m % 100 == n % 100);
        assert(roman(n) == seq!['C'] + roman(m));
        assert(seq!['C'] + Seq::new((t - 1) as nat, |i: int| 'C') =~= Seq::new(t as nat, |i: int| 'C'));
        lemma_concat_associative(seq!['C'], Seq::new((t - 1) as nat, |i: int| 'C'), roman(n % 100));
    }
}

proof fn lemma_roman_thousands(n: nat)
    ensures
        roman(n) == Seq::new(n / 1000, |i: int| 'M') + roman(n % 1000),
    decreases n,
{
    if n < 1000 {
        assert(roman(n) =~= Seq::new(n / 1000, |i: int| 'M') + roman(n % 1000));
    } else {
        let m = (n - 1000) as nat;
        lemma_roman_thousands(m);
        assert(m / 1000 == n / 1000 - 1 && m % 1000 == n % 1000);
        assert(roman(n) == seq!['M'] + roman(m));
        assert(seq!['M'] + Seq::new(m / 1000, |i: int| 'M') =~= Seq::new(n / 1000, |i: int| 'M'));
        lemma_concat_associative(seq!['M'], Seq::new(m / 1000, |i: int| 'M'), roman(n % 1000));
    }
}

/// The largest letter value the numeral of `m` can start with.
spec fn first_letter_bound(m: nat) -> int {
    if m < 5 {
        1
    } else if m < 10 {
        5
    } else if m < 50 {
        10
    } else if m < 100 {
        50
    } else if m < 500 {
        100
    } else if m < 1000 {
        500
    } else {
        1000
    }
}

proof fn lemma_first_letter(m: nat)
    requires
        m >= 1,
    ensures
        roman(m).len() > 0,
        roman_letter_value(roman(m)[0]) <= first_letter_bound(m),
{
    if m >= 1000 {
        assert(roman(m) == seq!['M'] + roman((m - 1000) as nat));
        assert(roman(m)[0] == 'M');
    } else if m >= 900 {
        assert(roman(m) == seq!['C', 'M'] + roman((m - 900) as nat));
        assert(roman(m)[0] == 'C');
    } else if m >= 500 {
        assert(roman(m) == seq!['D'] + roman((m - 500) as nat));
        assert(roman(m)[0] == 'D');
    } else if m >= 400 {
        assert(roman(m) == seq!['C', 'D'] + roman((m - 400) as nat));
        assert(roman(m)[0] == 'C');
    } else if m >= 100 {
        assert(roman(m) == seq!['C'] + roman((m - 100) as nat));
        assert(roman(m)[0] == 'C');
    } else if m >= 90 {
        assert(roman(m) == seq!['X', 'C'] + roman((m - 90) as nat));
        assert(roman(m)[0] == 'X');
    } else if m >= 50 {
        assert(roman(m) == seq!['L'] + roman((m - 50) as nat));
        assert(roman(m)[0] == 'L');
    } else if m >= 40 {
        assert(roman(m) == seq!['X', 'L'] + roman((m - 40) as nat));
        assert(roman(m)[0] == 'X');
    } else if m >= 10 {
        assert(roman(m) == seq!['X'] + roman((m - 10) as nat));
        assert(roman(m)[0] == 'X');
    } else if m >= 9 {
        assert(roman(m) == seq!['I', 'X'] + roman((m - 9) as nat));
        assert(roman(m)[0] == 'I');
    } else if m >= 5 {
        assert(roman(m) == seq!['V'] + roman((m - 5) as nat));
        assert(roman(m)[0] == 'V');
    } else if m >= 4 {
        assert(roman(m) == seq!['I', 'V'] + roman((m - 4) as nat));
        assert(roman(m)[0] == 'I');
    } else {
        assert(roman(m) == seq!['I'] + roman((m - 1) as nat));
        assert(roman(m)[0] == 'I');
    }
}

/// Reading a numeral whose last letter is worth at least the next one's first letter
/// reads the two parts one after the other.
proof fn lemma_roman_value_concat(a: Seq<char>, b: Seq<char>)
    requires
        a.len() == 0 || b.len() == 0 || roman_letter_value(a.last()) >= roman_letter_value(b[0]),
    ensures
        roman_value(a + b) == roman_value(a) + roman_value(b),
    decreases a.len(),
{
    if a.len() == 0 {
        assert(a + b =~= b);
    } else if b.len() == 0 {
        assert(a + b =~= a);
    } else {
        let ab = a + b;
        assert(ab[0] == a[0]);
        assert(ab.drop_first() =~= a.drop_first() + b);
        if a.len() >= 2 {
            assert(ab[1] == a[1]);
            assert(a.drop_first().last() == a.last());
        } else {
            assert(ab[1] == b[0]);
            assert(a.drop_first() =~= Seq::<char>::empty());
        }
        lemma_roman_value_concat(a.drop_first(), b);
    }
}

proof fn lemma_roman_value(n: nat)
    ensures
        roman_value(roman(n)) == n,
    decreases n,
{
    if n >= 1 {
        let (head, v): (Seq<char>, nat) = if n >= 1000 {
            (seq!['M'], 1000)
        } else if n >= 900 {
            (seq!['C', 'M'], 900)
        } else if n >= 500 {
            (seq!['D'], 500)
        } else if n >= 400 {
            (seq!['C', 'D'], 400)
        } else if n >= 100 {
            (seq!['C'], 100)
        } else if n >= 90 {
            (seq!['X', 'C'], 90)
        } else if n >= 50 {
            (seq!['L'], 50)
        } else if n >= 40 {
            (seq!['X', 'L'], 40)
        } else if n >= 10 {
            (seq!['X'], 10)
        } else if n >= 9 {
            (seq!['I', 'X'], 9)
        } else if n >= 5 {
            (seq!['V'], 5)
        } else if n >= 4 {
            (seq!['I', 'V'], 4)
        } else {
            (seq!['I'], 1)
        };
        let rest = (n - v) as nat;
        assert(roman(n) == head + roman(rest));
        lemma_roman_value(rest);
        if rest >= 1 {
            lemma_first_letter(rest);
        }
        assert(roman_value(Seq::<char>::empty()) == 0);
        if head.len() == 1 {
            assert(head.drop_first() =~= Seq::<char>::empty());
            assert(roman_value(head.drop_first()) == 0);
            assert(roman_value(head) == roman_letter_value(head[0]));
        } else {
            let tail = head.drop_first();
            assert(tail =~= seq![head[1]]);
            assert(tail.drop_first() =~= Seq::<char>::empty());
            assert(roman_value(tail.drop_first()) == 0);
            assert(tail.len() == 1 && tail[0] == head[1]);
            assert(roman_value(tail) == roman_letter_value(head[1]));
            assert(roman_value(head) == roman_letter_value(head[1]) - roman_letter_value(head[0]));
        }
        assert(roman_value(head) == v);
        assert(rest >= 1 ==> first_letter_bound(rest) <= roman_letter_value(head.last()));
        lemma_roman_value_concat(head, roman(rest));
    }
}

// ---------------------------------------------------------------------------
// Bullet labels
// ---------------------------------------------------------------------------

/// Wraps a label in the punctuation of a numbering scheme suffix: `Period` gives `x.`,
/// `ParenR` gives `x)`, `ParenBoth` gives `(x)`, plain gives `x`.
pub open spec fn punct(kind: int, x: Seq<char>) -> Seq<char> {
    if kind == 0 {
        x.push('.')
    } else if kind == 1 {
        x.push(')')
    } else if kind == 2 {
        seq!['('] + x.push(')')
    } else {
        x
    }
}

/// The label of an auto-numbered bullet for an OOXML `buAutoNum` type; unknown types
/// number like `arabicPeriod`.
pub open spec fn spec_format_auto_num(t: Seq<char>, v: int) -> Seq<char> {
    if t == "arabicPeriod"@ {
        punct(0, decimal_text(v))
    } else if t == "arabicParenR"@ {
        punct(1, decimal_text(v))
    } else if t == "arabicParenBoth"@ {
        punct(2, decimal_text(v))
    } else if t == "arabicPlain"@ {
        punct(3, decimal_text(v))
    } else if t == "alphaLcPeriod"@ {
        punct(0, spec_alpha_lc(v))
    } else if t == "alphaLcParenR"@ {
        punct(1, spec_alpha_lc(v))
    } else if t == "alphaLcParenBoth"@ {
        punct(2, spec_alpha_lc(v))
    } else if t == "alphaUcPeriod"@ {
        punct(0, spec_alpha_uc(v))
    } else if t == "alphaUcParenR"@ {
        punct(1, spec_alpha_uc(v))
    } else if t == "alphaUcParenBoth"@ {
        punct(2, spec_alpha_uc(v))
    } else if t == "romanLcPeriod"@ {
        punct(0, spec_roman_lc(v))
    } else if t == "romanLcParenR"@ {
        punct(1, spec_roman_lc(v))
    } else if t == "romanLcParenBoth"@ {
        punct(2, spec_roman_lc(v))
    } else if t == "romanUcPeriod"@ {
        punct(0, spec_roman_uc(v))
    } else if t == "romanUcParenR"@ {
        punct(1, spec_roman_uc(v))
    } else if t == "romanUcParenBoth"@ {
        punct(2, spec_roman_uc(v))
    } else {
        punct(0, decimal_text(v))
    }
}

/// The Roman bullet schemes write the Roman numeral of the number, upper or lower case,
/// followed by a period (`Period`), by a closing parenthesis (`ParenR`), or inside
/// parentheses (`ParenBoth`); so the fifth item of `romanUcPeriod` reads `V.`.
pub proof fn roman_labels_punctuate_the_numeral(v: int)
    ensures
        spec_format_auto_num("romanUcPeriod"@, v) == spec_roman_uc(v).push('.'),
        spec_format_auto_num("romanUcParenR"@, v) == spec_roman_uc(v).push(')'),
        spec_format_auto_num("romanUcParenBoth"@, v) == seq!['('] + spec_roman_uc(v).push(')'),
        spec_format_auto_num("romanLcPeriod"@, v) == spec_roman_lc(v).push('.'),
        spec_format_auto_num("romanLcParenR"@, v) == spec_roman_lc(v).push(')'),
        spec_format_auto_num("romanLcParenBoth"@, v) == seq!['('] + spec_roman_lc(v).push(')'),
{
    lemma_scheme_romanUcPeriod(v);
    lemma_scheme_romanUcParenR(v);
    lemma_scheme_romanUcParenBoth(v);
    lemma_scheme_romanLcPeriod(v);
    lemma_scheme_romanLcParenR(v);
    lemma_scheme_romanLcParenBoth(v);
}

proof fn lemma_scheme_romanUcPeriod(v: int)
    ensures
        spec_format_auto_num("romanUcPeriod"@, v) == spec_roman_uc(v).push('.'),
{
    reveal_strlit("arabicPeriod");
    reveal_strlit("arabicParenR");
    reveal_strlit("arabicParenBoth");
    reveal_strlit("arabicPlain");
    reveal_strlit("alphaLcPeriod");
    reveal_strlit("alphaLcParenR");
    reveal_strlit("alphaLcParenBoth");
    reveal_strlit("alphaUcPeriod");
    reveal_strlit("alphaUcParenR");
    reveal_strlit("alphaUcParenBoth");
    reveal_strlit("romanLcPeriod");
    reveal_strlit("romanLcParenR");
    reveal_strlit("romanLcParenBoth");
    reveal_strlit("romanUcPeriod");
    assert("romanUcPeriod"@ != "alphaLcPeriod"@) by {
        assert("romanUcPeriod"@[0] != "alphaLcPeriod"@[0]);
    }
    assert("romanUcPeriod"@ != "alphaLcParenR"@) by {
        assert("romanUcPeriod"@[0] != "alphaLcParenR"@[0]);
    }
    assert("romanUcPeriod"@ != "alphaUcPeriod"@) by {
        assert("romanUcPeriod"@[0] != "alphaUcPeriod"@[0]);
    }
    assert("romanUcPeriod"@ != "alphaUcParenR"@) by {
        assert("romanUcPeriod"@[0] != "alphaUcParenR"@[0]);
    }
    assert("romanUcPeriod"@ != "romanLcPeriod"@) by {
        assert("romanUcPeriod"@[5] != "romanLcPeriod"@[5]);
    }
    assert("romanUcPeriod"@ != "romanLcParenR"@) by {
        assert("romanUcPeriod"@[5] != "romanLcParenR"@[5]);
    }
}

proof fn lemma_scheme_romanUcParenR(v: int)
    ensures
        spec_format_auto_num("romanUcParenR"@, v) == spec_roman_uc(v).push(')'),
{
    reveal_strlit("arabicPeriod");
    reveal_strlit("arabicParenR");
    reveal_strlit("arabicParenBoth");
    reveal_strlit("arabicPlain");
    reveal_strlit("alphaLcPeriod");
    reveal_strlit("alphaLcParenR");
    reveal_strlit("alphaLcParenBoth");
    reveal_strlit("alphaUcPeriod");
    reveal_strlit("alphaUcParenR");
    reveal_strlit("alphaUcParenBoth");
    reveal_strlit("romanLcPeriod");
    reveal_strlit("romanLcParenR");
    reveal_strlit("romanLcParenBoth");
    reveal_strlit("romanUcPeriod");
    reveal_strlit("romanUcParenR");
    assert("romanUcParenR"@ != "alphaLcPeriod"@) by {
        assert("romanUcParenR"@[0] != "alphaLcPeriod"@[0]);
    }
    assert("romanUcParenR"@ != "alphaLcParenR"@) by {
        assert("romanUcParenR"@[0] != "alphaLcParenR"@[0]);
    }
    assert("romanUcParenR"@ != "alphaUcPeriod"@) by {
        assert("romanUcParenR"@[0] != "alphaUcPeriod"@[0]);
    }
    assert("romanUcParenR"@ != "alphaUcParenR"@) by {
        assert("romanUcParenR"@[0] != "alphaUcParenR"@[0]);
    }
    assert("romanUcParenR"@ != "romanLcPeriod"@) by {
        assert("romanUcParenR"@[5] != "romanLcPeriod"@[5]);
    }
    assert("romanUcParenR"@ != "romanLcParenR"@) by {
        assert("romanUcParenR"@[5] != "romanLcParenR"@[5]);
    }
    assert("romanUcParenR"@ != "romanUcPeriod"@) by {
        assert("romanUcParenR"@[8] != "romanUcPeriod"@[8]);
    }
}

proof fn lemma_scheme_romanUcParenBoth(v: int)
    ensures
        spec_format_auto_num("romanUcParenBoth"@, v) == seq!['('] + spec_roman_uc(v).push(')'),
{
    reveal_strlit("arabicPeriod");
    reveal_strlit("arabicParenR");
    reveal_strlit("arabicParenBoth");
    reveal_strlit("arabicPlain");
    reveal_strlit("alphaLcPeriod");
    reveal_strlit("alphaLcParenR");
    reveal_strlit("alphaLcParenBoth");
    reveal_strlit("alphaUcPeriod");
    reveal_strlit("alphaUcParenR");
    reveal_strlit("alphaUcParenBoth");
    reveal_strlit("romanLcPeriod");
    reveal_strlit("romanLcParenR");
    reveal_strlit("romanLcParenBoth");
    reveal_strlit("romanUcPeriod");
    reveal_strlit("romanUcParenR");
    reveal_strlit("romanUcParenBoth");
    assert("romanUcParenBoth"@ != "alphaLcParenBoth"@) by {
        assert("romanUcParenBoth"@[0] != "alphaLcParenBoth"@[0]);
    }
    assert("romanUcParenBoth"@ != "alphaUcParenBoth"@) by {
        assert("romanUcParenBoth"@[0] != "alphaUcParenBoth"@[0]);
    }
    assert("romanUcParenBoth"@ != "romanLcParenBoth"@) by {
        assert("romanUcParenBoth"@[5] != "romanLcParenBoth"@[5]);
    }
    assert("romanUcParenBoth"@ != "arabicPeriod"@) by {
        assert("romanUcParenBoth"@.len() != "arabicPeriod"@.len());
    }
    assert("romanUcParenBoth"@ != "arabicParenR"@) by {
        assert("romanUcParenBoth"@.len() != "arabicParenR"@.len());
    }
    assert("romanUcParenBoth"@ != "arabicParenBoth"@) by {
        assert("romanUcParenBoth"@.len() != "arabicParenBoth"@.len());
    }
    assert("romanUcParenBoth"@ != "arabicPlain"@) by {
        assert("romanUcParenBoth"@.len() != "arabicPlain"@.len());
    }
    assert("romanUcParenBoth"@ != "alphaLcPeriod"@) by {
        assert("romanUcParenBoth"@.len() != "alphaLcPeriod"@.len());
    }
    assert("romanUcParenBoth"@ != "alphaLcParenR"@) by {
        assert("romanUcParenBoth"@.len() != "alphaLcParenR"@.len());
    }
    assert("romanUcParenBoth"@ != "alphaUcPeriod"@) by {
        assert("romanUcParenBoth"@.len() != "alphaUcPeriod"@.len());
    }
    assert("romanUcParenBoth"@ != "alphaUcParenR"@) by {
        assert("romanUcParenBoth"@.len() != "alphaUcParenR"@.len());
    }
    assert("romanUcParenBoth"@ != "romanLcPeriod"@) by {
        assert("romanUcParenBoth"@.len() != "romanLcPeriod"@.len());
    }
    assert("romanUcParenBoth"@ != "romanLcParenR"@) by {
        assert("romanUcParenBoth"@.len() != "romanLcParenR"@.len());
    }
    assert("romanUcParenBoth"@ != "romanUcPeriod"@) by {
        assert("romanUcParenBoth"@.len() != "romanUcPeriod"@.len());
    }
    assert("romanUcParenBoth"@ != "romanUcParenR"@) by {
        assert("romanUcParenBoth"@.len() != "romanUcParenR"@.len());
    }
    assert(spec_format_auto_num("romanUcParenBoth"@, v) == punct(2, spec_roman_uc(v)));
}

proof fn lemma_scheme_romanLcPeriod(v: int)
    ensures
        spec_format_auto_num("romanLcPeriod"@, v) == spec_roman_lc(v).push('.'),
{
    reveal_strlit("arabicPeriod");
    reveal_strlit("arabicParenR");
    reveal_strlit("arabicParenBoth");
    reveal_strlit("arabicPlain");
    reveal_strlit("alphaLcPeriod");
    reveal_strlit("alphaLcParenR");
    reveal_strlit("alphaLcParenBoth");
    reveal_strlit("alphaUcPeriod");
    reveal_strlit("alphaUcParenR");
    reveal_strlit("alphaUcParenBoth");
    reveal_strlit("romanLcPeriod");
    assert("romanLcPeriod"@ != "alphaLcPeriod"@) by {
        assert("romanLcPeriod"@[0] != "alphaLcPeriod"@[0]);
    }
    assert("romanLcPeriod"@ != "alphaLcParenR"@) by {
        assert("romanLcPeriod"@[0] != "alphaLcParenR"@[0]);
    }
    assert("romanLcPeriod"@ != "alphaUcPeriod"@) by {
        assert("romanLcPeriod"@[0] != "alphaUcPeriod"@[0]);
    }
    assert("romanLcPeriod"@ != "alphaUcParenR"@) by {
        assert("romanLcPeriod"@[0] != "alphaUcParenR"@[0]);
    }
}

proof fn lemma_scheme_romanLcParenR(v: int)
    ensures
        spec_format_auto_num("romanLcParenR"@, v) == spec_roman_lc(v).push(')'),
{
    reveal_strlit("arabicPeriod");
    reveal_strlit("arabicParenR");
    reveal_strlit("arabicParenBoth");
    reveal_strlit("arabicPlain");
    reveal_strlit("alphaLcPeriod");
    reveal_strlit("alphaLcParenR");
    reveal_strlit("alphaLcParenBoth");
    reveal_strlit("alphaUcPeriod");
    reveal_strlit("alphaUcParenR");
    reveal_strlit("alphaUcParenBoth");
    reveal_strlit("romanLcPeriod");
    reveal_strlit("romanLcParenR");
    assert("romanLcParenR"@ != "alphaLcPeriod"@) by {
        assert("romanLcParenR"@[0] != "alphaLcPeriod"@[0]);
    }
    assert("romanLcParenR"@ != "alphaLcParenR"@) by {
        assert("romanLcParenR"@[0] != "alphaLcParenR"@[0]);
    }
    assert("romanLcParenR"@ != "alphaUcPeriod"@) by {
        assert("romanLcParenR"@[0] != "alphaUcPeriod"@[0]);
    }
    assert("romanLcParenR"@ != "alphaUcParenR"@) by {
        assert("romanLcParenR"@[0] != "alphaUcParenR"@[0]);
    }
    assert("romanLcParenR"@ != "romanLcPeriod"@) by {
        assert("romanLcParenR"@[8] != "romanLcPeriod"@[8]);
    }
}

proof fn lemma_scheme_romanLcParenBoth(v: int)
    ensures
        spec_format_auto_num("romanLcParenBoth"@, v) == seq!['('] + spec_roman_lc(v).push(')'),
{
    reveal_strlit("arabicPeriod");
    reveal_strlit("arabicParenR");
    reveal_strlit("arabicParenBoth");
    reveal_strlit("arabicPlain");
    reveal_strlit("alphaLcPeriod");
    reveal_strlit("alphaLcParenR");
    reveal_strlit("alphaLcParenBoth");
    reveal_strlit("alphaUcPeriod");
    reveal_strlit("alphaUcParenR");
    reveal_strlit("alphaUcParenBoth");
    reveal_strlit("romanLcPeriod");
    reveal_strlit("romanLcParenR");
    reveal_strlit("romanLcParenBoth");
    assert("romanLcParenBoth"@ != "alphaLcParenBoth"@) by {
        assert("romanLcParenBoth"@[0] != "alphaLcParenBoth"@[0]);
    }
    assert("romanLcParenBoth"@ != "alphaUcParenBoth"@) by {
        assert("romanLcParenBoth"@[0] != "alphaUcParenBoth"@[0]);
    }
    assert("romanLcParenBoth"@ != "arabicPeriod"@) by {
        assert("romanLcParenBoth"@.len() != "arabicPeriod"@.len());
    }
    assert("romanLcParenBoth"@ != "arabicParenR"@) by {
        assert("romanLcParenBoth"@.len() != "arabicParenR"@.len());
    }
    assert("romanLcParenBoth"@ != "arabicParenBoth"@) by {
        assert("romanLcParenBoth"@.len() != "arabicParenBoth"@.len());
    }
    assert("romanLcParenBoth"@ != "arabicPlain"@) by {
        assert("romanLcParenBoth"@.len() != "arabicPlain"@.len());
    }
    assert("romanLcParenBoth"@ != "alphaLcPeriod"@) by {
        assert("romanLcParenBoth"@.len() != "alphaLcPeriod"@.len());
    }
    assert("romanLcParenBoth"@ != "alphaLcParenR"@) by {
        assert("romanLcParenBoth"@.len() != "alphaLcParenR"@.len());
    }
    assert("romanLcParenBoth"@ != "alphaUcPeriod"@) by {
        assert("romanLcParenBoth"@.len() != "alphaUcPeriod"@.len());
    }
    assert("romanLcParenBoth"@ != "alphaUcParenR"@) by {
        assert("romanLcParenBoth"@.len() != "alphaUcParenR"@.len());
    }
    assert("romanLcParenBoth"@ != "romanLcPeriod"@) by {
        assert("romanLcParenBoth"@.len() != "romanLcPeriod"@.len());
    }
    assert("romanLcParenBoth"@ != "romanLcParenR"@) by {
        assert("romanLcParenBoth"@.len() != "romanLcParenR"@.len());
    }
    assert(spec_format_auto_num("romanLcParenBoth"@, v) == punct(2, spec_roman_lc(v)));
}

fn punctuate(kind: u8, x: String) -> (r: String)
    ensures
        r@ == punct(kind as int, x@),
{
    if kind == 0 {
        let mut s = x;
        push_char(&mut s, '.');
        s
    } else if kind == 1 {
        let mut s = x;
        push_char(&mut s, ')');
        s
    } else if kind == 2 {
        let mut s = String::new();
        push_char(&mut s, '(');
        crate::strings::push_str(&mut s, x.as_str());
        push_char(&mut s, ')');
        assert(s@ =~= seq!['('] + x@.push(')'));
        s
    } else {
        x
    }
}

fn decimal_string(v: i32) -> (r: String)
    ensures
        r@ == decimal_text(v as int),
{
    let mut s = String::new();
    push_decimal_i64(&mut s, v as i64);
    assert(s@ =~= decimal_text(v as int));
    s
}

/// Format an auto-numbered bullet label for an OOXML numbering type.
pub fn format_auto_num(num_type: &str, val: i32) -> (r: String)
    ensures
        r@ == spec_format_auto_num(num_type@, val as int),
{
    if str_equal(num_type, "arabicPeriod") {
        punctuate(0, decimal_string(val))
    } else if str_equal(num_type, "arabicParenR") {
        punctuate(1, decimal_string(val))
    } else if str_equal(num_type, "arabicParenBoth") {
        punctuate(2, decimal_string(val))
    } else if str_equal(num_type, "arabicPlain") {
        punctuate(3, decimal_string(val))
    } else if str_equal(num_type, "alphaLcPeriod") {
        punctuate(0, to_alpha_lc(val))
    } else if str_equal(num_type, "alphaLcParenR") {
        punctuate(1, to_alpha_lc(val))
    } else if str_equal(num_type, "alphaLcParenBoth") {
        punctuate(2, to_alpha_lc(val))
    } else if str_equal(num_type, "alphaUcPeriod") {
        punctuate(0, to_alpha_uc(val))
    } else if str_equal(num_type, "alphaUcParenR") {
        punctuate(1, to_alpha_uc(val))
    } else if str_equal(num_type, "alphaUcParenBoth") {
        punctuate(2, to_alpha_uc(val))
    } else if str_equal(num_type, "romanLcPeriod") {
        punctuate(0, to_roman_lc(val))
    } else if str_equal(num_type, "romanLcParenR") {
        punctuate(1, to_roman_lc(val))
    } else if str_equal(num_type, "romanLcParenBoth") {
        punctuate(2, to_roman_lc(val))
    } else if str_equal(num_type, "romanUcPeriod") {
        punctuate(0, to_roman_uc(val))
    } else if str_equal(num_type, "romanUcParenR") {
        punctuate(1, to_roman_uc(val))
    } else if str_equal(num_type, "romanUcParenBoth") {
        punctuate(2, to_roman_uc(val))
    } else {
        punctuate(0, decimal_string(val))
    }
}

} // verus!
