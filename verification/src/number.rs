//! Volume and chapter numbers: decimal numbers held exactly, in billionths.

use vstd::prelude::*;
use crate::text::{chars_of, digit_char, int_text, nat_text};

verus! {

/// How many units of a [`Decimal`] make one.
pub const SCALE: i64 = 1_000_000_000;

/// A decimal number with up to nine places after the point, held as a
/// count of billionths. `0` marks "no volume".
#[derive(Clone, Copy, Debug, PartialEq, Eq)]
pub struct Decimal {
    pub billionths: i64,
}

pub open spec fn is_digit(c: char) -> bool {
    '0' <= c && c <= '9'
}

pub open spec fn digit_value(c: char) -> int {
    c as int - '0' as int
}

/// The natural number that a run of decimal digits writes.
pub open spec fn digits_value(digits: Seq<char>) -> int
    decreases digits.len(),
{
    if digits.len() == 0 {
        0
    } else {
        digits_value(digits.drop_last()) * 10 + digit_value(digits.last())
    }
}

/// Where the longest run of digits that starts at `from` ends.
pub open spec fn digit_run(s: Seq<char>, from: int) -> int
    decreases s.len() - from,
{
    if 0 <= from < s.len() && is_digit(s[from]) {
        digit_run(s, from + 1)
    } else {
        from
    }
}

/// The digits after the point, filled up with zeros to nine places.
pub open spec fn nine_places(fraction: Seq<char>) -> Seq<char> {
    fraction + Seq::new((9 - fraction.len()) as nat, |i: int| '0')
}

/// The length of the sign at the start of `s`: one or none.
pub open spec fn sign_len(s: Seq<char>) -> int {
    if s.len() > 0 && (s[0] == '-' || s[0] == '+') {
        1
    } else {
        0
    }
}

/// The number that `s` writes, in billionths.
///
/// Accepted is an optional sign, then digits with at most one point among
/// them and at least one digit in all: `7`, `-12.5`, `+3.`, `.25`. The part
/// before the point must be below one billion, and at most nine digits may
/// follow the point. Everything else, exponents and the names of infinities
/// included, has no value.
pub open spec fn decimal_value(s: Seq<char>) -> Option<int> {
    let negative = s.len() > 0 && s[0] == '-';
    let start = sign_len(s);
    let whole_end = digit_run(s, start);
    let fraction_start = if whole_end < s.len() && s[whole_end] == '.' {
        whole_end + 1
    } else {
        whole_end
    };
    let fraction_end = digit_run(s, fraction_start);
    let whole = s.subrange(start, whole_end);
    let fraction = s.subrange(fraction_start, fraction_end);
    if fraction_end == s.len() && whole.len() + fraction.len() >= 1 && digits_value(whole) < SCALE
        && fraction.len() <= 9 {
        let magnitude = digits_value(whole + nine_places(fraction));
        Some(
            if negative {
                -magnitude
            } else {
                magnitude
            },
        )
    } else {
        None
    }
}

spec fn pow10(n: nat) -> int
    decreases n,
{
    if n == 0 {
        1
    } else {
        10 * pow10((n - 1) as nat)
    }
}

proof fn lemma_pow10_grows(a: nat, b: nat)
    requires
        a <= b,
    ensures
        0 < pow10(a) <= pow10(b),
    decreases b,
{
    if a < b {
        lemma_pow10_grows(a, (b - 1) as nat);
    } else if a > 0 {
        lemma_pow10_grows((a - 1) as nat, (a - 1) as nat);
    }
}

proof fn lemma_pow10_values()
    ensures
        pow10(9) == 1_000_000_000,
        pow10(18) == 1_000_000_000_000_000_000,
{
    reveal_with_fuel(pow10, 10);
    assert(pow10(9) == 1_000_000_000);
    assert(pow10(18) == pow10(9) * 1_000_000_000);
}

/// What [`digit_run`] finds: only digits up to its end, and no digit there.
pub proof fn lemma_digit_run(s: Seq<char>, from: int)
    requires
        0 <= from <= s.len(),
    ensures
        from <= digit_run(s, from) <= s.len(),
        forall|k: int| from <= k < digit_run(s, from) ==> is_digit(#[trigger] s[k]),
        digit_run(s, from) < s.len() ==> !is_digit(s[digit_run(s, from)]),
    decreases s.len() - from,
{
    if from < s.len() && is_digit(s[from]) {
        lemma_digit_run(s, from + 1);
    }
}

proof fn lemma_digits_bounds(digits: Seq<char>)
    requires
        forall|k: int| 0 <= k < digits.len() ==> is_digit(#[trigger] digits[k]),
    ensures
        0 <= digits_value(digits) < pow10(digits.len()),
    decreases digits.len(),
{
    if digits.len() > 0 {
        lemma_digits_bounds(digits.drop_last());
    }
}

proof fn lemma_digits_prefix(digits: Seq<char>, k: int)
    requires
        forall|i: int| 0 <= i < digits.len() ==> is_digit(#[trigger] digits[i]),
        0 <= k <= digits.len(),
    ensures
        0 <= digits_value(digits.take(k)) <= digits_value(digits),
    decreases digits.len(),
{
    if k == digits.len() {
        assert(digits.take(k) =~= digits);
        lemma_digits_bounds(digits);
    } else {
        assert(digits.drop_last().take(k) =~= digits.take(k));
        lemma_digits_prefix(digits.drop_last(), k);
    }
}

proof fn lemma_nat_text_digits(n: nat)
    ensures
        nat_text(n).len() >= 1,
        forall|k: int| 0 <= k < nat_text(n).len() ==> is_digit(#[trigger] nat_text(n)[k]),
        digits_value(nat_text(n)) == n,
    decreases n,
{
    assert(forall|d: int| 0 <= d < 10 ==> is_digit(#[trigger] digit_char(d)) && digit_value(digit_char(d)) == d);
    if n < 10 {
        assert(nat_text(n).drop_last() =~= Seq::<char>::empty());
        assert(nat_text(n).last() == digit_char(n as int));
        assert(digits_value(nat_text(n).drop_last()) == 0);
    } else {
        lemma_nat_text_digits(n / 10);
        assert(nat_text(n).drop_last() =~= nat_text(n / 10));
        assert(nat_text(n).last() == digit_char((n % 10) as int));
        assert(digits_value(nat_text(n)) == digits_value(nat_text(n / 10)) * 10 + digit_value(
            digit_char((n % 10) as int),
        ));
    }
}

proof fn lemma_digit_run_to_end(s: Seq<char>, from: int)
    requires
        0 <= from <= s.len(),
        forall|k: int| from <= k < s.len() ==> is_digit(#[trigger] s[k]),
    ensures
        digit_run(s, from) == s.len(),
    decreases s.len() - from,
{
    if from < s.len() {
        lemma_digit_run_to_end(s, from + 1);
    }
}

proof fn lemma_digits_then_zeros(digits: Seq<char>, zeros: nat)
    ensures
        digits_value(digits + Seq::new(zeros, |i: int| '0')) == digits_value(digits) * pow10(zeros),
    decreases zeros,
{
    let padded = digits + Seq::new(zeros, |i: int| '0');
    if zeros == 0 {
        assert(padded =~= digits);
    } else {
        let shorter = digits + Seq::new((zeros - 1) as nat, |i: int| '0');
        lemma_digits_then_zeros(digits, (zeros - 1) as nat);
        assert(padded.drop_last() =~= shorter);
        assert(padded.last() == '0');
        assert(digits_value(digits) * pow10(zeros) == digits_value(digits) * pow10(
            (zeros - 1) as nat,
        ) * 10) by (nonlinear_arith)
            requires
                pow10(zeros) == 10 * pow10((zeros - 1) as nat),
        ;
    }
}

/// A whole number below one billion in size, written in base ten, is read
/// as that number.
pub proof fn lemma_reads_whole_numbers(n: int)
    requires
        -SCALE < n < SCALE,
    ensures
        decimal_value(int_text(n)) == Some(n * SCALE),
{
    let magnitude: nat = if n < 0 {
        (-n) as nat
    } else {
        n as nat
    };
    let s = int_text(n);
    let digits = nat_text(magnitude);
    lemma_nat_text_digits(magnitude);
    lemma_pow10_values();
    lemma_digits_then_zeros(digits, 9);
    let start = sign_len(s);
    if n < 0 {
        assert(s =~= seq!['-'] + digits);
        assert(s[0] == '-');
        assert(start == 1);
        assert forall|k: int| 1 <= k < s.len() implies is_digit(#[trigger] s[k]) by {
            assert(s[k] == digits[k - 1]);
        }
    } else {
        assert(s == digits);
        assert(is_digit(s[0]));
        assert(start == 0);
    }
    lemma_digit_run_to_end(s, start);
    lemma_digit_run_to_end(s, s.len() as int);
    assert(s.subrange(start, s.len() as int) =~= digits);
    assert(s.subrange(s.len() as int, s.len() as int) =~= Seq::<char>::empty());
    assert(nine_places(Seq::<char>::empty()) =~= Seq::new(9, |i: int| '0'));
}

fn digit_of(c: char) -> (d: Option<i64>)
    ensures
        match d {
            Some(v) => is_digit(c) && v == digit_value(c),
            None => !is_digit(c),
        },
{
    let code: u32 = c as u32;
    if 48 <= code && code <= 57 {
        Some((code - 48) as i64)
    } else {
        None
    }
}

impl Decimal {
    /// The whole number `n`.
    pub fn whole(n: i32) -> (d: Decimal)
        ensures
            d.billionths == n * SCALE,
    {
        Decimal { billionths: (n as i64) * SCALE }
    }
}

/// Reads a decimal number; `None` where [`decimal_value`] gives none.
pub fn parse_decimal(s: &str) -> (parsed: Option<Decimal>)
    ensures
        match parsed {
            Some(d) => decimal_value(s@) == Some(d.billionths as int),
            None => decimal_value(s@) is None,
        },
{
    let chars = chars_of(s);
    let n = chars.len();
    let mut negative = false;
    let mut start: usize = 0;
    if n > 0 && (chars[0] == '-' || chars[0] == '+') {
        negative = chars[0] == '-';
        start = 1;
    }
    proof {
        lemma_digit_run(s@, start as int);
    }
    let ghost whole_end = digit_run(s@, start as int);
    let ghost whole = s@.subrange(start as int, whole_end);
    let mut i: usize = start;
    let mut acc: i64 = 0;
    loop
        invariant
            chars@ == s@,
            n == chars.len(),
            start <= i <= whole_end <= n,
            start as int == sign_len(s@),
            whole_end == digit_run(s@, start as int),
            whole_end == digit_run(s@, i as int),
            whole == s@.subrange(start as int, whole_end),
            forall|k: int| 0 <= k < whole.len() ==> is_digit(#[trigger] whole[k]),
            acc == digits_value(s@.subrange(start as int, i as int)),
            0 <= acc < SCALE,
        ensures
            i == whole_end,
        decreases n - i,
    {
        if i >= n {
            break ;
        }
        match digit_of(chars[i]) {
            None => {
                break ;
            },
            Some(d) => {
                proof {
                    lemma_digit_run(s@, i + 1);
                }
                let ghost before = s@.subrange(start as int, i as int);
                let ghost after = s@.subrange(start as int, i + 1);
                assert(after.drop_last() =~= before);
                assert(after =~= whole.take(i + 1 - start));
                let next = acc * 10 + d;
                if next >= SCALE {
                    proof {
                        lemma_digits_prefix(whole, i + 1 - start);
                    }
                    return None;
                }
                acc = next;
                i = i + 1;
            },
        }
    }
    assert(s@.subrange(start as int, i as int) == whole);
    let fraction_start: usize = if i < n && chars[i] == '.' {
        i + 1
    } else {
        i
    };
    proof {
        lemma_digit_run(s@, fraction_start as int);
        lemma_pow10_values();
        assert(whole + s@.subrange(fraction_start as int, fraction_start as int) =~= whole);
    }
    let ghost fraction_end = digit_run(s@, fraction_start as int);
    let ghost fraction = s@.subrange(fraction_start as int, fraction_end);
    let mut j: usize = fraction_start;
    loop
        invariant
            chars@ == s@,
            n == chars.len(),
            fraction_start <= j <= fraction_end <= n,
            start as int == sign_len(s@),
            whole_end == digit_run(s@, start as int),
            fraction_start as int == (if whole_end < n && s@[whole_end] == '.' {
                whole_end + 1
            } else {
                whole_end
            }),
            fraction_end == digit_run(s@, fraction_start as int),
            fraction_end == digit_run(s@, j as int),
            fraction == s@.subrange(fraction_start as int, fraction_end),
            j - fraction_start <= 9,
            acc == digits_value(whole + s@.subrange(fraction_start as int, j as int)),
            0 <= acc < pow10((9 + j - fraction_start) as nat),
            pow10(18) == 1_000_000_000_000_000_000,
        ensures
            j == fraction_end,
        decreases n - j,
    {
        if j >= n {
            break ;
        }
        match digit_of(chars[j]) {
            None => {
                break ;
            },
            Some(d) => {
                proof {
                    lemma_digit_run(s@, j + 1);
                }
                if j - fraction_start == 9 {
                    return None;
                }
                let ghost before = whole + s@.subrange(fraction_start as int, j as int);
                let ghost after = whole + s@.subrange(fraction_start as int, j + 1);
                assert(after.drop_last() =~= before);
                assert(after.last() == s@[j as int]);
                proof {
                    lemma_pow10_grows((10 + j - fraction_start) as nat, 18);
                    assert(pow10((10 + j - fraction_start) as nat) == 10 * pow10(
                        (9 + j - fraction_start) as nat,
                    ));
                }
                acc = acc * 10 + d;
                j = j + 1;
            },
        }
    }
    if j != n || (i - start) + (j - fraction_start) == 0 {
        return None;
    }
    assert(s@.subrange(fraction_start as int, j as int) == fraction);
    let mut places: usize = j - fraction_start;
    assert(fraction + Seq::new(0, |i: int| '0') =~= fraction);
    while places < 9
        invariant
            fraction.len() <= places <= 9,
            acc == digits_value(
                whole + (fraction + Seq::new((places - fraction.len()) as nat, |i: int| '0')),
            ),
            0 <= acc < pow10((9 + places) as nat),
            pow10(18) == 1_000_000_000_000_000_000,
        decreases 9 - places,
    {
        let ghost before = whole + (fraction + Seq::new(
            (places - fraction.len()) as nat,
            |i: int| '0',
        ));
        let ghost after = whole + (fraction + Seq::new(
            (places + 1 - fraction.len()) as nat,
            |i: int| '0',
        ));
        assert(after.drop_last() =~= before);
        assert(after.last() == '0');
        proof {
            lemma_pow10_grows((10 + places) as nat, 18);
            assert(pow10((10 + places) as nat) == 10 * pow10((9 + places) as nat));
        }
        acc = acc * 10;
        places = places + 1;
    }
    Some(
        Decimal {
            billionths: if negative {
                -acc
            } else {
                acc
            },
        },
    )
}

} // verus!
