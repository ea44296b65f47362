//! Decimal text of unsigned 64-bit integers: the parse that turns a catalog
//! ID tag into a number, and the formatting that turns a number back into text.

use vstd::prelude::*;
use crate::text::chars_of;

verus! {

/// Why a text is not the decimal form of a `u64`.
#[derive(Debug, Clone, Copy, PartialEq, Eq, Structural)]
pub enum DigitError {
    /// The text is empty.
    Empty,
    /// A character other than an ASCII digit (after an optional `+`).
    InvalidDigit,
    /// The number does not fit in a `u64`.
    PosOverflow,
}

pub open spec fn is_digit(c: char) -> bool {
    '0' <= c && c <= '9'
}

pub open spec fn digit_value(c: char) -> nat {
    (c as int - '0' as int) as nat
}

/// The digit character for `d < 10`.
pub open spec fn digit_char(d: nat) -> char {
    if d == 0 {
        '0'
    } else if d == 1 {
        '1'
    } else if d == 2 {
        '2'
    } else if d == 3 {
        '3'
    } else if d == 4 {
        '4'
    } else if d == 5 {
        '5'
    } else if d == 6 {
        '6'
    } else if d == 7 {
        '7'
    } else if d == 8 {
        '8'
    } else {
        '9'
    }
}

/// Reads the digits of `d` from left to right; the first non-digit, or the
/// first prefix whose value exceeds `u64::MAX`, stops the reading.
pub open spec fn accumulate_digits(d: Seq<char>) -> Result<nat, DigitError>
    decreases d.len(),
{
    if d.len() == 0 {
        Ok(0)
    } else {
        match accumulate_digits(d.drop_last()) {
            Err(e) => Err(e),
            Ok(v) => if !is_digit(d.last()) {
                Err(DigitError::InvalidDigit)
            } else if v * 10 + digit_value(d.last()) > u64::MAX {
                Err(DigitError::PosOverflow)
            } else {
                Ok(v * 10 + digit_value(d.last()))
            },
        }
    }
}

/// The digits that follow an optional leading `+`.
pub open spec fn unsigned_digits(s: Seq<char>) -> Seq<char> {
    if s.len() > 0 && s[0] == '+' {
        s.skip(1)
    } else {
        s
    }
}

/// Decimal parse of a `u64`, as `str::parse::<u64>` does it: an optional `+`,
/// then one or more ASCII digits whose value fits.
pub open spec fn spec_parse_u64(s: Seq<char>) -> Result<u64, DigitError> {
    if s.len() == 0 {
        Err(DigitError::Empty)
    } else if s.len() == 1 && (s[0] == '+' || s[0] == '-') {
        Err(DigitError::InvalidDigit)
    } else {
        match accumulate_digits(unsigned_digits(s)) {
            Ok(v) => Ok(v as u64),
            Err(e) => Err(e),
        }
    }
}

/// The shortest decimal text of `n`, without sign or leading zeros.
pub open spec fn decimal_digits(n: nat) -> Seq<char>
    decreases n,
{
    if n < 10 {
        seq![digit_char(n)]
    } else {
        decimal_digits(n / 10).push(digit_char(n % 10))
    }
}

proof fn lemma_accumulate_bounded(d: Seq<char>)
    ensures
        accumulate_digits(d) matches Ok(v) ==> v <= u64::MAX,
    decreases d.len(),
{
    if d.len() > 0 {
        lemma_accumulate_bounded(d.drop_last());
    }
}

/// Parses a catalog ID tag value into a number.
pub fn coerce_to_digit(cnid: String) -> (r: Result<u64, DigitError>)
    ensures
        r == spec_parse_u64(cnid@),
{
    let cs = chars_of(cnid.as_str());
    let n = cs.len();
    if n == 0 {
        return Err(DigitError::Empty);
    }
    if n == 1 && (cs[0] == '+' || cs[0] == '-') {
        return Err(DigitError::InvalidDigit);
    }
    let start: usize = if cs[0] == '+' { 1 } else { 0 };
    let ghost d = unsigned_digits(cs@);
    assert(d =~= cs@.subrange(start as int, n as int));
    let mut acc: u64 = 0;
    let mut i: usize = start;
    while i < n
        invariant
            cs@ == cnid@,
            n == cs@.len(),
            n >= 1,
            !(n == 1 && (cs@[0] == '+' || cs@[0] == '-')),
            d == unsigned_digits(cs@),
            start <= i <= n,
            d =~= cs@.subrange(start as int, n as int),
            accumulate_digits(d.take(i - start)) == Ok::<nat, DigitError>(acc as nat),
        decreases n - i,
    {
        let ghost prefix = d.take(i - start + 1);
        assert(prefix.drop_last() =~= d.take(i - start));
        assert(prefix.last() == cs@[i as int]);
        let c = cs[i];
        if !(c >= '0' && c <= '9') {
            proof {
                assert(!is_digit(prefix.last()));
                assert(accumulate_digits(prefix) == Err::<nat, DigitError>(DigitError::InvalidDigit));
                lemma_error_persists(d, (i - start + 1) as nat);
            }
            return Err(DigitError::InvalidDigit);
        }
        let dv: u64 = (c as u32 - '0' as u32) as u64;
        assert(dv as nat == digit_value(prefix.last()));
        if acc > 1844674407370955161 || (acc == 1844674407370955161 && dv > 5) {
            proof {
                assert(acc * 10 + dv > u64::MAX);
                assert(accumulate_digits(prefix) == Err::<nat, DigitError>(DigitError::PosOverflow));
                lemma_error_persists(d, (i - start + 1) as nat);
            }
            return Err(DigitError::PosOverflow);
        }
        acc = acc * 10 + dv;
        i = i + 1;
    }
    assert(d.take(n - start) =~= d);
    Ok(acc)
}

/// Once the left-to-right reading of a prefix stops with an error, the
/// reading of the whole text stops with the same error.
proof fn lemma_error_persists(d: Seq<char>, k: nat)
    requires
        k <= d.len(),
        accumulate_digits(d.take(k as int)) is Err,
    ensures
        accumulate_digits(d) == accumulate_digits(d.take(k as int)),
    decreases d.len() - k,
{
    if k < d.len() {
        let next = d.take(k as int + 1);
        assert(next.drop_last() =~= d.take(k as int));
        lemma_error_persists(d, k + 1);
    } else {
        assert(d.take(k as int) =~= d);
    }
}

/// The one-character text of the digit `d`.
fn digit_str(d: u64) -> (r: &'static str)
    requires
        d < 10,
    ensures
        r@ == seq![digit_char(d as nat)],
{
    if d == 0 {
        proof { reveal_strlit("0"); }
        "0"
    } else if d == 1 {
        proof { reveal_strlit("1"); }
        "1"
    } else if d == 2 {
        proof { reveal_strlit("2"); }
        "2"
    } else if d == 3 {
        proof { reveal_strlit("3"); }
        "3"
    } else if d == 4 {
        proof { reveal_strlit("4"); }
        "4"
    } else if d == 5 {
        proof { reveal_strlit("5"); }
        "5"
    } else if d == 6 {
        proof { reveal_strlit("6"); }
        "6"
    } else if d == 7 {
        proof { reveal_strlit("7"); }
        "7"
    } else if d == 8 {
        proof { reveal_strlit("8"); }
        "8"
    } else {
        proof { reveal_strlit("9"); }
        "9"
    }
}

/// Appends the decimal text of `n` to `out`.
pub fn push_decimal(out: &mut String, n: u64)
    ensures
        final(out)@ == old(out)@ + decimal_digits(n as nat),
    decreases n,
{
    if n >= 10 {
        push_decimal(out, n / 10);
    }
    out.append(digit_str(n % 10));
    proof {
        if n < 10 {
            assert(decimal_digits(n as nat) =~= seq![digit_char(n as nat)]);
        }
    }
}

/// The decimal text of `n`, as `n.to_string()` writes it.
pub fn u64_to_decimal(n: u64) -> (r: String)
    ensures
        r@ == decimal_digits(n as nat),
{
    let mut out = String::new();
    push_decimal(&mut out, n);
    out
}

proof fn lemma_digit_char(d: nat)
    requires
        d < 10,
    ensures
        is_digit(digit_char(d)),
        digit_value(digit_char(d)) == d,
{
}

proof fn lemma_decimal_digits_shape(n: nat)
    requires
        n <= u64::MAX,
    ensures
        decimal_digits(n).len() >= 1,
        is_digit(decimal_digits(n)[0]),
        accumulate_digits(decimal_digits(n)) == Ok::<nat, DigitError>(n),
    decreases n,
{
    lemma_digit_char(n % 10);
    if n >= 10 {
        lemma_decimal_digits_shape(n / 10);
        let s = decimal_digits(n);
        assert(s.last() == digit_char(n % 10));
        assert(s.drop_last() =~= decimal_digits(n / 10));
        assert(n == (n / 10) * 10 + n % 10);
        assert(accumulate_digits(s.drop_last()) == Ok::<nat, DigitError>(n / 10));
    } else {
        let s = decimal_digits(n);
        assert(s.drop_last() =~= Seq::<char>::empty());
        assert(accumulate_digits(s.drop_last()) == Ok::<nat, DigitError>(0));
        assert(s.last() == digit_char(n));
    }
}

/// Parse law: the decimal text of any `u64` parses back to it.
pub proof fn law_parse_reads_back_decimal(n: u64)
    ensures
        spec_parse_u64(decimal_digits(n as nat)) == Ok::<u64, DigitError>(n),
{
    lemma_decimal_digits_shape(n as nat);
}

} // verus!
