use vstd::prelude::*;

verus! {

/// Whether `c` is an ASCII decimal digit.
pub open spec fn is_decimal_digit(c: char) -> bool {
    '0' <= c && c <= '9'
}

/// The number that a string of decimal digits spells, most significant digit first.
pub open spec fn digits_value(s: Seq<char>) -> int
    decreases s.len(),
{
    if s.len() == 0 {
        0
    } else {
        digits_value(s.drop_last()) * 10 + (s.last() as int - '0' as int)
    }
}

/// The `u32` that `s` spells in decimal, as Rust's integer parsing reads it:
/// an optional `+`, then one or more ASCII digits, with a value that fits.
pub open spec fn decimal_u32(s: Seq<char>) -> Option<u32> {
    let digits = unsigned_digits(s);
    if digits.len() > 0 && all_decimal_digits(digits) && digits_value(digits) <= u32::MAX {
        Some(digits_value(digits) as u32)
    } else {
        None
    }
}

/// The text after an optional leading `+`.
pub open spec fn unsigned_digits(s: Seq<char>) -> Seq<char> {
    if s.len() > 0 && s[0] == '+' {
        s.drop_first()
    } else {
        s
    }
}

/// Whether every character of `s` is an ASCII decimal digit.
pub open spec fn all_decimal_digits(s: Seq<char>) -> bool {
    forall|i: int| 0 <= i < s.len() ==> is_decimal_digit(#[trigger] s[i])
}

/// The character of the decimal digit `d` (0 to 9).
pub open spec fn digit_char(d: nat) -> char {
    ('0' as nat + d) as char
}

/// The decimal spelling of `n`, without sign or leading zeros.
pub open spec fn decimal_string(n: nat) -> Seq<char>
    decreases n,
{
    if n < 10 {
        seq![digit_char(n)]
    } else {
        decimal_string(n / 10) + seq![digit_char(n % 10)]
    }
}

/// The decimal spelling of a number is made of digits only and spells that number.
pub proof fn lemma_decimal_string_digits(n: nat)
    ensures
        decimal_string(n).len() > 0,
        forall|i: int| 0 <= i < decimal_string(n).len() ==> is_decimal_digit(#[trigger] decimal_string(n)[i]),
        digits_value(decimal_string(n)) == n,
    decreases n,
{
    assert(digit_char(n % 10) as int - '0' as int == n % 10);
    if n >= 10 {
        lemma_decimal_string_digits(n / 10);
        let s = decimal_string(n);
        assert(s.drop_last() =~= decimal_string(n / 10));
        assert(s.last() == digit_char(n % 10));
        assert((n / 10) * 10 + n % 10 == n);
        assert(digits_value(s) == digits_value(s.drop_last()) * 10 + (s.last() as int - '0' as int));
        assert(digits_value(s.drop_last()) == n / 10);
    } else {
        let s = decimal_string(n);
        assert(s.drop_last() =~= Seq::<char>::empty());
        assert(digits_value(s.drop_last()) == 0);
        assert(s.last() == digit_char(n));
        assert(n % 10 == n);
    }
}

/// Reading back the decimal spelling of a `u32` gives the number: the ids
/// that the library writes into properties are the ids that are read from them.
pub proof fn lemma_decimal_round_trip(n: u32)
    ensures
        decimal_u32(decimal_string(n as nat)) == Some(n),
{
    lemma_decimal_string_digits(n as nat);
    let s = decimal_string(n as nat);
    assert(is_decimal_digit(s[0]));
}

/// What parsing refuses: an empty text, a lone `+`, and any text with a
/// character that is not a digit after the optional leading `+` (a sign `-`
/// among them); what it accepts spells its number.
pub proof fn lemma_decimal_refusals(s: Seq<char>, i: int)
    ensures
        decimal_u32(Seq::<char>::empty()) is None,
        decimal_u32(seq!['+']) is None,
        0 <= i < s.len() && !is_decimal_digit(s[i]) && !(i == 0 && s[0] == '+') ==> decimal_u32(s) is None,
        s.len() > 0 && s[0] == '-' ==> decimal_u32(s) is None,
        (forall|j: int| 0 <= j < s.len() ==> is_decimal_digit(#[trigger] s[j])) && s.len() > 0
            && digits_value(s) <= u32::MAX ==> decimal_u32(s) == Some(digits_value(s) as u32),
{
    assert(seq!['+'].drop_first().len() == 0);
    if 0 <= i < s.len() && !is_decimal_digit(s[i]) && !(i == 0 && s[0] == '+') {
        if s.len() > 0 && s[0] == '+' {
            let digits = s.drop_first();
            assert(digits[i - 1] == s[i]);
            assert(!is_decimal_digit(digits[i - 1]));
        } else {
            assert(!is_decimal_digit(s[i]));
        }
    }
    if s.len() > 0 && s[0] == '-' {
        assert(!is_decimal_digit(s[0]));
        assert(s[0] != '+');
        let digits = if s.len() > 0 && s[0] == '+' { s.drop_first() } else { s };
        assert(digits == s);
        assert(!(forall|j: int| 0 <= j < digits.len() ==> is_decimal_digit(#[trigger] digits[j])));
        assert(decimal_u32(s) == (if digits.len() > 0 && (forall|j: int| 0 <= j < digits.len() ==> is_decimal_digit(#[trigger] digits[j]))
            && digits_value(digits) <= u32::MAX { Some(digits_value(digits) as u32) } else { None }));
        assert(decimal_u32(s) is None);
    }
}

/// Parses `s` as a decimal `u32` with std's `str::parse::<u32>`.
/// Trusted: the result is what std documents for integer parsing, an optional
/// `+` followed by digits only, and no value out of range.
#[verifier::external_body]
pub(crate) fn parse_u32(s: &str) -> (r: Option<u32>)
    ensures
        r == decimal_u32(s@),
{
    s.parse::<u32>().ok()
}

/// Formats `n` in decimal with std's `ToString`.
/// Trusted: the result is the plain decimal spelling of `n`.
#[verifier::external_body]
pub(crate) fn u32_to_string(n: u32) -> (s: String)
    ensures
        s@ == decimal_string(n as nat),
{
    n.to_string()
}

} // verus!
