//! The lexical layer of the assembler: runs of letters, digits and white
//! space at the head of a text, and the value of a decimal numeral.

use vstd::prelude::*;
use vstd::string::StrSliceExecFns;

verus! {

/// One of the four characters that separate the words of a line.
pub open spec fn is_separator(c: char) -> bool {
    c == ' ' || c == '\t' || c == '\r' || c == '\n'
}

/// One of the characters `0` to `9`.
pub open spec fn is_decimal_digit(c: char) -> bool {
    '0' <= c <= '9'
}

/// The number of separators at the head of `s`.
pub open spec fn leading_separators(s: Seq<char>) -> nat
    decreases s.len(),
{
    if s.len() > 0 && is_separator(s[0]) {
        1 + leading_separators(s.drop_first())
    } else {
        0
    }
}

/// The number of decimal digits at the head of `s`.
pub open spec fn leading_digits(s: Seq<char>) -> nat
    decreases s.len(),
{
    if s.len() > 0 && is_decimal_digit(s[0]) {
        1 + leading_digits(s.drop_first())
    } else {
        0
    }
}

/// A decimal numeral: one digit or more, and nothing else.
pub open spec fn is_numeral(s: Seq<char>) -> bool {
    s.len() > 0 && forall|i: int| 0 <= i < s.len() ==> is_decimal_digit(#[trigger] s[i])
}

/// `s` without the separators at its head.
pub open spec fn without_leading_separators(s: Seq<char>) -> Seq<char> {
    s.skip(leading_separators(s) as int)
}

/// The number that the decimal numeral `digits` stands for.
pub open spec fn decimal_value(digits: Seq<char>) -> nat
    decreases digits.len(),
{
    if digits.len() == 0 {
        0
    } else {
        10 * decimal_value(digits.drop_last()) + (digits.last() as u32 - '0' as u32) as nat
    }
}

/// The run of letters at the head of a text and what follows it, as
/// `(rest, letters)`, or `None` where the text does not start with a
/// letter. Which characters are letters is Unicode's matter.
pub uninterp spec fn leading_letters(input: Seq<char>) -> Option<(Seq<char>, Seq<char>)>;

/// There are at most as many separators at the head of a text as the text
/// has characters.
pub proof fn lemma_leading_separators_bound(s: Seq<char>)
    ensures
        leading_separators(s) <= s.len(),
    decreases s.len(),
{
    if s.len() > 0 && is_separator(s[0]) {
        lemma_leading_separators_bound(s.drop_first());
    }
}

/// The digits at the head of a text are digits, and what follows them does
/// not start with one.
pub proof fn lemma_leading_digits(s: Seq<char>)
    ensures
        leading_digits(s) <= s.len(),
        forall|i: int| 0 <= i < leading_digits(s) ==> is_decimal_digit(#[trigger] s[i]),
        leading_digits(s) < s.len() ==> !is_decimal_digit(s[leading_digits(s) as int]),
    decreases s.len(),
{
    if s.len() > 0 && is_decimal_digit(s[0]) {
        let t = s.drop_first();
        lemma_leading_digits(t);
        assert forall|i: int| 0 <= i < leading_digits(s) implies is_decimal_digit(
            #[trigger] s[i],
        ) by {
            if i > 0 {
                assert(s[i] == t[i - 1]);
            }
        }
        if leading_digits(s) < s.len() {
            assert(s[leading_digits(s) as int] == t[leading_digits(t) as int]);
        }
    }
}

/// Splits the run of letters off the head of `input`: `(rest, letters)`.
///
/// Calls `nom::alpha1` on the whole text. The contract names what it
/// returns and claims of it what nom's source shows: the letters are not
/// empty, and the letters followed by the rest are the input.
#[verifier::external_body]
pub(crate) fn alpha1<'a>(input: &'a str) -> (r: Option<(&'a str, &'a str)>)
    ensures
        match r {
            Some((rest, letters)) => {
                &&& leading_letters(input@) == Some((rest@, letters@))
                &&& letters@.len() > 0
                &&& letters@ + rest@ == input@
            },
            None => leading_letters(input@) is None,
        },
{
    match nom::alpha1(nom::types::CompleteStr(input)) {
        Ok((rest, letters)) => Some((rest.0, letters.0)),
        Err(_) => None,
    }
}

/// Splits the run of decimal digits off the head of `input`:
/// `(rest, digits)`.
///
/// Calls `nom::digit` on the whole text. The contract claims that the
/// digits are the longest run of the characters `0` to `9` at the head of
/// the input, and that there is no result where that run is empty.
#[verifier::external_body]
pub(crate) fn digit<'a>(input: &'a str) -> (r: Option<(&'a str, &'a str)>)
    ensures
        match r {
            Some((rest, digits)) => {
                &&& leading_digits(input@) > 0
                &&& digits@ == input@.take(leading_digits(input@) as int)
                &&& rest@ == input@.skip(leading_digits(input@) as int)
            },
            None => leading_digits(input@) == 0,
        },
{
    match nom::digit(nom::types::CompleteStr(input)) {
        Ok((rest, digits)) => Some((rest.0, digits.0)),
        Err(_) => None,
    }
}

/// Drops the separators at the head of `input`.
///
/// Calls `nom::sp` on the whole text. The contract claims that what is
/// left is the input without the longest run of blanks, tabs, carriage
/// returns and line feeds at its head.
#[verifier::external_body]
pub(crate) fn sp<'a>(input: &'a str) -> (rest: &'a str)
    ensures
        rest@ == without_leading_separators(input@),
{
    match nom::sp(nom::types::CompleteStr(input)) {
        Ok((rest, _)) => rest.0,
        Err(_) => input,
    }
}

/// Splits the run of separators off the head of `input`, and gives what
/// is left of it.
///
/// Calls `nom::multispace` on the whole text. The contract claims that
/// there is no result where the input does not start with a blank, tab,
/// carriage return or line feed, and that the rest is else the input
/// without the longest run of them at its head.
#[verifier::external_body]
pub(crate) fn multispace<'a>(input: &'a str) -> (r: Option<&'a str>)
    ensures
        match r {
            Some(rest) => leading_separators(input@) > 0 && rest@ == without_leading_separators(
                input@,
            ),
            None => leading_separators(input@) == 0,
        },
{
    match nom::multispace(nom::types::CompleteStr(input)) {
        Ok((rest, _)) => Some(rest.0),
        Err(_) => None,
    }
}

/// Whether two texts hold the same characters.
pub fn same_text(a: &str, b: &str) -> (same: bool)
    ensures
        same == (a@ == b@),
{
    let n = a.unicode_len();
    if n != b.unicode_len() {
        return false;
    }
    let mut i: usize = 0;
    while i < n
        invariant
            i <= n,
            n == a@.len(),
            n == b@.len(),
            forall|k: int| 0 <= k < i ==> a@[k] == b@[k],
        decreases n - i,
    {
        if a.get_char(i) != b.get_char(i) {
            return false;
        }
        i += 1;
    }
    assert(a@ =~= b@);
    true
}

/// `input` without the character `sigil` at its head; `None` where it
/// does not start with `sigil`.
pub fn strip_sigil<'a>(input: &'a str, sigil: char) -> (r: Option<&'a str>)
    ensures
        match r {
            Some(rest) => input@.len() > 0 && input@[0] == sigil && rest@ == input@.drop_first(),
            None => input@.len() == 0 || input@[0] != sigil,
        },
{
    let n = input.unicode_len();
    if n > 0 && input.get_char(0) == sigil {
        Some(input.substring_char(1, n))
    } else {
        None
    }
}

/// The value of the decimal numeral `digits`, where it is one and its
/// value is at most `max`.
pub fn parse_decimal(digits: &str, max: u32) -> (value: Option<u32>)
    ensures
        value == (if is_numeral(digits@) && decimal_value(digits@) <= max {
            Some(decimal_value(digits@) as u32)
        } else {
            None
        }),
{
    let n = digits.unicode_len();
    if n == 0 {
        return None;
    }
    let mut value: u32 = 0;
    let mut i: usize = 0;
    assert(digits@.take(0) =~= Seq::<char>::empty());
    while i < n
        invariant
            i <= n,
            n == digits@.len(),
            value <= max,
            value == decimal_value(digits@.take(i as int)),
            forall|k: int| 0 <= k < i ==> is_decimal_digit(#[trigger] digits@[k]),
        decreases n - i,
    {
        let c = digits.get_char(i);
        if c < '0' || c > '9' {
            return None;
        }
        let d: u64 = (c as u32 - '0' as u32) as u64;
        let next: u64 = value as u64 * 10 + d;
        proof {
            let head = digits@.take(i + 1);
            assert(head.drop_last() =~= digits@.take(i as int));
            assert(head.last() == c);
            assert(decimal_value(head) == next);
            if next > max {
                lemma_decimal_value_grows(digits@, i + 1);
            }
        }
        if next > max as u64 {
            return None;
        }
        value = next as u32;
        i += 1;
    }
    assert(digits@.take(i as int) =~= digits@);
    Some(value)
}

/// The value of a numeral is at least the value of each of its heads.
pub proof fn lemma_decimal_value_grows(digits: Seq<char>, i: int)
    requires
        0 <= i <= digits.len(),
    ensures
        decimal_value(digits.take(i)) <= decimal_value(digits),
    decreases digits.len() - i,
{
    if i < digits.len() {
        let head = digits.take(i + 1);
        assert(head.drop_last() =~= digits.take(i));
        lemma_decimal_value_grows(digits, i + 1);
    } else {
        assert(digits.take(i) =~= digits);
    }
}

} // verus!
