//! Text: trimming, decimal numbers, quoting.
use vstd::prelude::*;

verus! {

/// The characters with Unicode's `White_Space` property.
pub open spec fn is_white_space(c: char) -> bool {
    ||| '\u{9}' <= c <= '\u{d}'
    ||| c == '\u{20}'
    ||| c == '\u{85}'
    ||| c == '\u{a0}'
    ||| c == '\u{1680}'
    ||| '\u{2000}' <= c <= '\u{200a}'
    ||| c == '\u{2028}'
    ||| c == '\u{2029}'
    ||| c == '\u{202f}'
    ||| c == '\u{205f}'
    ||| c == '\u{3000}'
}

/// `text` without the white space it starts with.
pub open spec fn without_leading_space(text: Seq<char>) -> Seq<char>
    decreases text.len(),
{
    if text.len() > 0 && is_white_space(text.first()) {
        without_leading_space(text.drop_first())
    } else {
        text
    }
}

/// `text` without the white space it ends with.
pub open spec fn without_trailing_space(text: Seq<char>) -> Seq<char>
    decreases text.len(),
{
    if text.len() > 0 && is_white_space(text.last()) {
        without_trailing_space(text.drop_last())
    } else {
        text
    }
}

/// `text` without the white space around it.
pub open spec fn trimmed(text: Seq<char>) -> Seq<char> {
    without_trailing_space(without_leading_space(text))
}

/// Trusted: `str::trim` takes the white space off both ends of a string,
/// white space being what Unicode's `White_Space` property says.
pub assume_specification[ str::trim ](text: &str) -> (rest: &str)
    ensures
        rest@ == trimmed(text@),
;

pub open spec fn is_digit(c: char) -> bool {
    '0' <= c <= '9'
}

/// That a text holds decimal digits and nothing else.
pub open spec fn all_digits(text: Seq<char>) -> bool {
    forall|i: int| 0 <= i < text.len() ==> is_digit(#[trigger] text[i])
}

/// What a run of decimal digits denotes.
pub open spec fn digits_value(digits: Seq<char>) -> nat
    decreases digits.len(),
{
    if digits.len() == 0 {
        0
    } else {
        digits_value(digits.drop_last()) * 10 + (digits.last() as nat - '0' as nat) as nat
    }
}

/// The number that `text` denotes: an optional plus sign, then one or more
/// decimal digits and nothing else.
pub open spec fn unsigned_decimal(text: Seq<char>) -> Option<nat> {
    let digits = if text.len() > 0 && text.first() == '+' {
        text.drop_first()
    } else {
        text
    };
    if digits.len() > 0 && all_digits(digits) {
        Some(digits_value(digits))
    } else {
        None
    }
}

/// The number that `text` denotes, when it is at most `limit`.
pub open spec fn decimal_within(text: Seq<char>, limit: nat) -> Option<nat> {
    match unsigned_decimal(text) {
        Some(value) if value <= limit => Some(value),
        _ => None,
    }
}

/// Trusted: `str::parse::<u16>` reads an optional plus sign and decimal digits,
/// and fails on any other text and on numbers that a `u16` cannot hold.
#[verifier::external_body]
pub(crate) fn parse_u16(text: &str) -> (value: Option<u16>)
    ensures
        decimal_within(text@, u16::MAX as nat) == match value {
            Some(number) => Some(number as nat),
            None => None::<nat>,
        },
{
    text.parse::<u16>().ok()
}

/// Trusted: `str::parse::<usize>` reads an optional plus sign and decimal
/// digits, and fails on any other text and on numbers that a `usize` cannot hold.
#[verifier::external_body]
pub(crate) fn parse_usize(text: &str) -> (value: Option<usize>)
    ensures
        decimal_within(text@, usize::MAX as nat) == match value {
            Some(number) => Some(number as nat),
            None => None::<nat>,
        },
{
    text.parse::<usize>().ok()
}

/// The decimal digit that denotes `value`.
pub open spec fn digit(value: nat) -> char {
    ('0' as nat + value) as char
}

/// `value` in decimal, without leading zeros.
pub open spec fn decimal(value: nat) -> Seq<char>
    decreases value,
{
    if value < 10 {
        seq![digit(value)]
    } else {
        decimal(value / 10).push(digit(value % 10))
    }
}

/// Trusted: `usize::to_string` writes a number in decimal, without leading
/// zeros, sign or separators.
#[verifier::external_body]
pub(crate) fn usize_to_string(value: usize) -> (text: String)
    ensures
        text@ == decimal(value as nat),
{
    value.to_string()
}

/// What `{:?}` makes of a string: the text in quotes, with escapes.
pub uninterp spec fn quoted(text: Seq<char>) -> Seq<char>;

/// Trusted: `{:?}` of a string depends on nothing but the string. Which
/// characters it escapes is left unsaid.
#[verifier::external_body]
pub(crate) fn quote(text: &str) -> (result: String)
    ensures
        result@ == quoted(text@),
{
    format!("{:?}", text)
}

/// Writing a number in decimal and reading it back gives the number.
pub proof fn decimal_reads_back(value: nat)
    ensures
        unsigned_decimal(decimal(value)) == Some(value),
{
    lemma_decimal(value);
    let text = decimal(value);
    assert(is_digit(text[0]));
}

proof fn lemma_decimal(value: nat)
    ensures
        decimal(value).len() > 0,
        all_digits(decimal(value)),
        digits_value(decimal(value)) == value,
    decreases value,
{
    if value < 10 {
        assert(decimal(value).drop_last() =~= Seq::<char>::empty());
        assert(digits_value(decimal(value).drop_last()) == 0);
    } else {
        lemma_decimal(value / 10);
        assert(decimal(value).drop_last() =~= decimal(value / 10));
    }
}

/// A string that starts and ends with other than white space stays as it is.
pub proof fn trimming_keeps_inner_text(text: Seq<char>)
    requires
        text.len() > 0,
        !is_white_space(text.first()),
        !is_white_space(text.last()),
    ensures
        trimmed(text) == text,
{
}

/// Trimming twice is trimming once.
pub proof fn trimming_is_idempotent(text: Seq<char>)
    ensures
        trimmed(trimmed(text)) == trimmed(text),
{
    let started = without_leading_space(text);
    lemma_leading(text);
    lemma_trailing(started);
}

proof fn lemma_leading(text: Seq<char>)
    ensures
        ({
            let rest = without_leading_space(text);
            rest.len() > 0 ==> !is_white_space(rest.first())
        }),
    decreases text.len(),
{
    if text.len() > 0 && is_white_space(text.first()) {
        lemma_leading(text.drop_first());
    }
}

proof fn lemma_trailing(text: Seq<char>)
    ensures
        ({
            let rest = without_trailing_space(text);
            &&& rest.len() > 0 ==> !is_white_space(rest.last())
            &&& rest.len() > 0 ==> rest.first() == text.first()
        }),
    decreases text.len(),
{
    if text.len() > 0 && is_white_space(text.last()) {
        lemma_trailing(text.drop_last());
    }
}

} // verus!
