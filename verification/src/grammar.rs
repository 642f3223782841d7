//! The grammar of each value kind.
//!
//! The shape of a date and the notation of an IPv4 address are written out
//! here; plain decimal numbers are in [`crate::number`]. The other grammars
//! belong to the crates that define them; each is reached through one
//! trusted function and known to the contracts by a name of its own.

use crate::error::ValidationError;
use crate::number::{all_digits, decimal, is_digit};
use vstd::prelude::*;

verus! {

/// Whether `text` is accepted by `chrono` as a `NaiveDate`: a year, a month
/// and a day of the proleptic Gregorian calendar, separated by `-`. The
/// notation that `chrono` reads is wider than that of [`iso_shape`]: it
/// takes a sign before the year, numbers of fewer digits, and blanks.
pub uninterp spec fn calendar_date(text: Seq<char>) -> bool;

/// Whether `text` has the shape `YYYY-MM-DD`: ten characters, digits but
/// for the two hyphens.
pub open spec fn iso_shape(text: Seq<char>) -> bool {
    &&& text.len() == 10
    &&& forall|i: int| 0 <= i < 10 && i != 4 && i != 7 ==> is_digit(#[trigger] text[i])
    &&& text[4] == '-'
    &&& text[7] == '-'
}

/// Whether `text` is a date: of the shape `YYYY-MM-DD`, and a day of the
/// calendar.
pub open spec fn date_syntax(text: Seq<char>) -> bool {
    iso_shape(text) && calendar_date(text)
}

/// Whether `text` parses as a URL (WHATWG rules, as implemented by `url`).
pub uninterp spec fn url_syntax(text: Seq<char>) -> bool;

/// Whether `run` is one number of an IPv4 address: one to three digits, at
/// most 255, without a zero in front of another digit.
pub open spec fn octet(run: Seq<char>) -> bool {
    &&& 1 <= run.len() <= 3
    &&& all_digits(run)
    &&& decimal(run) <= 255
    &&& run.len() == 1 || run[0] != '0'
}

/// Whether `text` is four octets, divided by dots at `a`, `b` and `c`.
pub open spec fn dotted_quad(text: Seq<char>, a: int, b: int, c: int) -> bool {
    &&& 0 < a < b < c < text.len()
    &&& text[a] == '.'
    &&& text[b] == '.'
    &&& text[c] == '.'
    &&& octet(text.subrange(0, a))
    &&& octet(text.subrange(a + 1, b))
    &&& octet(text.subrange(b + 1, c))
    &&& octet(text.subrange(c + 1, text.len() as int))
}

/// Whether `text` is an IPv4 address in dotted decimal notation: four
/// octets divided by dots, and nothing else.
pub open spec fn ip_v4_syntax(text: Seq<char>) -> bool {
    exists|a: int, b: int, c: int| dotted_quad(text, a, b, c)
}

/// Whether `text` is an IPv6 address.
pub uninterp spec fn ip_v6_syntax(text: Seq<char>) -> bool;

/// Whether `text` is an e-mail address in the sense of the HTML5 form rules.
pub uninterp spec fn email_syntax(text: Seq<char>) -> bool;

/// Whether `text` is a valid phone number in international notation.
pub uninterp spec fn phone_syntax(text: Seq<char>) -> bool;

/// What is wrong with `text` as a bank card number: nothing, or a fault of
/// its format, its brand, its length or its check digit, looked for in that
/// order.
pub uninterp spec fn card_fault(text: Seq<char>) -> Option<ValidationError>;

/// Trusted: `str::parse::<chrono::NaiveDate>`. The answer is a function of
/// the text alone.
#[verifier::external_body]
pub(crate) fn is_calendar_date(text: &str) -> (ok: bool)
    ensures
        ok == calendar_date(text@),
{
    text.parse::<chrono::NaiveDate>().is_ok()
}

/// Trusted: `validator::validate_url`, which is `url::Url::parse(..).is_ok()`.
#[verifier::external_body]
pub(crate) fn is_url(text: &str) -> (ok: bool)
    ensures
        ok == url_syntax(text@),
{
    validator::validate_url(text)
}

/// Trusted: `validator::validate_ip_v4`, which parses the text as an
/// `IpAddr` and asks whether it is of version 4. An address of version 4 is
/// written as four decimal octets divided by dots; octal and hexadecimal
/// numbers, and with them a zero in front, are not allowed.
#[verifier::external_body]
pub(crate) fn is_ip_v4(text: &str) -> (ok: bool)
    ensures
        ok == ip_v4_syntax(text@),
{
    validator::validate_ip_v4(text)
}

/// Trusted: `validator::validate_ip_v6`, which parses the text as an
/// `IpAddr` and asks whether it is of version 6.
#[verifier::external_body]
pub(crate) fn is_ip_v6(text: &str) -> (ok: bool)
    ensures
        ok == ip_v6_syntax(text@),
{
    validator::validate_ip_v6(text)
}

/// Trusted: `validator::validate_email`.
#[verifier::external_body]
pub(crate) fn is_email(text: &str) -> (ok: bool)
    ensures
        ok == email_syntax(text@),
{
    validator::validate_email(text)
}

/// Trusted: `validator::validate_phone`, which parses the text without a
/// default region and asks `phonenumber` whether the number is valid.
#[verifier::external_body]
pub(crate) fn is_phone(text: &str) -> (ok: bool)
    ensures
        ok == phone_syntax(text@),
{
    validator::validate_phone(text)
}

/// Trusted: `card_validate::Validate::from`. Each of its errors is handed on
/// under this crate's name for it; an error added to that crate later comes
/// out as `CardUnknownError`.
#[verifier::external_body]
pub(crate) fn card_fault_of(text: &str) -> (fault: Option<ValidationError>)
    ensures
        fault == card_fault(text@),
{
    match card_validate::Validate::from(text) {
        Ok(_) => None,
        Err(card_validate::ValidateError::InvalidFormat) => Some(ValidationError::CardInvalidFormat),
        Err(card_validate::ValidateError::InvalidLength) => Some(ValidationError::CardInvalidLength),
        Err(card_validate::ValidateError::InvalidLuhn) => Some(ValidationError::CardInvalidLuhn),
        Err(card_validate::ValidateError::UnknownType) => Some(ValidationError::CardUnknownType),
        Err(_) => Some(ValidationError::CardUnknownError),
    }
}

/// The brand that the leading digits of a card number point to, by the name
/// that `card_validate` has for it; nothing where the text is not made of
/// digits or points to no brand.
pub uninterp spec fn card_brand(text: Seq<char>) -> Option<Seq<char>>;

/// Trusted: `card_validate::Validate::evaluate_type`, with the brand handed
/// on by its `name`.
#[verifier::external_body]
pub(crate) fn card_brand_of(text: &str) -> (brand: Option<String>)
    ensures
        brand matches Some(name) ==> card_brand(text@) == Some(name@),
        brand is None ==> card_brand(text@) is None,
{
    card_validate::Validate::evaluate_type(text).ok().map(|brand| brand.name())
}

/// Tests [`iso_shape`].
pub fn has_iso_shape(text: &str) -> (ok: bool)
    ensures
        ok == iso_shape(text@),
{
    if text.unicode_len() != 10 {
        return false;
    }
    let mut i: usize = 0;
    while i < 10
        invariant
            i <= 10,
            text@.len() == 10,
            forall|j: int| 0 <= j < i && j != 4 && j != 7 ==> is_digit(#[trigger] text@[j]),
            i > 4 ==> text@[4] == '-',
            i > 7 ==> text@[7] == '-',
        decreases 10 - i,
    {
        let c = text.get_char(i);
        if i == 4 || i == 7 {
            if c != '-' {
                return false;
            }
        } else if !('0' <= c && c <= '9') {
            return false;
        }
        i += 1;
    }
    true
}

/// Tests [`date_syntax`].
pub fn is_date(text: &str) -> (ok: bool)
    ensures
        ok == date_syntax(text@),
{
    has_iso_shape(text) && is_calendar_date(text)
}

/// The text is a URL or the literal of an IP address.
pub open spec fn web_address(text: Seq<char>) -> bool {
    url_syntax(text) || ip_v4_syntax(text) || ip_v6_syntax(text)
}

/// Tests [`web_address`].
pub fn is_web_address(text: &str) -> (ok: bool)
    ensures
        ok == web_address(text@),
{
    is_url(text) || is_ip_v4(text) || is_ip_v6(text)
}

} // verus!
