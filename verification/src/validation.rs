//! Checks that the presentation layer asks for while a form is filled in.

use crate::error::ValidationError;
use crate::grammar::{
    card_brand, card_brand_of, card_fault_of, is_date, is_email, is_phone, is_web_address,
};
use crate::kind::ValueKind;
use crate::model::{Value, ValueView};
use crate::number::parse_number;
use crate::otp::Generator;
use crate::text::{blank, is_blank, same_text};
use vstd::prelude::*;
use vstd::string::StringExecFns;

verus! {

/// What is wrong with `value` as the content of a form field whose kind has
/// the tag `kind`. A kind with a grammar asks for its grammar. A long text
/// asks for nothing. Every other field, of a kind without a grammar or of a
/// kind that is not known, asks for some content.
pub open spec fn form_fault(kind: Seq<char>, value: Seq<char>) -> Option<ValidationError> {
    match ValueKind::of_tag(kind) {
        Some(ValueKind::LongText) => None,
        Some(ValueKind::Number) => ValueKind::Number.fault(value),
        Some(ValueKind::Date) => ValueKind::Date.fault(value),
        Some(ValueKind::TOTPSecret) => ValueKind::TOTPSecret.fault(value),
        Some(ValueKind::Url) => ValueKind::Url.fault(value),
        Some(ValueKind::Email) => ValueKind::Email.fault(value),
        Some(ValueKind::PhoneNumber) => ValueKind::PhoneNumber.fault(value),
        Some(ValueKind::BankCardNumber) => ValueKind::BankCardNumber.fault(value),
        _ => if blank(value) {
            Some(ValidationError::EmptyValue)
        } else {
            None
        },
    }
}

/// Finds what is wrong with `value` as the content of a form field whose
/// kind has the tag `kind`.
pub fn check(kind: &str, value: &str) -> (fault: Option<ValidationError>)
    ensures
        fault == form_fault(kind@, value@),
{
    match ValueKind::from_tag(kind) {
        Some(ValueKind::LongText) => None,
        Some(ValueKind::Number) => if parse_number(value).is_some() {
            None
        } else {
            Some(ValidationError::InvalidNumber)
        },
        Some(ValueKind::Date) => if is_date(value) {
            None
        } else {
            Some(ValidationError::InvalidDate)
        },
        Some(ValueKind::TOTPSecret) => if Generator::from_secret(value).is_some() {
            None
        } else {
            Some(ValidationError::InvalidOtpSecret)
        },
        Some(ValueKind::Url) => if is_web_address(value) {
            None
        } else {
            Some(ValidationError::InvalidUrl)
        },
        Some(ValueKind::Email) => if is_email(value) {
            None
        } else {
            Some(ValidationError::InvalidEmail)
        },
        Some(ValueKind::PhoneNumber) => if is_phone(value) {
            None
        } else {
            Some(ValidationError::InvalidPhoneNumber)
        },
        Some(ValueKind::BankCardNumber) => card_fault_of(value),
        _ => if is_blank(value) {
            Some(ValidationError::EmptyValue)
        } else {
            None
        },
    }
}

/// Validates `value` for a form field whose kind has the tag `kind`:
/// nothing where it is fine, and otherwise the message to show.
pub fn validate(kind: &str, value: &str) -> (message: Option<String>)
    ensures
        match message {
            Some(text) => form_fault(kind@, value@) matches Some(fault) && text@ == fault.text(),
            None => form_fault(kind@, value@) is None,
        },
{
    match check(kind, value) {
        Some(fault) => Some(String::from_str(fault.message())),
        None => None,
    }
}

/// What passes the form is accepted by the constructor: validation is never
/// more lenient than construction.
pub proof fn lemma_valid_form_value_is_accepted(kind: ValueKind, value: Seq<char>)
    requires
        form_fault(kind.tag(), value) is None,
    ensures
        kind.accepts(value),
{
    crate::kind::lemma_tag_names_kind(kind);
}

/// The label of a card brand, given the name that `card_validate` has for
/// it. A name that is none of the twelve is labelled `Unknown`.
pub open spec fn brand_label(name: Seq<char>) -> Seq<char> {
    if name == "visaelectron"@ {
        "Visa Electron"@
    } else if name == "maestro"@ {
        "Maestro"@
    } else if name == "forbrugsforeningen"@ {
        "Forbrugsforeningen"@
    } else if name == "dankort"@ {
        "Dankort"@
    } else if name == "visa"@ {
        "Visa"@
    } else if name == "mir"@ {
        "MIR"@
    } else if name == "mastercard"@ {
        "MasterCard"@
    } else if name == "amex"@ {
        "American Express"@
    } else if name == "dinersclub"@ {
        "Diners Club"@
    } else if name == "discover"@ {
        "Discover"@
    } else if name == "unionpay"@ {
        "UnionPay"@
    } else if name == "jcb"@ {
        "JCB"@
    } else {
        "Unknown"@
    }
}

/// The label of a card brand, given the name that `card_validate` has for
/// it.
pub fn label_of_brand(name: &str) -> (label: &'static str)
    ensures
        label@ == brand_label(name@),
{
    if same_text(name, "visaelectron") {
        "Visa Electron"
    } else if same_text(name, "maestro") {
        "Maestro"
    } else if same_text(name, "forbrugsforeningen") {
        "Forbrugsforeningen"
    } else if same_text(name, "dankort") {
        "Dankort"
    } else if same_text(name, "visa") {
        "Visa"
    } else if same_text(name, "mir") {
        "MIR"
    } else if same_text(name, "mastercard") {
        "MasterCard"
    } else if same_text(name, "amex") {
        "American Express"
    } else if same_text(name, "dinersclub") {
        "Diners Club"
    } else if same_text(name, "discover") {
        "Discover"
    } else if same_text(name, "unionpay") {
        "UnionPay"
    } else if same_text(name, "jcb") {
        "JCB"
    } else {
        "Unknown"
    }
}

/// Why no card brand can be named.
#[derive(Debug, PartialEq, Eq, Clone, Copy, Structural)]
pub enum CardTypeError {
    /// The value is not a bank card number.
    NotACardNumber,
    /// The number points to no brand.
    NoBrand,
}

impl CardTypeError {
    pub open spec fn text(self) -> Seq<char> {
        match self {
            CardTypeError::NotACardNumber => "Content is not a bank card number"@,
            CardTypeError::NoBrand => "Failed to evaluate card type"@,
        }
    }

    pub fn message(&self) -> (message: &'static str)
        ensures
            message@ == self.text(),
    {
        match self {
            CardTypeError::NotACardNumber => "Content is not a bank card number",
            CardTypeError::NoBrand => "Failed to evaluate card type",
        }
    }
}

/// The brand of the card whose number `value` holds, as a label to show.
pub open spec fn card_type_of(value: ValueView) -> Result<Seq<char>, CardTypeError> {
    if value.kind != ValueKind::BankCardNumber {
        Err(CardTypeError::NotACardNumber)
    } else {
        match card_brand(value.text) {
            Some(name) => Ok(brand_label(name)),
            None => Err(CardTypeError::NoBrand),
        }
    }
}

/// Names the brand of the card whose number `value` holds.
pub fn card_type(value: &Value) -> (brand: Result<&'static str, CardTypeError>)
    ensures
        match brand {
            Ok(label) => card_type_of(value@) == Ok::<Seq<char>, CardTypeError>(label@),
            Err(e) => card_type_of(value@) == Err::<Seq<char>, CardTypeError>(e),
        },
{
    match value {
        Value::BankCardNumber(number) => match card_brand_of(number.value()) {
            Some(name) => Ok(label_of_brand(name.as_str())),
            None => Err(CardTypeError::NoBrand),
        },
        _ => Err(CardTypeError::NotACardNumber),
    }
}

} // verus!
