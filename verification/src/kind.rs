//! The closed set of value kinds and what each of them accepts.

use crate::error::ValidationError;
use crate::grammar::{card_fault, date_syntax, email_syntax, phone_syntax, web_address};
use crate::number::number_syntax;
use crate::otp::{canonical_secret, secret_syntax};
use crate::text::same_text;
use vstd::prelude::*;

verus! {

/// The kind of a value. It is stored beside the value's text, as a tag, and
/// decides how that text is checked when it is read back.
#[derive(Debug, PartialEq, Eq, Clone, Copy, Structural)]
pub enum ValueKind {
    Number,
    Text,
    LongText,
    SensitiveText,
    Date,
    Password,
    TOTPSecret,
    Url,
    Email,
    PhoneNumber,
    BankCardNumber,
}

impl ValueKind {
    /// The tag under which the kind is stored.
    pub open spec fn tag(self) -> Seq<char> {
        match self {
            ValueKind::Number => "Number"@,
            ValueKind::Text => "Text"@,
            ValueKind::LongText => "LongText"@,
            ValueKind::SensitiveText => "SensitiveText"@,
            ValueKind::Date => "Date"@,
            ValueKind::Password => "Password"@,
            ValueKind::TOTPSecret => "TOTPSecret"@,
            ValueKind::Url => "Url"@,
            ValueKind::Email => "Email"@,
            ValueKind::PhoneNumber => "PhoneNumber"@,
            ValueKind::BankCardNumber => "BankCardNumber"@,
        }
    }

    /// The kind that a tag stands for. A tag that is none of the eleven
    /// stands for nothing.
    pub open spec fn of_tag(tag: Seq<char>) -> Option<ValueKind> {
        if tag == "Number"@ {
            Some(ValueKind::Number)
        } else if tag == "Text"@ {
            Some(ValueKind::Text)
        } else if tag == "LongText"@ {
            Some(ValueKind::LongText)
        } else if tag == "SensitiveText"@ {
            Some(ValueKind::SensitiveText)
        } else if tag == "Date"@ {
            Some(ValueKind::Date)
        } else if tag == "Password"@ {
            Some(ValueKind::Password)
        } else if tag == "TOTPSecret"@ {
            Some(ValueKind::TOTPSecret)
        } else if tag == "Url"@ {
            Some(ValueKind::Url)
        } else if tag == "Email"@ {
            Some(ValueKind::Email)
        } else if tag == "PhoneNumber"@ {
            Some(ValueKind::PhoneNumber)
        } else if tag == "BankCardNumber"@ {
            Some(ValueKind::BankCardNumber)
        } else {
            None
        }
    }

    /// Kinds whose values never leave through the generic export.
    pub open spec fn secret(self) -> bool {
        matches!(
            self,
            ValueKind::SensitiveText | ValueKind::Password | ValueKind::TOTPSecret
                | ValueKind::BankCardNumber
        )
    }

    /// What is wrong with `text` as a value of this kind, if anything is.
    pub open spec fn fault(self, text: Seq<char>) -> Option<ValidationError> {
        match self {
            ValueKind::Number => if number_syntax(text) {
                None
            } else {
                Some(ValidationError::InvalidNumber)
            },
            ValueKind::Date => if date_syntax(text) {
                None
            } else {
                Some(ValidationError::InvalidDate)
            },
            ValueKind::TOTPSecret => if secret_syntax(text) {
                None
            } else {
                Some(ValidationError::InvalidOtpSecret)
            },
            ValueKind::Url => if web_address(text) {
                None
            } else {
                Some(ValidationError::InvalidUrl)
            },
            ValueKind::Email => if email_syntax(text) {
                None
            } else {
                Some(ValidationError::InvalidEmail)
            },
            ValueKind::PhoneNumber => if phone_syntax(text) {
                None
            } else {
                Some(ValidationError::InvalidPhoneNumber)
            },
            ValueKind::BankCardNumber => card_fault(text),
            ValueKind::Text | ValueKind::LongText | ValueKind::SensitiveText
            | ValueKind::Password => None,
        }
    }

    /// The grammar of the kind: the texts that a value of it can be made of.
    pub open spec fn accepts(self, text: Seq<char>) -> bool {
        self.fault(text) is None
    }

    /// The text that is kept for an accepted `text`. It is `text` itself but
    /// for a passcode secret, which is kept in its canonical notation.
    pub open spec fn canonical(self, text: Seq<char>) -> Seq<char> {
        if self == ValueKind::TOTPSecret {
            canonical_secret(text)
        } else {
            text
        }
    }

    /// The texts that are found in a value of this kind: accepted, and their
    /// own canonical form.
    pub open spec fn holds(self, text: Seq<char>) -> bool {
        self.accepts(text) && self.canonical(text) == text
    }

    pub fn as_str(&self) -> (tag: &'static str)
        ensures
            tag@ == self.tag(),
    {
        match self {
            ValueKind::Number => "Number",
            ValueKind::Text => "Text",
            ValueKind::LongText => "LongText",
            ValueKind::SensitiveText => "SensitiveText",
            ValueKind::Date => "Date",
            ValueKind::Password => "Password",
            ValueKind::TOTPSecret => "TOTPSecret",
            ValueKind::Url => "Url",
            ValueKind::Email => "Email",
            ValueKind::PhoneNumber => "PhoneNumber",
            ValueKind::BankCardNumber => "BankCardNumber",
        }
    }

    /// Reads a stored tag. An unknown tag is not guessed at.
    pub fn from_tag(tag: &str) -> (kind: Option<ValueKind>)
        ensures
            kind == ValueKind::of_tag(tag@),
    {
        if same_text(tag, "Number") {
            Some(ValueKind::Number)
        } else if same_text(tag, "Text") {
            Some(ValueKind::Text)
        } else if same_text(tag, "LongText") {
            Some(ValueKind::LongText)
        } else if same_text(tag, "SensitiveText") {
            Some(ValueKind::SensitiveText)
        } else if same_text(tag, "Date") {
            Some(ValueKind::Date)
        } else if same_text(tag, "Password") {
            Some(ValueKind::Password)
        } else if same_text(tag, "TOTPSecret") {
            Some(ValueKind::TOTPSecret)
        } else if same_text(tag, "Url") {
            Some(ValueKind::Url)
        } else if same_text(tag, "Email") {
            Some(ValueKind::Email)
        } else if same_text(tag, "PhoneNumber") {
            Some(ValueKind::PhoneNumber)
        } else if same_text(tag, "BankCardNumber") {
            Some(ValueKind::BankCardNumber)
        } else {
            None
        }
    }

    pub fn is_secret(&self) -> (secret: bool)
        ensures
            secret == self.secret(),
    {
        matches!(
            self,
            ValueKind::SensitiveText | ValueKind::Password | ValueKind::TOTPSecret
                | ValueKind::BankCardNumber
        )
    }
}

/// What reading a stored pair of tag and text gives: the kind and the text to
/// keep, or nothing where the tag is unknown or the text is not accepted.
pub open spec fn read_back(tag: Seq<char>, text: Seq<char>) -> Option<(ValueKind, Seq<char>)> {
    match ValueKind::of_tag(tag) {
        Some(kind) => if kind.accepts(text) {
            Some((kind, kind.canonical(text)))
        } else {
            None
        },
        None => None,
    }
}

/// Every kind is found again under its own tag.
pub proof fn lemma_tag_names_kind(kind: ValueKind)
    ensures
        ValueKind::of_tag(kind.tag()) == Some(kind),
{
    reveal_strlit("Number");
    reveal_strlit("Text");
    reveal_strlit("LongText");
    reveal_strlit("SensitiveText");
    reveal_strlit("Date");
    reveal_strlit("Password");
    reveal_strlit("TOTPSecret");
    reveal_strlit("Url");
    reveal_strlit("Email");
    reveal_strlit("PhoneNumber");
    reveal_strlit("BankCardNumber");
    assert("Number"@.len() == 6);
    assert("Text"@.len() == 4 && "Text"@[0] == 'T');
    assert("LongText"@.len() == 8 && "LongText"@[0] == 'L');
    assert("SensitiveText"@.len() == 13);
    assert("Date"@.len() == 4 && "Date"@[0] == 'D');
    assert("Password"@.len() == 8 && "Password"@[0] == 'P');
    assert("TOTPSecret"@.len() == 10);
    assert("Url"@.len() == 3);
    assert("Email"@.len() == 5);
    assert("PhoneNumber"@.len() == 11);
    assert("BankCardNumber"@.len() == 14);
}

/// Round trip: what a value holds, stored under its kind's tag and read back,
/// is the same kind and the same text.
pub proof fn lemma_stored_value_reads_back(kind: ValueKind, text: Seq<char>)
    requires
        kind.holds(text),
    ensures
        read_back(kind.tag(), text) == Some((kind, text)),
{
    lemma_tag_names_kind(kind);
}

} // verus!
