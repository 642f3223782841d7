//! The typed values that a field of a record can hold.
//!
//! Each kind of value has a type of its own whose constructor checks the raw
//! text once. A value that exists is valid for its kind; there is no other
//! state. Changing a value runs the same check, and a rejected change leaves
//! the value as it was.

use crate::error::ValidationError;
use crate::grammar::{
    card_fault, card_fault_of, date_syntax, email_syntax, is_date, is_email, is_phone,
    is_web_address, phone_syntax, web_address,
};
use crate::number::{number_syntax, parse_number};
use crate::otp::{canonical_secret, secret_syntax, Generator};
use crate::secret::SecretValue;
use vstd::prelude::*;

verus! {

/// A short free text.
#[derive(Debug, PartialEq)]
pub struct Text {
    value: SecretValue,
}

impl View for Text {
    type V = Seq<char>;

    closed spec fn view(&self) -> Seq<char> {
        self.value@
    }
}

impl Text {
    pub fn new(value: String) -> (made: Text)
        ensures
            made@ == value@,
    {
        Text { value: SecretValue::new(value) }
    }

    pub fn value(&self) -> (text: &str)
        ensures
            text@ == self@,
    {
        self.value.expose_secret()
    }

    /// Replaces the text; the old one is wiped.
    pub fn set_value(&mut self, value: String)
        ensures
            final(self)@ == value@,
    {
        self.value = SecretValue::new(value);
    }
}

/// A free text of any length.
#[derive(Debug, PartialEq)]
pub struct LongText {
    value: SecretValue,
}

impl View for LongText {
    type V = Seq<char>;

    closed spec fn view(&self) -> Seq<char> {
        self.value@
    }
}

impl LongText {
    pub fn new(value: String) -> (made: LongText)
        ensures
            made@ == value@,
    {
        LongText { value: SecretValue::new(value) }
    }

    pub fn value(&self) -> (text: &str)
        ensures
            text@ == self@,
    {
        self.value.expose_secret()
    }

    /// Replaces the text; the old one is wiped.
    pub fn set_value(&mut self, value: String)
        ensures
            final(self)@ == value@,
    {
        self.value = SecretValue::new(value);
    }
}

/// A free text that is never exported, only revealed on request.
#[derive(Debug, PartialEq)]
pub struct SensitiveText {
    value: SecretValue,
}

impl View for SensitiveText {
    type V = Seq<char>;

    closed spec fn view(&self) -> Seq<char> {
        self.value@
    }
}

impl SensitiveText {
    pub fn new(value: String) -> (made: SensitiveText)
        ensures
            made@ == value@,
    {
        SensitiveText { value: SecretValue::new(value) }
    }

    pub fn value(&self) -> (text: &str)
        ensures
            text@ == self@,
    {
        self.value.expose_secret()
    }

    /// Replaces the text; the old one is wiped.
    pub fn set_value(&mut self, value: String)
        ensures
            final(self)@ == value@,
    {
        self.value = SecretValue::new(value);
    }
}

/// A password. Never exported, only revealed on request.
#[derive(Debug, PartialEq)]
pub struct Password {
    value: SecretValue,
}

impl View for Password {
    type V = Seq<char>;

    closed spec fn view(&self) -> Seq<char> {
        self.value@
    }
}

impl Password {
    pub fn new(value: String) -> (made: Password)
        ensures
            made@ == value@,
    {
        Password { value: SecretValue::new(value) }
    }

    pub fn value(&self) -> (text: &str)
        ensures
            text@ == self@,
    {
        self.value.expose_secret()
    }

    /// Replaces the text; the old one is wiped.
    pub fn set_value(&mut self, value: String)
        ensures
            final(self)@ == value@,
    {
        self.value = SecretValue::new(value);
    }
}

/// A signed 64-bit integer in plain decimal notation.
#[derive(Debug, PartialEq)]
pub struct Number {
    value: SecretValue,
}

impl View for Number {
    type V = Seq<char>;

    closed spec fn view(&self) -> Seq<char> {
        self.value@
    }
}

impl Number {
    #[verifier::type_invariant]
    closed spec fn valid(&self) -> bool {
        number_syntax(self.value@)
    }

    /// Accepts `value` exactly where [`number_syntax`] holds of it.
    pub fn new(value: String) -> (made: Result<Number, ValidationError>)
        ensures
            match made {
                Ok(v) => number_syntax(value@) && v@ == value@,
                Err(e) => !number_syntax(value@) && e == ValidationError::InvalidNumber,
            },
    {
        let value = SecretValue::new(value);
        if parse_number(value.expose_secret()).is_some() {
            Ok(Number { value })
        } else {
            Err(ValidationError::InvalidNumber)
        }
    }

    pub fn value(&self) -> (text: &str)
        ensures
            text@ == self@,
            number_syntax(text@),
    {
        proof {
            use_type_invariant(self);
        }
        self.value.expose_secret()
    }

    /// Replaces the text where `value` is accepted, and wipes the old one;
    /// leaves it untouched where not.
    pub fn set_value(&mut self, value: String) -> (changed: Result<(), ValidationError>)
        ensures
            match changed {
                Ok(_) => number_syntax(value@) && final(self)@ == value@,
                Err(e) => {
                    &&& !number_syntax(value@)
                    &&& e == ValidationError::InvalidNumber
                    &&& final(self)@ == old(self)@
                },
            },
    {
        let value = SecretValue::new(value);
        if parse_number(value.expose_secret()).is_some() {
            self.value = value;
            Ok(())
        } else {
            Err(ValidationError::InvalidNumber)
        }
    }
}

/// A calendar date, written as `YYYY-MM-DD`.
#[derive(Debug, PartialEq)]
pub struct Date {
    value: SecretValue,
}

impl View for Date {
    type V = Seq<char>;

    closed spec fn view(&self) -> Seq<char> {
        self.value@
    }
}

impl Date {
    #[verifier::type_invariant]
    closed spec fn valid(&self) -> bool {
        date_syntax(self.value@)
    }

    /// Accepts `value` exactly where [`date_syntax`] holds of it.
    pub fn new(value: String) -> (made: Result<Date, ValidationError>)
        ensures
            match made {
                Ok(v) => date_syntax(value@) && v@ == value@,
                Err(e) => !date_syntax(value@) && e == ValidationError::InvalidDate,
            },
    {
        let value = SecretValue::new(value);
        if is_date(value.expose_secret()) {
            Ok(Date { value })
        } else {
            Err(ValidationError::InvalidDate)
        }
    }

    pub fn value(&self) -> (text: &str)
        ensures
            text@ == self@,
            date_syntax(text@),
    {
        proof {
            use_type_invariant(self);
        }
        self.value.expose_secret()
    }

    /// Replaces the text where `value` is accepted, and wipes the old one;
    /// leaves it untouched where not.
    pub fn set_value(&mut self, value: String) -> (changed: Result<(), ValidationError>)
        ensures
            match changed {
                Ok(_) => date_syntax(value@) && final(self)@ == value@,
                Err(e) => {
                    &&& !date_syntax(value@)
                    &&& e == ValidationError::InvalidDate
                    &&& final(self)@ == old(self)@
                },
            },
    {
        let value = SecretValue::new(value);
        if is_date(value.expose_secret()) {
            self.value = value;
            Ok(())
        } else {
            Err(ValidationError::InvalidDate)
        }
    }
}

/// A URL, or the literal of an IPv4 or IPv6 address.
#[derive(Debug, PartialEq)]
pub struct Url {
    value: SecretValue,
}

impl View for Url {
    type V = Seq<char>;

    closed spec fn view(&self) -> Seq<char> {
        self.value@
    }
}

impl Url {
    #[verifier::type_invariant]
    closed spec fn valid(&self) -> bool {
        web_address(self.value@)
    }

    /// Accepts `value` exactly where [`web_address`] holds of it.
    pub fn new(value: String) -> (made: Result<Url, ValidationError>)
        ensures
            match made {
                Ok(v) => web_address(value@) && v@ == value@,
                Err(e) => !web_address(value@) && e == ValidationError::InvalidUrl,
            },
    {
        let value = SecretValue::new(value);
        if is_web_address(value.expose_secret()) {
            Ok(Url { value })
        } else {
            Err(ValidationError::InvalidUrl)
        }
    }

    pub fn value(&self) -> (text: &str)
        ensures
            text@ == self@,
            web_address(text@),
    {
        proof {
            use_type_invariant(self);
        }
        self.value.expose_secret()
    }

    /// Replaces the text where `value` is accepted, and wipes the old one;
    /// leaves it untouched where not.
    pub fn set_value(&mut self, value: String) -> (changed: Result<(), ValidationError>)
        ensures
            match changed {
                Ok(_) => web_address(value@) && final(self)@ == value@,
                Err(e) => {
                    &&& !web_address(value@)
                    &&& e == ValidationError::InvalidUrl
                    &&& final(self)@ == old(self)@
                },
            },
    {
        let value = SecretValue::new(value);
        if is_web_address(value.expose_secret()) {
            self.value = value;
            Ok(())
        } else {
            Err(ValidationError::InvalidUrl)
        }
    }
}

/// An e-mail address.
#[derive(Debug, PartialEq)]
pub struct Email {
    value: SecretValue,
}

impl View for Email {
    type V = Seq<char>;

    closed spec fn view(&self) -> Seq<char> {
        self.value@
    }
}

impl Email {
    #[verifier::type_invariant]
    closed spec fn valid(&self) -> bool {
        email_syntax(self.value@)
    }

    /// Accepts `value` exactly where [`email_syntax`] holds of it.
    pub fn new(value: String) -> (made: Result<Email, ValidationError>)
        ensures
            match made {
                Ok(v) => email_syntax(value@) && v@ == value@,
                Err(e) => !email_syntax(value@) && e == ValidationError::InvalidEmail,
            },
    {
        let value = SecretValue::new(value);
        if is_email(value.expose_secret()) {
            Ok(Email { value })
        } else {
            Err(ValidationError::InvalidEmail)
        }
    }

    pub fn value(&self) -> (text: &str)
        ensures
            text@ == self@,
            email_syntax(text@),
    {
        proof {
            use_type_invariant(self);
        }
        self.value.expose_secret()
    }

    /// Replaces the text where `value` is accepted, and wipes the old one;
    /// leaves it untouched where not.
    pub fn set_value(&mut self, value: String) -> (changed: Result<(), ValidationError>)
        ensures
            match changed {
                Ok(_) => email_syntax(value@) && final(self)@ == value@,
                Err(e) => {
                    &&& !email_syntax(value@)
                    &&& e == ValidationError::InvalidEmail
                    &&& final(self)@ == old(self)@
                },
            },
    {
        let value = SecretValue::new(value);
        if is_email(value.expose_secret()) {
            self.value = value;
            Ok(())
        } else {
            Err(ValidationError::InvalidEmail)
        }
    }
}

/// A phone number in international notation.
#[derive(Debug, PartialEq)]
pub struct PhoneNumber {
    value: SecretValue,
}

impl View for PhoneNumber {
    type V = Seq<char>;

    closed spec fn view(&self) -> Seq<char> {
        self.value@
    }
}

impl PhoneNumber {
    #[verifier::type_invariant]
    closed spec fn valid(&self) -> bool {
        phone_syntax(self.value@)
    }

    /// Accepts `value` exactly where [`phone_syntax`] holds of it.
    pub fn new(value: String) -> (made: Result<PhoneNumber, ValidationError>)
        ensures
            match made {
                Ok(v) => phone_syntax(value@) && v@ == value@,
                Err(e) => !phone_syntax(value@) && e == ValidationError::InvalidPhoneNumber,
            },
    {
        let value = SecretValue::new(value);
        if is_phone(value.expose_secret()) {
            Ok(PhoneNumber { value })
        } else {
            Err(ValidationError::InvalidPhoneNumber)
        }
    }

    pub fn value(&self) -> (text: &str)
        ensures
            text@ == self@,
            phone_syntax(text@),
    {
        proof {
            use_type_invariant(self);
        }
        self.value.expose_secret()
    }

    /// Replaces the text where `value` is accepted, and wipes the old one;
    /// leaves it untouched where not.
    pub fn set_value(&mut self, value: String) -> (changed: Result<(), ValidationError>)
        ensures
            match changed {
                Ok(_) => phone_syntax(value@) && final(self)@ == value@,
                Err(e) => {
                    &&& !phone_syntax(value@)
                    &&& e == ValidationError::InvalidPhoneNumber
                    &&& final(self)@ == old(self)@
                },
            },
    {
        let value = SecretValue::new(value);
        if is_phone(value.expose_secret()) {
            self.value = value;
            Ok(())
        } else {
            Err(ValidationError::InvalidPhoneNumber)
        }
    }
}

/// A bank card number: digits only, of a known brand, of a length that fits
/// the brand, with a correct check digit. Never exported, only revealed on
/// request.
#[derive(Debug, PartialEq)]
pub struct BankCardNumber {
    value: SecretValue,
}

impl View for BankCardNumber {
    type V = Seq<char>;

    closed spec fn view(&self) -> Seq<char> {
        self.value@
    }
}

impl BankCardNumber {
    #[verifier::type_invariant]
    closed spec fn valid(&self) -> bool {
        card_fault(self.value@) is None
    }

    /// Accepts `value` exactly where [`card_fault`] finds nothing wrong with
    /// it, and otherwise returns what it found.
    pub fn new(value: String) -> (made: Result<BankCardNumber, ValidationError>)
        ensures
            match made {
                Ok(v) => card_fault(value@) is None && v@ == value@,
                Err(e) => card_fault(value@) == Some(e),
            },
    {
        let value = SecretValue::new(value);
        match card_fault_of(value.expose_secret()) {
            None => Ok(BankCardNumber { value }),
            Some(fault) => Err(fault),
        }
    }

    pub fn value(&self) -> (text: &str)
        ensures
            text@ == self@,
            card_fault(text@) is None,
    {
        proof {
            use_type_invariant(self);
        }
        self.value.expose_secret()
    }

    /// Replaces the number where `value` is accepted, and wipes the old one;
    /// leaves it untouched where not.
    pub fn set_value(&mut self, value: String) -> (changed: Result<(), ValidationError>)
        ensures
            match changed {
                Ok(_) => card_fault(value@) is None && final(self)@ == value@,
                Err(e) => card_fault(value@) == Some(e) && final(self)@ == old(self)@,
            },
    {
        let value = SecretValue::new(value);
        match card_fault_of(value.expose_secret()) {
            None => {
                self.value = value;
                Ok(())
            },
            Some(fault) => Err(fault),
        }
    }
}

/// The shared secret of a one-time-passcode generator, kept in its canonical
/// notation: base32, upper case, no padding. Never exported, only revealed on
/// request.
#[derive(Debug, PartialEq)]
pub struct TOTPSecret {
    value: SecretValue,
}

impl View for TOTPSecret {
    type V = Seq<char>;

    closed spec fn view(&self) -> Seq<char> {
        self.value@
    }
}

impl TOTPSecret {
    #[verifier::type_invariant]
    closed spec fn valid(&self) -> bool {
        secret_syntax(self.value@) && canonical_secret(self.value@) == self.value@
    }

    /// Accepts `value` exactly where [`secret_syntax`] holds of it, and keeps
    /// the canonical notation of the secret, not `value` itself.
    pub fn new(value: String) -> (made: Result<TOTPSecret, ValidationError>)
        ensures
            match made {
                Ok(v) => {
                    &&& secret_syntax(value@)
                    &&& v@ == canonical_secret(value@)
                    &&& secret_syntax(v@)
                    &&& canonical_secret(v@) == v@
                },
                Err(e) => !secret_syntax(value@) && e == ValidationError::InvalidOtpSecret,
            },
    {
        let value = SecretValue::new(value);
        match Generator::from_secret(value.expose_secret()) {
            Some(generator) => Ok(
                TOTPSecret { value: SecretValue::new(generator.secret_base32()) },
            ),
            None => Err(ValidationError::InvalidOtpSecret),
        }
    }

    pub fn value(&self) -> (text: &str)
        ensures
            text@ == self@,
            secret_syntax(text@),
            canonical_secret(text@) == text@,
    {
        proof {
            use_type_invariant(self);
        }
        self.value.expose_secret()
    }

    /// Replaces the secret where `value` is accepted, and wipes the old one;
    /// leaves it untouched where not.
    pub fn set_value(&mut self, value: String) -> (changed: Result<(), ValidationError>)
        ensures
            match changed {
                Ok(_) => secret_syntax(value@) && final(self)@ == canonical_secret(value@),
                Err(e) => {
                    &&& !secret_syntax(value@)
                    &&& e == ValidationError::InvalidOtpSecret
                    &&& final(self)@ == old(self)@
                },
            },
    {
        let value = SecretValue::new(value);
        match Generator::from_secret(value.expose_secret()) {
            Some(generator) => {
                self.value = SecretValue::new(generator.secret_base32());
                Ok(())
            },
            None => Err(ValidationError::InvalidOtpSecret),
        }
    }
}

} // verus!
