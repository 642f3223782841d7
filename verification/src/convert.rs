//! From stored rows to records and content.
//!
//! Reading fails closed: a row whose kind tag is unknown, or whose text its
//! kind does not accept, is an error and never a value.

use crate::error::ValidationError;
use crate::kind::{read_back, ValueKind};
use crate::model::{Category, CategoryView, Content, Record, Timestamp, Value};
use crate::secret::SecretValue;
use crate::value::{
    BankCardNumber, Date, Email, LongText, Number, Password, PhoneNumber, SensitiveText, TOTPSecret,
    Text, Url,
};
use vstd::prelude::*;

verus! {

/// Index of the `kind` column in a content row; a row error is reported
/// against it.
pub const KIND_COLUMN: usize = 4;

/// Why a stored row is not a value.
#[derive(Debug, PartialEq, Eq, Clone, Copy, Structural)]
pub enum RowError {
    /// The kind tag is none that this crate knows.
    UnknownKind,
    /// The kind is known and does not accept the stored text.
    InvalidValue(ValidationError),
}

impl RowError {
    pub open spec fn text(self) -> Seq<char> {
        match self {
            RowError::UnknownKind => "Unknown kind"@,
            RowError::InvalidValue(e) => e.text(),
        }
    }

    pub fn message(&self) -> (message: &'static str)
        ensures
            message@ == self.text(),
    {
        match self {
            RowError::UnknownKind => "Unknown kind",
            RowError::InvalidValue(e) => e.message(),
        }
    }
}

/// Reads a stored text as a number.
pub fn number_from_database(value: String) -> (read: Result<Number, RowError>)
    ensures
        match read {
            Ok(v) => {
                &&& ValueKind::Number.accepts(value@)
                &&& v@ == ValueKind::Number.canonical(value@)
                &&& ValueKind::Number.holds(v@)
            },
            Err(e) => {
                &&& ValueKind::Number.fault(value@) matches Some(fault)
                &&& e == RowError::InvalidValue(fault)
            },
        },
{
    match Number::new(value) {
        Ok(v) => Ok(v),
        Err(e) => Err(RowError::InvalidValue(e)),
    }
}

/// Reads a stored text as a date.
pub fn date_from_database(value: String) -> (read: Result<Date, RowError>)
    ensures
        match read {
            Ok(v) => {
                &&& ValueKind::Date.accepts(value@)
                &&& v@ == ValueKind::Date.canonical(value@)
                &&& ValueKind::Date.holds(v@)
            },
            Err(e) => {
                &&& ValueKind::Date.fault(value@) matches Some(fault)
                &&& e == RowError::InvalidValue(fault)
            },
        },
{
    match Date::new(value) {
        Ok(v) => Ok(v),
        Err(e) => Err(RowError::InvalidValue(e)),
    }
}

/// Reads a stored text as a passcode secret.
pub fn totp_from_database(value: String) -> (read: Result<TOTPSecret, RowError>)
    ensures
        match read {
            Ok(v) => {
                &&& ValueKind::TOTPSecret.accepts(value@)
                &&& v@ == ValueKind::TOTPSecret.canonical(value@)
                &&& ValueKind::TOTPSecret.holds(v@)
            },
            Err(e) => {
                &&& ValueKind::TOTPSecret.fault(value@) matches Some(fault)
                &&& e == RowError::InvalidValue(fault)
            },
        },
{
    match TOTPSecret::new(value) {
        Ok(v) => Ok(v),
        Err(e) => Err(RowError::InvalidValue(e)),
    }
}

/// Reads a stored text as a URL.
pub fn url_from_database(value: String) -> (read: Result<Url, RowError>)
    ensures
        match read {
            Ok(v) => {
                &&& ValueKind::Url.accepts(value@)
                &&& v@ == ValueKind::Url.canonical(value@)
                &&& ValueKind::Url.holds(v@)
            },
            Err(e) => {
                &&& ValueKind::Url.fault(value@) matches Some(fault)
                &&& e == RowError::InvalidValue(fault)
            },
        },
{
    match Url::new(value) {
        Ok(v) => Ok(v),
        Err(e) => Err(RowError::InvalidValue(e)),
    }
}

/// Reads a stored text as an e-mail address.
pub fn email_from_database(value: String) -> (read: Result<Email, RowError>)
    ensures
        match read {
            Ok(v) => {
                &&& ValueKind::Email.accepts(value@)
                &&& v@ == ValueKind::Email.canonical(value@)
                &&& ValueKind::Email.holds(v@)
            },
            Err(e) => {
                &&& ValueKind::Email.fault(value@) matches Some(fault)
                &&& e == RowError::InvalidValue(fault)
            },
        },
{
    match Email::new(value) {
        Ok(v) => Ok(v),
        Err(e) => Err(RowError::InvalidValue(e)),
    }
}

/// Reads a stored text as a phone number.
pub fn phone_number_from_database(value: String) -> (read: Result<PhoneNumber, RowError>)
    ensures
        match read {
            Ok(v) => {
                &&& ValueKind::PhoneNumber.accepts(value@)
                &&& v@ == ValueKind::PhoneNumber.canonical(value@)
                &&& ValueKind::PhoneNumber.holds(v@)
            },
            Err(e) => {
                &&& ValueKind::PhoneNumber.fault(value@) matches Some(fault)
                &&& e == RowError::InvalidValue(fault)
            },
        },
{
    match PhoneNumber::new(value) {
        Ok(v) => Ok(v),
        Err(e) => Err(RowError::InvalidValue(e)),
    }
}

/// Reads a stored text as a bank card number.
pub fn bank_card_number_from_database(value: String) -> (read: Result<BankCardNumber, RowError>)
    ensures
        match read {
            Ok(v) => {
                &&& ValueKind::BankCardNumber.accepts(value@)
                &&& v@ == ValueKind::BankCardNumber.canonical(value@)
                &&& ValueKind::BankCardNumber.holds(v@)
            },
            Err(e) => {
                &&& ValueKind::BankCardNumber.fault(value@) matches Some(fault)
                &&& e == RowError::InvalidValue(fault)
            },
        },
{
    match BankCardNumber::new(value) {
        Ok(v) => Ok(v),
        Err(e) => Err(RowError::InvalidValue(e)),
    }
}

/// Builds a record from the columns of its row.
pub fn record_from_database(
    id: u64,
    title: String,
    subtitle: String,
    created: Timestamp,
    last_modified: Timestamp,
    category: Category,
) -> (record: Record)
    ensures
        record@.id == id,
        record@.title == title@,
        record@.subtitle == subtitle@,
        record@.created == created,
        record@.last_modified == last_modified,
        record@.category == category@,
{
    let mut record = Record::new(title, subtitle, category);
    record.set_id(id);
    record.set_created(created);
    record.set_last_modified(last_modified);
    record
}

/// Builds a record from the columns of its row, the category still under its
/// stored name.
pub fn row_to_record(
    id: u64,
    title: String,
    subtitle: String,
    created: Timestamp,
    last_modified: Timestamp,
    category: String,
) -> (record: Record)
    ensures
        record@.id == id,
        record@.title == title@,
        record@.subtitle == subtitle@,
        record@.created == created,
        record@.last_modified == last_modified,
        record@.category == CategoryView::of_name(category@),
{
    record_from_database(
        id,
        title,
        subtitle,
        created,
        last_modified,
        Category::from_string(category),
    )
}

/// Reads a stored pair of kind tag and text as a value. Succeeds exactly
/// where the tag names a kind and the kind accepts the text.
pub fn value_from_database(kind: &str, value: String) -> (read: Result<Value, RowError>)
    ensures
        match read {
            Ok(v) => read_back(kind@, value@) == Some((v@.kind, v@.text)) && v@.valid(),
            Err(RowError::UnknownKind) => ValueKind::of_tag(kind@) is None,
            Err(RowError::InvalidValue(fault)) => ValueKind::of_tag(kind@) matches Some(k)
                && k.fault(value@) == Some(fault),
        },
{
    match ValueKind::from_tag(kind) {
        Some(ValueKind::Number) => match number_from_database(value) {
            Ok(v) => Ok(Value::Number(v)),
            Err(e) => Err(e),
        },
        Some(ValueKind::Text) => Ok(Value::Text(Text::new(value))),
        Some(ValueKind::LongText) => Ok(Value::LongText(LongText::new(value))),
        Some(ValueKind::SensitiveText) => Ok(Value::SensitiveText(SensitiveText::new(value))),
        Some(ValueKind::Date) => match date_from_database(value) {
            Ok(v) => Ok(Value::Date(v)),
            Err(e) => Err(e),
        },
        Some(ValueKind::Password) => Ok(Value::Password(Password::new(value))),
        Some(ValueKind::TOTPSecret) => match totp_from_database(value) {
            Ok(v) => Ok(Value::TOTPSecret(v)),
            Err(e) => Err(e),
        },
        Some(ValueKind::Url) => match url_from_database(value) {
            Ok(v) => Ok(Value::Url(v)),
            Err(e) => Err(e),
        },
        Some(ValueKind::Email) => match email_from_database(value) {
            Ok(v) => Ok(Value::Email(v)),
            Err(e) => Err(e),
        },
        Some(ValueKind::PhoneNumber) => match phone_number_from_database(value) {
            Ok(v) => Ok(Value::PhoneNumber(v)),
            Err(e) => Err(e),
        },
        Some(ValueKind::BankCardNumber) => match bank_card_number_from_database(value) {
            Ok(v) => Ok(Value::BankCardNumber(v)),
            Err(e) => Err(e),
        },
        None => {
            let _wiped = SecretValue::new(value);
            Err(RowError::UnknownKind)
        },
    }
}

/// Builds a field from the columns of its row. Succeeds exactly where the tag
/// names a kind and the kind accepts the text; every input is wiped where it
/// does not.
pub fn row_to_content(
    id: u64,
    label: String,
    position: u32,
    required: bool,
    kind: String,
    value: String,
) -> (read: Result<Content, RowError>)
    ensures
        match read {
            Ok(content) => {
                &&& read_back(kind@, value@) == Some(
                    (content@.value.kind, content@.value.text),
                )
                &&& content@.value.valid()
                &&& content@.id == id
                &&& content@.label == label@
                &&& content@.position == position
                &&& content@.required == required
            },
            Err(RowError::UnknownKind) => ValueKind::of_tag(kind@) is None,
            Err(RowError::InvalidValue(fault)) => ValueKind::of_tag(kind@) matches Some(k)
                && k.fault(value@) == Some(fault),
        },
{
    let kind = SecretValue::new(kind);
    match value_from_database(kind.expose_secret(), value) {
        Ok(value) => {
            let mut content = Content::new(label, position, required, value);
            content.set_id(id);
            Ok(content)
        },
        Err(e) => {
            let _wiped = SecretValue::new(label);
            Err(e)
        },
    }
}

} // verus!
