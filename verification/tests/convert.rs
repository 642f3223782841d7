use password_manager::convert::{
    bank_card_number_from_database, date_from_database, email_from_database,
    number_from_database, phone_number_from_database, record_from_database, row_to_content,
    row_to_record, totp_from_database, url_from_database, value_from_database, RowError,
    KIND_COLUMN,
};
use password_manager::error::ValidationError;
use password_manager::kind::ValueKind;
use password_manager::model::{Category, Timestamp};

#[test]
fn test_number_from_database_invalid() {
    let result = number_from_database("invalid".to_string());
    assert!(result.is_err());
}

#[test]
fn test_number_from_database_valid() {
    let result = number_from_database("123".to_string());
    assert!(result.is_ok());
    assert_eq!(result.unwrap().value(), "123");
}

#[test]
fn test_date_from_database_invalid() {
    let result = date_from_database("invalid".to_string());
    assert!(result.is_err());
}

#[test]
fn test_date_from_database_valid() {
    let result = date_from_database("2020-04-12".to_string());
    assert!(result.is_ok());
    assert_eq!(result.unwrap().value().to_string(), "2020-04-12");
}

#[test]
fn test_totp_from_database_invalid() {
    let result = totp_from_database("invalid".to_string());
    assert!(result.is_err());
}

#[test]
fn test_totp_from_database_valid() {
    let result = totp_from_database("rfffmaz4jsjq3qurwhzna2wljastmywv".to_string());
    assert!(result.is_ok());
    assert_eq!(
        result.unwrap().value(),
        "rfffmaz4jsjq3qurwhzna2wljastmywv".to_uppercase()
    );
}

#[test]
fn test_url_from_database_invalid() {
    let result = url_from_database("invalid".to_string());
    assert!(result.is_err());
}

#[test]
fn test_url_from_database_valid() {
    let result = url_from_database("https://example.com".to_string());
    assert!(result.is_ok());
    assert_eq!(result.unwrap().value(), "https://example.com");
}

#[test]
fn test_email_from_database_invalid() {
    let result = email_from_database("invalid".to_string());
    assert!(result.is_err());
}

#[test]
fn test_email_from_database_valid() {
    let result = email_from_database("example@email.com".to_string());
    assert!(result.is_ok());
    assert_eq!(result.unwrap().value(), "example@email.com");
}

#[test]
fn test_phone_number_from_database_invalid() {
    let result = phone_number_from_database("invalid".to_string());
    assert!(result.is_err());
}

#[test]
fn test_phone_number_from_database_valid() {
    let result = phone_number_from_database("+14152370800".to_string());
    assert!(result.is_ok());
    assert_eq!(result.unwrap().value(), "+14152370800");
}

#[test]
fn test_bank_card_number_from_database_invalid() {
    let result = bank_card_number_from_database("invalid".to_string());
    assert!(result.is_err());
}

#[test]
fn test_bank_card_number_from_database_valid() {
    let result = bank_card_number_from_database("4702932172193242".to_string());
    assert!(result.is_ok());
    assert_eq!(result.unwrap().value(), "4702932172193242");
}

#[test]
fn test_record_from_database() {
    let record = record_from_database(
        1,
        "Title".to_string(),
        "Subtitle".to_string(),
        Timestamp { seconds: 10, nanos: 0 },
        Timestamp { seconds: 20, nanos: 0 },
        Category::Login,
    );
    assert_eq!(record.id(), 1);
    assert_eq!(record.title(), "Title");
    assert_eq!(record.subtitle(), "Subtitle");
    assert_eq!(record.category(), &Category::Login);
}

#[test]
fn record_row_keeps_every_column() {
    let record = row_to_record(
        7,
        "Bank".to_string(),
        "Account".to_string(),
        Timestamp { seconds: 10, nanos: 1 },
        Timestamp { seconds: 20, nanos: 2 },
        "BankCard".to_string(),
    );
    assert_eq!(record.id(), 7);
    assert_eq!(record.category(), &Category::BankCard);
    assert_eq!(record.created(), Timestamp { seconds: 10, nanos: 1 });
    assert_eq!(record.last_modified(), Timestamp { seconds: 20, nanos: 2 });
    let other = row_to_record(
        8,
        "x".to_string(),
        "y".to_string(),
        Timestamp { seconds: 0, nanos: 0 },
        Timestamp { seconds: 0, nanos: 0 },
        "Custom label".to_string(),
    );
    assert_eq!(other.category(), &Category::Other("Custom label".to_string()));
}

#[test]
fn content_row_is_read_with_its_kind() {
    let content = row_to_content(
        5,
        "Website".to_string(),
        1,
        true,
        "Url".to_string(),
        "https://example.com".to_string(),
    )
    .unwrap();
    assert_eq!(content.id(), 5);
    assert_eq!(content.label(), "Website");
    assert_eq!(content.position(), 1);
    assert!(content.required());
    assert_eq!(content.kind(), "Url");
    assert_eq!(content.value().as_str(), "https://example.com");
}

#[test]
fn content_row_with_unknown_kind_is_an_error() {
    let read = row_to_content(5, "l".to_string(), 1, false, "Datetime".to_string(), "x".to_string());
    assert_eq!(read, Err(RowError::UnknownKind));
    assert_eq!(RowError::UnknownKind.message(), "Unknown kind");
    assert_eq!(KIND_COLUMN, 4);
}

#[test]
fn content_row_with_rejected_text_is_an_error() {
    let read = row_to_content(5, "l".to_string(), 1, false, "Number".to_string(), "1.5".to_string());
    assert_eq!(read, Err(RowError::InvalidValue(ValidationError::InvalidNumber)));
    assert_eq!(
        RowError::InvalidValue(ValidationError::InvalidNumber).message(),
        "Invalid number"
    );
    let read = value_from_database("BankCardNumber", "4111111111111112".to_string());
    assert_eq!(read, Err(RowError::InvalidValue(ValidationError::CardInvalidLuhn)));
}

#[test]
fn every_kind_is_read_from_its_row() {
    let rows = [
        ("Number", "42"),
        ("Text", "t"),
        ("LongText", "t"),
        ("SensitiveText", "t"),
        ("Date", "2021-01-01"),
        ("Password", "p"),
        ("TOTPSecret", "RFFFMAZ4JSJQ3QURWHZNA2WLJASTMYWV"),
        ("Url", "1.1.1.1"),
        ("Email", "a@example.com"),
        ("PhoneNumber", "+14152370800"),
        ("BankCardNumber", "4702932172193242"),
    ];
    for (kind, text) in rows {
        let value = value_from_database(kind, text.to_string()).unwrap();
        assert_eq!(value.kind(), ValueKind::from_tag(kind).unwrap());
        assert_eq!(value.as_str(), text);
    }
}
