use password_manager::error::ValidationError;
use password_manager::value::{
    BankCardNumber, Date, Email, LongText, Number, Password, PhoneNumber, SensitiveText, TOTPSecret,
    Text, Url,
};

#[test]
fn test_number_empty() {
    let made = Number::new("".to_string());
    assert!(made.is_err());
}

#[test]
fn test_number_invalid_string() {
    let made = Number::new("invalid".to_string());
    assert!(made.is_err());
}

#[test]
fn test_number_invalid_float() {
    let made = Number::new("1.1".to_string());
    assert!(made.is_err());
}

#[test]
fn test_number_wrong_format_comma() {
    let made = Number::new("1,000".to_string());
    assert!(made.is_err());
}

#[test]
fn test_number_wrong_format_space() {
    let made = Number::new("1 000".to_string());
    assert!(made.is_err());
}

#[test]
fn test_number_valid() {
    let made = Number::new("1000".to_string());
    assert!(made.is_ok());
    assert_eq!(made.unwrap().value(), "1000");
}

#[test]
fn test_text() {
    let made = Text::new("text".to_string());
    assert_eq!(made.value(), "text");
}

#[test]
fn test_long_text() {
    let made = LongText::new("long text".to_string());
    assert_eq!(made.value(), "long text");
}

#[test]
fn test_sensitive_text() {
    let made = SensitiveText::new("sensitive text".to_string());
    assert_eq!(made.value(), "sensitive text");
}

#[test]
fn test_date_empty() {
    let made = Date::new("".to_string());
    assert!(made.is_err());
}

#[test]
fn test_date_invalid() {
    let made = Date::new("invalid".to_string());
    assert!(made.is_err());
}

#[test]
fn test_date_valid() {
    let made = Date::new("2021-01-01".to_string());
    assert!(made.is_ok());
    assert_eq!(made.unwrap().value(), "2021-01-01");
}

#[test]
fn test_password() {
    let made = Password::new("password".to_string());
    assert_eq!(made.value(), "password");
}

#[test]
fn test_totp_secret_empty() {
    let made = TOTPSecret::new("".to_string());
    assert!(made.is_err());
}

#[test]
fn test_totp_secret_invalid() {
    let made = TOTPSecret::new("invalid".to_string());
    assert!(made.is_err());
}

#[test]
fn test_totp_secret_valid() {
    let made = TOTPSecret::new("rfffmaz4jsjq3qurwhzna2wljastmywv".to_string());
    assert!(made.is_ok());
    assert_eq!(made.unwrap().value(), "rfffmaz4jsjq3qurwhzna2wljastmywv".to_uppercase());
}

#[test]
fn test_url_empty() {
    let made = Url::new("".to_string());
    assert!(made.is_err());
}

#[test]
fn test_url_invalid() {
    let made = Url::new("invalid".to_string());
    assert!(made.is_err());
}

#[test]
fn test_url_valid_url() {
    let made = Url::new("https://www.example.com".to_string());
    assert!(made.is_ok());
    assert_eq!(made.unwrap().value(), "https://www.example.com");
}

#[test]
fn test_url_valid_ipv4() {
    let made = Url::new("1.1.1.1".to_string());
    assert!(made.is_ok());
    assert_eq!(made.unwrap().value(), "1.1.1.1".to_string());
}

#[test]
fn test_url_valid_ipv6() {
    let made = Url::new("2606:4700:4700::1111".to_string());
    assert!(made.is_ok());
    assert_eq!(made.unwrap().value(), "2606:4700:4700::1111".to_string());
}

#[test]
fn test_email_empty() {
    let made = Email::new("".to_string());
    assert!(made.is_err());
}

#[test]
fn test_email_invalid() {
    let made = Email::new("invalid".to_string());
    assert!(made.is_err());
}

#[test]
fn test_email_valid() {
    let made = Email::new("example@email.com".to_string());
    assert!(made.is_ok());
    assert_eq!(made.unwrap().value(), "example@email.com".to_string());
}

#[test]
fn test_phone_number_empty() {
    let made = PhoneNumber::new("".to_string());
    assert!(made.is_err());
}

#[test]
fn test_phone_number_invalid() {
    let made = PhoneNumber::new("invalid".to_string());
    assert!(made.is_err());
}

#[test]
fn test_phone_number_valid() {
    let made = PhoneNumber::new("+14152370800".to_string());
    assert!(made.is_ok());
    assert_eq!(made.unwrap().value(), "+14152370800");
}

#[test]
fn test_ank_card_number_empty() {
    let made = BankCardNumber::new("".to_string());
    assert!(made.is_err());
}

#[test]
fn test_bank_card_number_invalid() {
    let made = BankCardNumber::new("invalid".to_string());
    assert!(made.is_err());
}

#[test]
fn test_bank_card_number_valid() {
    let made = BankCardNumber::new("4702932172193242".to_string());
    assert!(made.is_ok());
    assert_eq!(made.unwrap().value(), "4702932172193242");
}

#[test]
fn number_errors_carry_their_message() {
    assert_eq!(Number::new("12.5".to_string()).unwrap_err(), ValidationError::InvalidNumber);
    assert_eq!(ValidationError::InvalidNumber.message(), "Invalid number");
    assert_eq!(Number::new("125".to_string()).unwrap().value(), "125");
}

#[test]
fn number_accepts_signs_and_the_full_range() {
    for text in ["+5", "-5", "0", "-0", "007", "9223372036854775807", "-9223372036854775808"] {
        assert!(Number::new(text.to_string()).is_ok(), "{}", text);
    }
    for text in ["+", "-", "+-5", "5-", " 5", "5 ", "9223372036854775808", "-9223372036854775809", "١٢٣", "1e3", "0x10"] {
        assert!(Number::new(text.to_string()).is_err(), "{}", text);
    }
}

#[test]
fn number_agrees_with_the_standard_parser() {
    let samples = [
        "", "0", "-", "+", "12", "-12", "+12", "1_000", "18446744073709551616", "00000000000000000000001",
        "-00000000000000000009223372036854775808", "99999999999999999999", "1.0", "a", "-a", "٣",
        "9223372036854775807", "9223372036854775808", "-9223372036854775808", "-9223372036854775809",
    ];
    for text in samples {
        assert_eq!(Number::new(text.to_string()).is_ok(), text.parse::<i64>().is_ok(), "{}", text);
    }
}

#[test]
fn each_kind_reports_its_own_error() {
    assert_eq!(Date::new("2021-13-01".to_string()).unwrap_err(), ValidationError::InvalidDate);
    assert_eq!(TOTPSecret::new("abc".to_string()).unwrap_err(), ValidationError::InvalidOtpSecret);
    assert_eq!(Url::new("not a url".to_string()).unwrap_err(), ValidationError::InvalidUrl);
    assert_eq!(Email::new("a@".to_string()).unwrap_err(), ValidationError::InvalidEmail);
    assert_eq!(PhoneNumber::new("14152370800".to_string()).unwrap_err(), ValidationError::InvalidPhoneNumber);
    assert_eq!(BankCardNumber::new("4111 1111".to_string()).unwrap_err(), ValidationError::CardInvalidFormat);
    assert_eq!(BankCardNumber::new("9999999999999999".to_string()).unwrap_err(), ValidationError::CardUnknownType);
    assert_eq!(BankCardNumber::new("41111111111".to_string()).unwrap_err(), ValidationError::CardInvalidLength);
    assert_eq!(BankCardNumber::new("4111111111111112".to_string()).unwrap_err(), ValidationError::CardInvalidLuhn);
    assert!(BankCardNumber::new("4111111111111111".to_string()).is_ok());
}

#[test]
fn error_messages_are_the_documented_ones() {
    assert_eq!(ValidationError::InvalidDate.message(), "Invalid date");
    assert_eq!(ValidationError::InvalidOtpSecret.message(), "Invalid OTP Secret");
    assert_eq!(ValidationError::InvalidUrl.message(), "Invalid URL");
    assert_eq!(ValidationError::InvalidEmail.message(), "Invalid email");
    assert_eq!(ValidationError::InvalidPhoneNumber.message(), "Invalid phone number");
    assert_eq!(ValidationError::CardInvalidFormat.message(), "Invalid Format");
    assert_eq!(ValidationError::CardInvalidLength.message(), "Invalid Length");
    assert_eq!(ValidationError::CardInvalidLuhn.message(), "Invalid Luhn");
    assert_eq!(ValidationError::CardUnknownType.message(), "Unknown Type");
    assert_eq!(ValidationError::CardUnknownError.message(), "Unknown Error");
    assert_eq!(ValidationError::EmptyValue.message(), "Value cannot be empty");
}

#[test]
fn totp_secret_is_kept_in_canonical_form() {
    let secret = TOTPSecret::new("RfffMaz4jsjq3qurwhzna2wljastmywv".to_string()).unwrap();
    assert_eq!(secret.value(), "RFFFMAZ4JSJQ3QURWHZNA2WLJASTMYWV");
    let again = TOTPSecret::new(secret.value().to_string()).unwrap();
    assert_eq!(again, secret);
}

#[test]
fn totp_secret_needs_128_bits() {
    assert!(TOTPSecret::new("MFRGGZDFMZTWQ2LKNNWG23Q".to_string()).is_err());
    assert!(TOTPSecret::new("MFRGGZDFMZTWQ2LKNNWG23TPOA".to_string()).is_ok());
}

#[test]
fn set_value_keeps_the_old_value_when_rejected() {
    let mut number = Number::new("1".to_string()).unwrap();
    assert_eq!(number.set_value("x".to_string()), Err(ValidationError::InvalidNumber));
    assert_eq!(number.value(), "1");
    assert_eq!(number.set_value("2".to_string()), Ok(()));
    assert_eq!(number.value(), "2");

    let mut card = BankCardNumber::new("4111111111111111".to_string()).unwrap();
    assert_eq!(card.set_value("4111111111111112".to_string()), Err(ValidationError::CardInvalidLuhn));
    assert_eq!(card.value(), "4111111111111111");

    let mut secret = TOTPSecret::new("RFFFMAZ4JSJQ3QURWHZNA2WLJASTMYWV".to_string()).unwrap();
    assert!(secret.set_value("short".to_string()).is_err());
    assert_eq!(secret.value(), "RFFFMAZ4JSJQ3QURWHZNA2WLJASTMYWV");
    assert!(secret.set_value("mfrggzdfmztwq2lknnwg23tpoa".to_string()).is_ok());
    assert_eq!(secret.value(), "MFRGGZDFMZTWQ2LKNNWG23TPOA");

    let mut text = Text::new("a".to_string());
    text.set_value("b".to_string());
    assert_eq!(text.value(), "b");
    let mut url = Url::new("1.1.1.1".to_string()).unwrap();
    assert!(url.set_value("".to_string()).is_err());
    assert_eq!(url.value(), "1.1.1.1");
    let mut email = Email::new("a@b.cz".to_string()).unwrap();
    assert!(email.set_value("nobody".to_string()).is_err());
    assert_eq!(email.value(), "a@b.cz");
    let mut phone = PhoneNumber::new("+14152370800".to_string()).unwrap();
    assert!(phone.set_value("1".to_string()).is_err());
    assert_eq!(phone.value(), "+14152370800");
    let mut date = Date::new("2021-01-01".to_string()).unwrap();
    assert!(date.set_value("2021-02-30".to_string()).is_err());
    assert_eq!(date.value(), "2021-01-01");
    let mut long = LongText::new("a".to_string());
    long.set_value("b".to_string());
    assert_eq!(long.value(), "b");
    let mut sensitive = SensitiveText::new("a".to_string());
    sensitive.set_value("b".to_string());
    assert_eq!(sensitive.value(), "b");
    let mut password = Password::new("a".to_string());
    password.set_value("b".to_string());
    assert_eq!(password.value(), "b");
}

#[test]
fn a_date_is_written_with_four_two_and_two_digits() {
    for text in ["2021-01-01", "0001-01-01", "9999-12-31", "2024-02-29"] {
        assert!(Date::new(text.to_string()).is_ok(), "{}", text);
    }
    for text in [
        "2021-1-1", "+12345-06-07", "+2021-01-01", " 2021-01-01", "2021-01-01 ", "2021 -01-01",
        "21-01-01", "2021/01/01", "2021-01-1", "20210101", "2021-02-30", "2023-02-29",
        "2021-13-01", "2021-00-10", "２０２１-01-01",
    ] {
        assert_eq!(
            Date::new(text.to_string()),
            Err(ValidationError::InvalidDate),
            "{:?}",
            text
        );
    }
}
