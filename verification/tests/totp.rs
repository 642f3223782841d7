use password_manager::error::RegistryError;
use password_manager::model::{Content, Value};
use password_manager::otp::Generator;
use password_manager::totp::TOTPManager;
use password_manager::value::{TOTPSecret, Text};

const SECRET: &str = "GEZDGNBVGY3TQOJQGEZDGNBVGY3TQOJQ";
const OTHER: &str = "RFFFMAZ4JSJQ3QURWHZNA2WLJASTMYWV";

#[test]
fn generator_gives_the_codes_of_rfc_6238() {
    let generator = Generator::from_secret(SECRET).unwrap();
    assert_eq!(generator.code_at(59), "287082");
    assert_eq!(generator.code_at(1111111109), "081804");
    assert_eq!(generator.code_at(1234567890), "005924");
    assert_eq!(generator.code_at(2000000000), "279037");
    assert_eq!(generator.code_at(30), generator.code_at(59));
    assert_ne!(generator.code_at(59), generator.code_at(60));
}

#[test]
fn generator_reads_either_case_and_writes_upper_case() {
    let lower = Generator::from_secret(&SECRET.to_lowercase()).unwrap();
    let upper = Generator::from_secret(SECRET).unwrap();
    assert_eq!(lower, upper);
    assert_eq!(lower.secret_base32(), SECRET);
    assert!(Generator::from_secret("GEZDGNBVGY3TQOJ").is_none());
    assert!(Generator::from_secret("not base32!").is_none());
    assert!(Generator::from_secret("").is_none());
}

#[test]
fn ttl_counts_down_to_the_next_step() {
    let generator = Generator::from_secret(SECRET).unwrap();
    assert_eq!(generator.ttl_at(0), 30);
    assert_eq!(generator.ttl_at(1), 29);
    assert_eq!(generator.ttl_at(29), 1);
    assert_eq!(generator.ttl_at(30), 30);
    assert_eq!(generator.ttl_at(59), 1);
    assert_eq!(generator.ttl_at(u64::MAX), 30 - u64::MAX % 30);
}

#[test]
fn manager_refuses_beyond_capacity_and_stays_as_it_was() {
    let mut manager = TOTPManager::new(2);
    assert_eq!(manager.add_secret(1, SECRET.to_string()), Ok(()));
    assert_eq!(manager.add_secret(2, OTHER.to_string()), Ok(()));
    assert_eq!(manager.len(), 2);
    let before_one = manager.code_at(&1, 59);
    let before_two = manager.code_at(&2, 59);
    assert_eq!(manager.add_secret(3, SECRET.to_string()), Err(RegistryError::Full));
    assert_eq!(manager.add_secret(1, OTHER.to_string()), Err(RegistryError::Full));
    assert_eq!(manager.len(), 2);
    assert!(!manager.contains(&3));
    assert_eq!(manager.code_at(&1, 59), before_one);
    assert_eq!(manager.code_at(&2, 59), before_two);
    assert_eq!(RegistryError::Full.message(), "TOTP Manager is full");
}

#[test]
fn manager_refuses_an_invalid_secret() {
    let mut manager = TOTPManager::new(2);
    assert_eq!(manager.add_secret(1, "invalid".to_string()), Err(RegistryError::InvalidSecret));
    assert_eq!(manager.len(), 0);
    assert_eq!(RegistryError::InvalidSecret.message(), "Invalid OTP Secret");
}

#[test]
fn manager_of_no_capacity_is_always_full() {
    let mut manager = TOTPManager::new(0);
    assert_eq!(manager.add_secret(1, SECRET.to_string()), Err(RegistryError::Full));
    assert_eq!(manager.add_secret(1, "invalid".to_string()), Err(RegistryError::Full));
}

#[test]
fn manager_has_no_code_for_an_unregistered_id() {
    let mut manager = TOTPManager::new(4);
    assert_eq!(manager.get_code(&7), None);
    assert_eq!(manager.code_at(&7, 59), None);
    manager.add_secret(7, SECRET.to_string()).unwrap();
    assert_eq!(manager.code_at(&7, 59), Some(("287082".to_string(), 1)));
    let (code, ttl) = manager.get_code(&7).unwrap();
    assert_eq!(code.len(), 6);
    assert!(code.chars().all(|c| c.is_ascii_digit()));
    assert!(1 <= ttl && ttl <= 30);
    manager.remove(&7);
    assert_eq!(manager.get_code(&7), None);
    manager.remove(&7);
    assert_eq!(manager.len(), 0);
}

#[test]
fn manager_replaces_the_generator_of_an_id() {
    let mut manager = TOTPManager::new(4);
    manager.add_secret(1, SECRET.to_string()).unwrap();
    manager.add_secret(1, OTHER.to_string()).unwrap();
    assert_eq!(manager.len(), 1);
    let other = Generator::from_secret(OTHER).unwrap();
    assert_eq!(manager.code_at(&1, 59), Some((other.code_at(59), 1)));
}

#[test]
fn manager_reset_takes_everything_out() {
    let mut manager = TOTPManager::new(4);
    manager.add_secret(1, SECRET.to_string()).unwrap();
    manager.add_secret(2, OTHER.to_string()).unwrap();
    manager.reset();
    assert_eq!(manager.len(), 0);
    assert_eq!(manager.code_at(&1, 59), None);
    assert_eq!(manager.add_secret(3, SECRET.to_string()), Ok(()));
}

fn secret_field(id: u64, secret: &str) -> Content {
    let value = Value::TOTPSecret(TOTPSecret::new(secret.to_string()).unwrap());
    let mut content = Content::new("Code".to_string(), 1, false, value);
    content.set_id(id);
    content
}

#[test]
fn manager_is_filled_from_the_content_of_a_record() {
    let mut manager = TOTPManager::new(2);
    manager.add_secret(99, SECRET.to_string()).unwrap();
    let mut text = Content::new("User".to_string(), 2, true, Value::Text(Text::new("me".to_string())));
    text.set_id(10);
    let content = vec![
        secret_field(11, SECRET),
        text,
        secret_field(12, OTHER),
        secret_field(13, SECRET),
    ];
    manager.reload(&content);
    assert_eq!(manager.len(), 2);
    assert!(!manager.contains(&99));
    assert!(!manager.contains(&10));
    assert!(manager.contains(&11));
    assert!(manager.contains(&12));
    assert!(!manager.contains(&13));
    assert_eq!(manager.code_at(&11, 59), Some(("287082".to_string(), 1)));
}

#[test]
fn generator_reads_an_otpauth_address() {
    let url = "otpauth://totp/Example:alice@example.com?secret=GEZDGNBVGY3TQOJQGEZDGNBVGY3TQOJQ&issuer=Example";
    let generator = Generator::from_url(url).unwrap();
    assert_eq!(generator.code_at(59), "287082");
    assert_eq!(generator, Generator::from_secret(SECRET).unwrap());
    assert_eq!(Generator::from_text(url).unwrap(), generator);
    assert_eq!(Generator::from_text(SECRET).unwrap(), generator);
    let eight = Generator::from_url(
        "otpauth://totp/alice?secret=GEZDGNBVGY3TQOJQGEZDGNBVGY3TQOJQ&digits=8&period=60",
    )
    .unwrap();
    assert_eq!(eight.code_at(59), "84755224");
    assert_eq!(eight.ttl_at(59), 1);
    assert_eq!(eight.ttl_at(60), 60);
    let sha256 = Generator::from_url(
        "otpauth://totp/alice?secret=GEZDGNBVGY3TQOJQGEZDGNBVGY3TQOJQGEZDGNBVGY3TQOJQGEZA&digits=8&algorithm=SHA256",
    )
    .unwrap();
    assert_eq!(sha256.code_at(59), "46119246");
}

#[test]
fn unusable_addresses_give_no_generator() {
    let cases = [
        "otpauth://totp/alice?secret=GEZDGNBVGY3TQOJQGEZDGNBVGY3TQOJQ&period=0",
        "otpauth://totp/alice?secret=GEZDGNBVGY3TQOJQGEZDGNBVGY3TQOJQ&digits=9",
        "otpauth://totp/alice?secret=GEZDGNBVGY3TQOJ",
        "otpauth://totp/alice",
        "otpauth://totp/",
        "otpauth://hotp/alice?secret=GEZDGNBVGY3TQOJQGEZDGNBVGY3TQOJQ",
        "otpauth:totp",
        "otpauth:",
        "otpauth:///alice?secret=GEZDGNBVGY3TQOJQGEZDGNBVGY3TQOJQ",
        "https://totp/alice?secret=GEZDGNBVGY3TQOJQGEZDGNBVGY3TQOJQ",
        "OTPAUTH://TOTP/alice?secret=GEZDGNBVGY3TQOJQGEZDGNBVGY3TQOJQ",
    ];
    for url in cases {
        assert_eq!(Generator::from_url(url), None, "{}", url);
        assert_eq!(Generator::from_text(url), None, "{}", url);
    }
}

#[test]
fn manager_takes_an_otpauth_address_too() {
    let mut manager = TOTPManager::new(2);
    let url = "otpauth://totp/alice?secret=GEZDGNBVGY3TQOJQGEZDGNBVGY3TQOJQ&digits=8";
    assert_eq!(manager.add_secret(1, url.to_string()), Ok(()));
    assert_eq!(manager.code_at(&1, 59), Some(("94287082".to_string(), 1)));
    assert_eq!(
        manager.add_secret(2, "otpauth://totp/alice?secret=short".to_string()),
        Err(RegistryError::InvalidSecret)
    );
    assert_eq!(manager.len(), 1);
}

#[test]
fn manager_forgets_the_generator_of_a_saved_secret() {
    let mut manager = TOTPManager::new(4);
    manager.add_secret(11, SECRET.to_string()).unwrap();
    manager.add_secret(12, OTHER.to_string()).unwrap();
    let mut text = Content::new("User".to_string(), 2, true, Value::Text(Text::new("me".to_string())));
    text.set_id(12);
    manager.forget(&text);
    assert_eq!(manager.len(), 2);
    manager.forget(&secret_field(11, OTHER));
    assert_eq!(manager.len(), 1);
    assert!(!manager.contains(&11));
    assert!(manager.contains(&12));
    manager.forget(&secret_field(99, OTHER));
    assert_eq!(manager.len(), 1);
}
