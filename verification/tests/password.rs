use password_manager::database::Statement;
use password_manager::password::{
    after_cache, after_service, check_password, generate_password, is_listed, Inquiry,
    PasswordHash, PasswordProblem, PREFIX_LENGTH, RANGE_URL,
};

#[test]
fn hash_is_the_sha1_digest_in_upper_case_hex() {
    let hash = PasswordHash::of("password");
    assert_eq!(hash.as_str(), "5BAA61E4C9B93F3F0682250B6CF8331B7EE68FD8");
    assert_eq!(hash.prefix(), "5BAA6");
    assert_eq!(hash.suffix(), "1E4C9B93F3F0682250B6CF8331B7EE68FD8");
    assert_eq!(hash.range_url(), "https://api.pwnedpasswords.com/range/5BAA6");
    assert_eq!(PasswordHash::of("").as_str(), "DA39A3EE5E6B4B0D3255BFEF95601890AFD80709");
    assert_eq!(PasswordHash::of("žluťoučký").as_str().len(), 40);
    assert_eq!(PREFIX_LENGTH, 5);
    assert_eq!(RANGE_URL, "https://api.pwnedpasswords.com/range/");
}

#[test]
fn a_line_of_the_answer_must_start_with_the_suffix() {
    let answer = "0018A45C4D1DEF81644B54AB7F969B88D65:1\r\n\
                  1E4C9B93F3F0682250B6CF8331B7EE68FD8:3730471\r\n\
                  011053FD0102E94D6AE2F8B83D76FAF94F6:2";
    assert!(is_listed(answer, "1E4C9B93F3F0682250B6CF8331B7EE68FD8"));
    assert!(is_listed(answer, "0018A45C4D1DEF81644B54AB7F969B88D65"));
    assert!(is_listed(answer, "011053FD0102E94D6AE2F8B83D76FAF94F6"));
    assert!(is_listed(answer, "011053FD0102E94D6AE2F8B83D76FAF94F6:2"));
    assert!(!is_listed(answer, "011053FD0102E94D6AE2F8B83D76FAF94F6:22"));
    assert!(!is_listed(answer, "E4C9B93F3F0682250B6CF8331B7EE68FD8"));
    assert!(!is_listed(answer, "FFFFFFFFFFFFFFFFFFFFFFFFFFFFFFFFFFF"));
    assert!(!is_listed(answer, "1\r\n1E4C"));
}

#[test]
fn listing_agrees_with_lines_and_starts_with() {
    let answers = [
        "", "\n", "\r\n", "a", "a\n", "a\r\n", "a\r", "\na", "\n\na", "ab\ncd", "ab\r\ncd\r",
        "ab\r\r\ncd", "\r", "x\n\r\ny", "abc\nabd\nab", "é\nè", "ab\ncd\n", "\nab",
    ];
    let prefixes = ["", "a", "ab", "abc", "cd", "b", "\r", "a\r", "ab\r", "\n", "é", "cd\r", "y", "\ry"];
    for answer in answers {
        for prefix in prefixes {
            let expected = answer.lines().any(|line| line.starts_with(prefix));
            assert_eq!(is_listed(answer, prefix), expected, "{:?} {:?}", answer, prefix);
        }
    }
}

#[test]
fn a_common_password_is_judged_without_a_lookup() {
    assert_eq!(check_password("password"), Inquiry::Judged(PasswordProblem::Common));
    assert_eq!(check_password("123456"), Inquiry::Judged(PasswordProblem::Common));
}

#[test]
fn an_uncommon_password_is_looked_up_by_its_hash() {
    let password = "correct horse battery staple 7!";
    match check_password(password) {
        Inquiry::AskCache(hash, statement) => {
            assert_eq!(hash, PasswordHash::of(password));
            assert_eq!(
                statement,
                Statement::BreachStatus { hash: hash.as_str().to_string() }
            );
        }
        other => panic!("{:?}", other),
    }
}

#[test]
fn a_cached_verdict_is_the_judgement() {
    let hash = || PasswordHash::of("correct horse battery staple 7!");
    assert_eq!(after_cache(hash(), Some(true)), Inquiry::Judged(PasswordProblem::Exposed));
    assert_eq!(after_cache(hash(), Some(false)), Inquiry::Judged(PasswordProblem::NoProblem));
    let url = hash().range_url();
    assert_eq!(after_cache(hash(), None), Inquiry::AskService(hash(), url));
}

#[test]
fn the_answer_of_the_service_is_judged_and_cached() {
    let hash = PasswordHash::of("password");
    let answer = "0018A45C4D1DEF81644B54AB7F969B88D65:1\r\n1E4C9B93F3F0682250B6CF8331B7EE68FD8:3";
    let (problem, statement) = after_service(&hash, answer, 1_700_000_000);
    assert_eq!(problem, PasswordProblem::Exposed);
    assert_eq!(
        statement,
        Statement::CacheBreach {
            hash: "5BAA61E4C9B93F3F0682250B6CF8331B7EE68FD8".to_string(),
            exposed: true,
            checked: 1_700_000_000,
        }
    );
    let (problem, statement) = after_service(&hash, "0018A45C4D1DEF81644B54AB7F969B88D65:1", 5);
    assert_eq!(problem, PasswordProblem::NoProblem);
    assert_eq!(
        statement,
        Statement::CacheBreach {
            hash: "5BAA61E4C9B93F3F0682250B6CF8331B7EE68FD8".to_string(),
            exposed: false,
            checked: 5,
        }
    );
}

#[test]
fn generated_passwords_have_every_chosen_kind_and_no_other() {
    for _ in 0..20 {
        let made = generate_password(12, true, true, true, true).unwrap();
        let text = made.expose_secret();
        assert_eq!(text.chars().count(), 12);
        assert!(text.chars().any(|c| c.is_ascii_digit()));
        assert!(text.chars().any(|c| c.is_ascii_uppercase()));
        assert!(text.chars().any(|c| c.is_ascii_lowercase()));
        assert!(text.chars().any(|c| c.is_ascii_punctuation()));
        assert!(text.chars().all(|c| c.is_ascii_graphic()));
        let made = generate_password(8, true, false, false, false).unwrap();
        assert!(made.expose_secret().chars().all(|c| c.is_ascii_digit()));
        assert_eq!(made.expose_secret().len(), 8);
        let made = generate_password(2, false, true, true, false).unwrap();
        assert!(made.expose_secret().chars().any(|c| c.is_ascii_uppercase()));
        assert!(made.expose_secret().chars().any(|c| c.is_ascii_lowercase()));
    }
}

#[test]
fn impossible_passwords_are_refused_with_a_message() {
    assert_eq!(
        generate_password(0, true, true, true, true),
        Err("The length of passwords cannot be 0.")
    );
    assert_eq!(
        generate_password(0, false, false, false, false),
        Err("The length of passwords cannot be 0.")
    );
    assert_eq!(
        generate_password(8, false, false, false, false),
        Err("You need to enable at least one kind of characters.")
    );
    assert_eq!(
        generate_password(3, true, true, true, true),
        Err("The length of passwords is too short.")
    );
    assert!(generate_password(4, true, true, true, true).is_ok());
}
