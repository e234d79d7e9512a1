use chat_backend::auth::registration::{
    check_email, check_registration, find_password_flaw, PasswordFlaw, RegisterUser, Validity,
};
use chat_backend::http::HttpError;

#[test]
fn password_needs_eight_bytes() {
    assert_eq!(find_password_flaw("Ab1!"), Some(PasswordFlaw::TooShort));
    assert_eq!(find_password_flaw(""), Some(PasswordFlaw::TooShort));
    assert_eq!(find_password_flaw("Abcde1!"), Some(PasswordFlaw::TooShort));
}

#[test]
fn password_length_counts_bytes() {
    // four letters of two bytes each make eight bytes
    assert_eq!(find_password_flaw("éééé"), Some(PasswordFlaw::NoDigit));
}

#[test]
fn password_flaws_come_in_order() {
    assert_eq!(find_password_flaw("abcdefgh"), Some(PasswordFlaw::NoDigit));
    assert_eq!(find_password_flaw("abcdefg1"), Some(PasswordFlaw::NoUppercase));
    assert_eq!(find_password_flaw("ABCDEFG1"), Some(PasswordFlaw::NoLowercase));
    assert_eq!(find_password_flaw("Abcdefg1"), Some(PasswordFlaw::NoSymbol));
    assert_eq!(find_password_flaw("Abcdef1!"), None);
}

#[test]
fn strong_password_passes() {
    assert!("Abcdef1!".to_string().is_valid_password().is_ok());
    assert!("Secret-123".to_string().is_valid_password().is_ok());
}

#[test]
fn weak_password_is_told_why() {
    assert_eq!(
        "short".to_string().is_valid_password(),
        Err("This password is too short. It has to be at least 8 characters long.".to_string())
    );
    assert_eq!(
        "abcdefgh".to_string().is_valid_password(),
        Err("Password has to contain at least one digit.".to_string())
    );
    assert_eq!(
        "abcdefg1".to_string().is_valid_password(),
        Err("Password has to contain at least one uppercase letter.".to_string())
    );
    assert_eq!(
        "ABCDEFG1".to_string().is_valid_password(),
        Err("Password has to contain at least one lowercase letter.".to_string())
    );
    assert_eq!(
        "Abcdefg1".to_string().is_valid_password(),
        Err("Password has to contain at least one special symbol.".to_string())
    );
}

#[test]
fn password_flaw_texts() {
    assert_eq!(
        PasswordFlaw::TooShort.text(),
        "This password is too short. It has to be at least 8 characters long."
    );
    assert_eq!(PasswordFlaw::NoDigit.text(), "Password has to contain at least one digit.");
    assert_eq!(
        PasswordFlaw::NoUppercase.text(),
        "Password has to contain at least one uppercase letter."
    );
    assert_eq!(
        PasswordFlaw::NoLowercase.text(),
        "Password has to contain at least one lowercase letter."
    );
    assert_eq!(
        PasswordFlaw::NoSymbol.text(),
        "Password has to contain at least one special symbol."
    );
}

#[test]
fn email_needs_one_at_and_one_dot() {
    assert!(check_email("a@bc.de"));
    assert!(check_email("a@b.cd"));
    assert!(check_email("someone@example.org"));
    assert!(!check_email("a@b@c.de"));
    assert!(!check_email("abcdef"));
    assert!(!check_email("abc.def"));
    assert!(!check_email("a@b.c.d"));
    assert!(!check_email("abcd@efgh"));
}

#[test]
fn email_parts_have_least_lengths() {
    // shorter than six characters
    assert!(!check_email("a@b.c"));
    // nothing before the dot
    assert!(!check_email("ab@.cde"));
    // one character after the dot
    assert!(!check_email("abc@de.f"));
    // a domain of three characters
    assert!(!check_email("abcd@e.f"));
    // nothing before the @ is fine
    assert!(check_email("@abc.de"));
}

#[test]
fn email_is_ascii() {
    assert!(!check_email("é@bcd.ef"));
    assert!(!check_email("abc@dé.fg"));
}

#[test]
fn email_check_on_strings() {
    assert!("someone@example.org".to_string().is_valid_email());
    assert!(!"someone".to_string().is_valid_email());
}

#[test]
fn registration_is_checked_in_order() {
    let payload = |username: &str, email: &str, password: &str| RegisterUser {
        username: username.to_string(),
        email: email.to_string(),
        password: password.to_string(),
    };
    assert_eq!(
        check_registration(&payload("ab", "bad", "bad")),
        Some(HttpError::UsernameTooShort)
    );
    assert_eq!(
        check_registration(&payload("abc", "bad", "bad")),
        Some(HttpError::InvalidEmail)
    );
    assert_eq!(
        check_registration(&payload("abc", "a@bc.de", "bad")),
        Some(HttpError::WeakPassword(PasswordFlaw::TooShort))
    );
    assert_eq!(check_registration(&payload("abc", "a@bc.de", "Secret-123")), None);
}
