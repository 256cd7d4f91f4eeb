use cphere_backend::utils::validation_util::{validate_email, validate_username};

#[test]
fn test_validate_email() {
    // Valid email should return true.
    assert!(validate_email("test@example.com"));
    // Invalid emails should return false.
    assert!(!validate_email("invalid-email"));
    assert!(!validate_email("test@.com"));
    assert!(!validate_email("test@example"));
}

#[test]
fn test_validate_username() {
    // Valid usernames.
    assert!(validate_username("user123"));
    assert!(validate_username("user_name"));
    // Too short.
    assert!(!validate_username("ab"));
    // Contains invalid characters.
    assert!(!validate_username("user!name"));
}

#[test]
fn email_is_matched_in_either_case() {
    assert!(validate_email("Test.User+tag@Example.CO"));
    assert!(!validate_email(""));
    assert!(!validate_email("a@b.c"));
    assert!(!validate_email("a b@example.com"));
    assert!(!validate_email("test@example.com\n"));
}

#[test]
fn username_is_measured_in_bytes_and_may_hold_letters_of_any_script() {
    assert!(validate_username("abc"));
    assert!(validate_username("___"));
    assert!(validate_username("日本"));
    assert!(validate_username("éa"));
    assert!(!validate_username(""));
    assert!(!validate_username("a_"));
    assert!(!validate_username("user name"));
    assert!(!validate_username("user-name"));
}
