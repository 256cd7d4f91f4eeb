use cphere_backend::models::user_model::User;
use cphere_backend::services::auth_service::{
    authenticate_user, login_response, register_response, register_user, LoginError,
    LoginRequest, RegisterRequest,
};
use cphere_backend::utils::auth_util::{
    generate_reset_token, hash_password, reset_email_body, reset_link, verify_password,
    PasswordError,
};
use cphere_backend::object_id::ObjectId;

#[test]
fn test_hash_password_success() {
    let password = "mysecretpassword";
    let result = hash_password(password);

    // Assert that hashing is successful.
    assert!(result.is_ok());
    let hashed = result.unwrap();

    // Check that the resulting hash is not equal to the plaintext password.
    assert_ne!(password, hashed);

    // Basic check to see if the hash string starts with an Argon2 identifier.
    // Depending on the argon2 version/configuration, this might be "$argon2i$" or "$argon2id$".
    assert!(
        hashed.starts_with("$argon2i$") || hashed.starts_with("$argon2id$"),
        "Hash should start with an Argon2 identifier"
    );
}

#[test]
fn test_hash_password_error() {
    let password = "anotherpassword";
    let result = hash_password(password);
    assert!(result.is_ok());
}

#[test]
fn hash_verifies_its_own_password_only() {
    let hash = hash_password("correct horse").unwrap();
    assert_eq!(verify_password("correct horse", &hash), Ok(true));
    assert_eq!(verify_password("wrong horse", &hash), Ok(false));
    assert_eq!(verify_password("", &hash), Ok(false));
}

#[test]
fn unreadable_hash_is_an_error() {
    assert_eq!(verify_password("x", "not a hash"), Err(PasswordError::InvalidHash));
    assert_eq!(verify_password("x", ""), Err(PasswordError::InvalidHash));
    assert_eq!(verify_password("x", "x"), Err(PasswordError::InvalidHash));
}

#[test]
fn two_hashes_of_one_password_differ() {
    let a = hash_password("same").unwrap();
    let b = hash_password("same").unwrap();
    assert_ne!(a, b);
    assert_eq!(verify_password("same", &a), Ok(true));
    assert_eq!(verify_password("same", &b), Ok(true));
}

#[test]
fn reset_token_has_the_length_asked_for() {
    for length in [0usize, 1, 32, 200] {
        let token = generate_reset_token(length);
        assert_eq!(token.len(), length);
        assert!(token.chars().all(|c| c.is_ascii_alphanumeric()));
    }
    assert_ne!(generate_reset_token(32), generate_reset_token(32));
}

#[test]
fn reset_link_ends_in_the_token() {
    assert_eq!(reset_link("abc123"), "http://localhost:5173/reset-password/abc123");
    assert_eq!(reset_link(""), "http://localhost:5173/reset-password/");
    assert_eq!(
        reset_email_body("abc123"),
        "Visit this link to reset your password: http://localhost:5173/reset-password/abc123"
    );
}

#[test]
fn login_needs_a_user_and_the_right_password() {
    let hash = hash_password("secret").unwrap();
    let user = User::new("alice", "alice@example.com", &hash);
    let good = LoginRequest { username: "alice".to_string(), password: "secret".to_string() };
    let bad = LoginRequest { username: "alice".to_string(), password: "guess".to_string() };
    assert_eq!(authenticate_user(&good, Some(&user)), Ok(()));
    assert_eq!(authenticate_user(&bad, Some(&user)), Err(LoginError::InvalidCredentials));
    assert_eq!(authenticate_user(&good, None), Err(LoginError::InvalidCredentials));
    let broken = User::new("alice", "alice@example.com", "plain");
    assert_eq!(authenticate_user(&good, Some(&broken)), Err(LoginError::VerificationFailed));
    assert_eq!(LoginError::InvalidCredentials.status_code(), 401);
    assert_eq!(LoginError::InvalidCredentials.message(), "Invalid credentials");
    assert_eq!(LoginError::VerificationFailed.status_code(), 500);
    assert_eq!(LoginError::VerificationFailed.message(), "Failed to verify password");
}

#[test]
fn answers_name_the_user() {
    let request = RegisterRequest {
        username: "alice".to_string(),
        email: "alice@example.com".to_string(),
        password: "secret".to_string(),
    };
    let mut user = register_user(&request, "hash-of-secret");
    assert_eq!(user.username, "alice");
    assert_eq!(user.email, "alice@example.com");
    assert_eq!(user.password_hash, "hash-of-secret");
    assert_eq!(user.id, None);
    assert!(login_response(&user).is_none());
    assert!(register_response(&user).is_none());
    user.id = ObjectId::parse_str("65a000000000000000000001");
    let login = login_response(&user).unwrap();
    assert_eq!(login.user_id, "65a000000000000000000001");
    assert_eq!(login.username, "alice");
    let register = register_response(&user).unwrap();
    assert_eq!(register.user_id, "65a000000000000000000001");
    assert_eq!(register.username, "alice");
}
