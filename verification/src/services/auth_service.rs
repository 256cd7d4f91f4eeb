//! Accounts: what is sent in, what is answered, and the decisions between.

use crate::models::user_model::User;
use crate::object_id::{hex_text, ObjectId};
use crate::utils::auth_util::{password_verdict, verify_password};
use vstd::prelude::*;

verus! {

/// Body of a sign-up request.
pub struct RegisterRequest {
    pub username: String,
    pub email: String,
    pub password: String,
}

/// Answer to a sign-up.
pub struct RegisterResponse {
    pub user_id: String,
    pub username: String,
}

/// Body of a login request.
pub struct LoginRequest {
    pub username: String,
    pub password: String,
}

/// Answer to a login.
pub struct LoginResponse {
    pub user_id: String,
    pub username: String,
}

/// Body of the request for a password reset.
pub struct ResetPasswordRequest {
    pub email: String,
}

/// Body of the request that sets a new password with a reset token.
pub struct ChangePasswordRequest {
    pub reset_token: String,
    pub new_password: String,
}

/// Who the session belongs to; both members are empty for nobody.
pub struct AuthStatusResponse {
    pub user_id: Option<String>,
    pub username: Option<String>,
}

/// What asking for the status of a session comes to.
pub enum AuthStatus {
    /// The session belongs to this user.
    Known(AuthStatusResponse),
    /// The session names nobody, or nobody readable.
    Anonymous(AuthStatusResponse),
    /// The session names a user who is not on record: the session is to be
    /// purged.
    Stale(AuthStatusResponse),
    /// The record of the user lacks its identifier.
    MissingUserId,
}

impl AuthStatusResponse {
    /// Whether the response names nobody.
    pub open spec fn is_empty(self) -> bool {
        self.user_id is None && self.username is None
    }

    /// Whether the response names the user with this identifier and name.
    pub open spec fn names(self, id: ObjectId, username: Seq<char>) -> bool {
        &&& self.user_id matches Some(text)
        &&& text@ == hex_text(id.bytes())
        &&& self.username matches Some(name)
        &&& name@ == username
    }
}

/// Whether `status` is the status of a session that names `session_user`,
/// given the record that the store has of that user.
pub open spec fn status_of(status: AuthStatus, session_user: Option<ObjectId>, user: Option<User>) -> bool {
    match session_user {
        None => status matches AuthStatus::Anonymous(response) && response.is_empty(),
        Some(_) => match user {
            None => status matches AuthStatus::Stale(response) && response.is_empty(),
            Some(record) => match record.id {
                None => status is MissingUserId,
                Some(id) => status matches AuthStatus::Known(response) && response.names(
                    id,
                    record.username@,
                ),
            },
        },
    }
}

/// Says who a session belongs to. `session_user` is the user that the session
/// names, if it names one; `user` is the store's record of that user, if
/// there is one.
pub fn auth_status(session_user: Option<ObjectId>, user: Option<&User>) -> (status: AuthStatus)
    ensures
        status_of(
            status,
            session_user,
            match user {
                Some(record) => Some(*record),
                None => None,
            },
        ),
{
    match session_user {
        None => AuthStatus::Anonymous(AuthStatusResponse { user_id: None, username: None }),
        Some(_) => match user {
            None => AuthStatus::Stale(AuthStatusResponse { user_id: None, username: None }),
            Some(record) => match record.id {
                None => AuthStatus::MissingUserId,
                Some(id) => AuthStatus::Known(
                    AuthStatusResponse {
                        user_id: Some(id.to_hex()),
                        username: Some(record.username.clone()),
                    },
                ),
            },
        },
    }
}

/// Whether a reset token has expired at the instant `now_millis`, both in
/// milliseconds since the start of 1970. A token without an expiry counts as
/// expiring at zero.
pub fn reset_token_expired(reset_token_expiry_at: Option<i64>, now_millis: i64) -> (expired: bool)
    ensures
        expired == (match reset_token_expiry_at {
            Some(at) => at,
            None => 0,
        } < now_millis),
{
    let at = match reset_token_expiry_at {
        Some(at) => at,
        None => 0,
    };
    at < now_millis
}

/// The answer to a user who has logged out.
pub fn logout_user() -> (text: String)
    ensures
        text@ == "Logged out successfully"@,
{
    "Logged out successfully".to_owned()
}

/// Why a login was turned down.
#[derive(Debug, Clone, Copy, PartialEq, Eq, Structural)]
pub enum LoginError {
    /// No such user, or a wrong password: status 401.
    InvalidCredentials,
    /// The stored hash could not be read: status 500.
    VerificationFailed,
}

impl LoginError {
    /// The HTTP status that the error is answered with.
    pub open spec fn status(self) -> u16 {
        match self {
            LoginError::InvalidCredentials => 401,
            LoginError::VerificationFailed => 500,
        }
    }

    /// Computes `status`.
    pub fn status_code(&self) -> (code: u16)
        ensures
            code == self.status(),
    {
        match self {
            LoginError::InvalidCredentials => 401,
            LoginError::VerificationFailed => 500,
        }
    }

    /// The sentence that the error is answered with.
    pub fn message(&self) -> (text: &'static str)
        ensures
            text@ == match self {
                LoginError::InvalidCredentials => "Invalid credentials"@,
                LoginError::VerificationFailed => "Failed to verify password"@,
            },
    {
        match self {
            LoginError::InvalidCredentials => "Invalid credentials",
            LoginError::VerificationFailed => "Failed to verify password",
        }
    }
}

/// Whether the credentials fit the record the store has under the user name,
/// if it has one.
pub open spec fn login_verdict(password: Seq<char>, user: Option<User>) -> Result<(), LoginError> {
    match user {
        None => Err(LoginError::InvalidCredentials),
        Some(record) => match password_verdict(password, record.password_hash@) {
            None => Err(LoginError::VerificationFailed),
            Some(valid) => if valid {
                Ok(())
            } else {
                Err(LoginError::InvalidCredentials)
            },
        },
    }
}

/// Checks a login against the record that the store has under the user
/// name, if it has one.
pub fn authenticate_user(credentials: &LoginRequest, user: Option<&User>) -> (verdict: Result<
    (),
    LoginError,
>)
    ensures
        verdict == login_verdict(
            credentials.password@,
            match user {
                Some(record) => Some(*record),
                None => None,
            },
        ),
{
    match user {
        None => Err(LoginError::InvalidCredentials),
        Some(record) => match verify_password(
            credentials.password.as_str(),
            record.password_hash.as_str(),
        ) {
            Err(_) => Err(LoginError::VerificationFailed),
            Ok(valid) => if valid {
                Ok(())
            } else {
                Err(LoginError::InvalidCredentials)
            },
        },
    }
}

/// The answer to a login: who has logged in. A record without an identifier
/// gets no answer.
pub fn login_response(user: &User) -> (response: Option<LoginResponse>)
    ensures
        response.is_some() == user.id.is_some(),
        response matches Some(r) ==> r.user_id@ == hex_text(user.id.unwrap().bytes())
            && r.username@ == user.username@,
{
    match user.id {
        Some(id) => Some(LoginResponse { user_id: id.to_hex(), username: user.username.clone() }),
        None => None,
    }
}

/// The answer to a sign-up: who has signed up. A record without an
/// identifier gets no answer.
pub fn register_response(user: &User) -> (response: Option<RegisterResponse>)
    ensures
        response.is_some() == user.id.is_some(),
        response matches Some(r) ==> r.user_id@ == hex_text(user.id.unwrap().bytes())
            && r.username@ == user.username@,
{
    match user.id {
        Some(id) => Some(RegisterResponse { user_id: id.to_hex(), username: user.username.clone() }),
        None => None,
    }
}

/// Makes the record of a new user from a sign-up and the hash of its
/// password.
pub fn register_user(req: &RegisterRequest, password_hash: &str) -> (user: User)
    ensures
        user.id is None,
        user.username@ == req.username@,
        user.email@ == req.email@,
        user.password_hash@ == password_hash@,
        user.reset_token is None,
        user.reset_token_expiry_at is None,
{
    User::new(req.username.as_str(), req.email.as_str(), password_hash)
}

} // verus!
