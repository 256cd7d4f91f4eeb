//! Users on record.

use crate::object_id::ObjectId;
use crate::timestamp::Timestamp;
use vstd::prelude::*;

verus! {

/// A user account.
#[derive(Debug, Clone)]
pub struct User {
    /// Set once the store has the user.
    pub id: Option<ObjectId>,
    pub username: String,
    pub email: String,
    pub password_hash: String,
    /// The token of a password reset that is under way.
    pub reset_token: Option<String>,
    /// When that token expires, in milliseconds since the start of 1970.
    pub reset_token_expiry_at: Option<i64>,
    pub created_at: Timestamp,
}

/// What is wrong with a user record.
#[derive(Debug, Clone, Copy, PartialEq, Eq, Structural)]
pub struct UserValidationErrors {
    /// The user name has fewer than three characters.
    pub username_too_short: bool,
    /// The e-mail address is none.
    pub email_invalid: bool,
}

/// Whether `text` is an e-mail address as the HTML living standard has it,
/// with the length limits of SMTP and with international domain names.
pub uninterp spec fn is_email_address(text: Seq<char>) -> bool;

/// Calls `validator::ValidateEmail::validate_email` on the text.
#[verifier::external_body]
fn check_email_address(text: &String) -> (valid: bool)
    ensures
        valid == is_email_address(text@),
{
    validator::ValidateEmail::validate_email(text)
}

impl UserValidationErrors {
    /// The sentence for the user name, if it is at fault.
    pub fn username_message(&self) -> (text: Option<&'static str>)
        ensures
            text.is_some() == self.username_too_short,
            text is Some ==> text.unwrap()@ == "Username must be at least 3 characters long"@,
    {
        if self.username_too_short {
            Some("Username must be at least 3 characters long")
        } else {
            None
        }
    }

    /// The sentence for the e-mail address, if it is at fault.
    pub fn email_message(&self) -> (text: Option<&'static str>)
        ensures
            text.is_some() == self.email_invalid,
            text is Some ==> text.unwrap()@ == "Invalid email format"@,
    {
        if self.email_invalid {
            Some("Invalid email format")
        } else {
            None
        }
    }
}

impl User {
    /// What checking the record gives: it passes where the user name has at
    /// least three characters and the e-mail address is one; otherwise the
    /// result says which of the two is at fault.
    pub open spec fn validated(self) -> Result<(), UserValidationErrors> {
        let errors = UserValidationErrors {
            username_too_short: self.username@.len() < 3,
            email_invalid: !is_email_address(self.email@),
        };
        if errors.username_too_short || errors.email_invalid {
            Err(errors)
        } else {
            Ok(())
        }
    }

    /// A user who is not persisted yet and has no password reset under way.
    pub fn new(username: &str, email: &str, password_hash: &str) -> (user: User)
        ensures
            user.id is None,
            user.username@ == username@,
            user.email@ == email@,
            user.password_hash@ == password_hash@,
            user.reset_token is None,
            user.reset_token_expiry_at is None,
    {
        User {
            id: None,
            username: username.to_owned(),
            email: email.to_owned(),
            password_hash: password_hash.to_owned(),
            reset_token: None,
            reset_token_expiry_at: None,
            created_at: Timestamp::now(),
        }
    }

    /// The collection that holds the users.
    pub fn collection_name() -> (name: &'static str)
        ensures
            name@ == "users"@,
    {
        "users"
    }

    /// Checks user name and e-mail address.
    pub fn validate(&self) -> (result: Result<(), UserValidationErrors>)
        ensures
            result == self.validated(),
    {
        let errors = UserValidationErrors {
            username_too_short: self.username.as_str().unicode_len() < 3,
            email_invalid: !check_email_address(&self.email),
        };
        if errors.username_too_short || errors.email_invalid {
            Err(errors)
        } else {
            Ok(())
        }
    }
}

} // verus!
