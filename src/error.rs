use vstd::prelude::*;
use vstd::string::*;

verus! {

/// Failures of the publish pipeline, the delivery worker and the
/// subscription flow.
#[derive(Debug, PartialEq, Eq, Structural)]
pub enum AppError {
    /// The idempotency key is empty or too long.
    InvalidIdempotencyKey,
    /// The key was claimed, but no response was ever saved for it.
    MissingSavedResponse,
    /// A queued task names an issue that is not stored.
    IssueNotFound,
    /// Credentials are missing, malformed or wrong.
    Unauthorized,
    /// A bearer token is not unpadded standard base64.
    MalformedToken,
    /// The subscription token is not known.
    UnknownSubscriptionToken,
    /// No account has the given id.
    UnknownUser,
    /// A password could not be hashed.
    PasswordHashing,
}

impl AppError {
    /// A sentence that describes the failure to a user.
    pub fn message(&self) -> (r: String) {
        match self {
            AppError::InvalidIdempotencyKey => String::from_str("The idempotency key is invalid."),
            AppError::MissingSavedResponse => String::from_str(
                "The request is still being processed.",
            ),
            AppError::IssueNotFound => String::from_str("The newsletter issue does not exist."),
            AppError::Unauthorized => String::from_str("Authentication failed."),
            AppError::MalformedToken => String::from_str("The bearer token is not valid base64."),
            AppError::UnknownSubscriptionToken => String::from_str(
                "The subscription token is unknown.",
            ),
            AppError::UnknownUser => String::from_str("The user does not exist."),
            AppError::PasswordHashing => String::from_str("The password could not be stored."),
        }
    }

    /// The HTTP status that reports this failure to a client.
    pub fn status_code(&self) -> (r: u16)
        ensures
            r == match *self {
                AppError::InvalidIdempotencyKey | AppError::MalformedToken => 400u16,
                AppError::Unauthorized | AppError::UnknownSubscriptionToken => 401u16,
                _ => 500u16,
            },
    {
        match self {
            AppError::InvalidIdempotencyKey => 400,
            AppError::MalformedToken => 400,
            AppError::Unauthorized => 401,
            AppError::UnknownSubscriptionToken => 401,
            _ => 500,
        }
    }
}

} // verus!
