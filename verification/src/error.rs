//! Errors of the backend, their HTTP status and their JSON body.

use vstd::prelude::*;
use vstd::string::StringExecFns;
use crate::json::{decimal, json_string, push_decimal, quote};

verus! {

/// Why the store did not do what it was asked.
#[derive(Clone, Copy, Debug, PartialEq, Eq, Structural)]
pub enum StoreError {
    /// No row matches.
    NotFound,
    /// A uniqueness rule of the table would be broken.
    Conflict,
    /// Anything else the store reports.
    Failure,
}

/// Everything a request can fail with.
#[derive(Clone, Debug, PartialEq, Eq)]
pub enum ApiError {
    /// The store failed; the text says how.
    Database(String),
    /// A password hash could not be read or made.
    Argon2PasswordHash(String),
    /// JSON could not be read or written.
    Serde(String),
    /// A primary key does not fit its integer type.
    TryFromInt(String),
    /// The CORS policy could not be set up.
    RocketCors(String),
    /// The server could not be launched.
    Rocket(String),
    /// A token could not be signed.
    JWTSign(String),
    /// A token was not accepted: malformed, forged, expired or signed with
    /// another key. The text is the same whatever the cause.
    JWTVerify(String),
    /// Another failure of the token layer.
    JWT(String),
    /// No such record.
    NotFound,
    /// A time tracking could not be inserted.
    ZeiterfassungInsert,
    /// A failure of unknown cause.
    Unknown,
    /// A failure inside the backend.
    Internal,
    /// The request carries no usable bearer token.
    UnauthenticatedUser,
    /// The user is known but may not do this.
    ForbiddenAccess,
    /// The request cannot be served as it stands; the text is shown to the client.
    BadRequest(String),
    /// Email and password do not belong together.
    WrongCredentials,
    /// The request is not authorised.
    Unauthorized,
}

/// HTTP status 400.
pub const BAD_REQUEST: u16 = 400;

/// HTTP status 401.
pub const UNAUTHORIZED: u16 = 401;

/// HTTP status 403.
pub const FORBIDDEN: u16 = 403;

/// HTTP status 404.
pub const NOT_FOUND: u16 = 404;

/// HTTP status 500.
pub const INTERNAL_SERVER_ERROR: u16 = 500;

impl StoreError {
    /// The text under which a failure of the store is reported.
    pub open spec fn spec_describe(self) -> Seq<char> {
        match self {
            StoreError::NotFound => "Record not found"@,
            StoreError::Conflict => "Unique constraint violated"@,
            StoreError::Failure => "Store failure"@,
        }
    }

    /// The text under which a failure of the store is reported.
    pub fn describe(self) -> (text: String)
        ensures
            text@ == self.spec_describe(),
    {
        match self {
            StoreError::NotFound => "Record not found".to_owned(),
            StoreError::Conflict => "Unique constraint violated".to_owned(),
            StoreError::Failure => "Store failure".to_owned(),
        }
    }
}

impl ApiError {
    /// The HTTP status an error is answered with.
    pub open spec fn spec_to_status(&self) -> u16 {
        match self {
            ApiError::NotFound => NOT_FOUND,
            ApiError::UnauthenticatedUser | ApiError::WrongCredentials | ApiError::Unauthorized => UNAUTHORIZED,
            ApiError::ForbiddenAccess => FORBIDDEN,
            ApiError::BadRequest(_) | ApiError::JWT(_) | ApiError::JWTVerify(_) => BAD_REQUEST,
            _ => INTERNAL_SERVER_ERROR,
        }
    }

    /// The HTTP status an error is answered with.
    #[verifier::when_used_as_spec(spec_to_status)]
    pub fn to_status(&self) -> (code: u16)
        ensures
            code == self.spec_to_status(),
    {
        match self {
            ApiError::NotFound => NOT_FOUND,
            ApiError::UnauthenticatedUser | ApiError::WrongCredentials | ApiError::Unauthorized => UNAUTHORIZED,
            ApiError::ForbiddenAccess => FORBIDDEN,
            ApiError::BadRequest(_) | ApiError::JWT(_) | ApiError::JWTVerify(_) => BAD_REQUEST,
            _ => INTERNAL_SERVER_ERROR,
        }
    }

    /// The message of an error, as shown to the client.
    pub open spec fn spec_message(&self) -> Seq<char> {
        match self {
            ApiError::Database(detail) => "Database Error: "@ + detail@,
            ApiError::Argon2PasswordHash(detail) => "Password Error: "@ + detail@,
            ApiError::Serde(detail) => "Serde Json Error: "@ + detail@,
            ApiError::TryFromInt(detail) => "Database Primary Key Error: "@ + detail@,
            ApiError::RocketCors(detail) => "Error setting up CORS: "@ + detail@,
            ApiError::Rocket(detail) => "Launch Failed: "@ + detail@,
            ApiError::JWTSign(detail) => "Could not sign token: "@ + detail@,
            ApiError::JWTVerify(detail) => "Could not verify token: "@ + detail@,
            ApiError::JWT(detail) => "General JWT Error: "@ + detail@,
            ApiError::NotFound => "Not found"@,
            ApiError::ZeiterfassungInsert => "Could not insert Zeiterfassung"@,
            ApiError::Unknown => "Unknown Error"@,
            ApiError::Internal => "Internal error"@,
            ApiError::UnauthenticatedUser => "Unauthenticated user"@,
            ApiError::ForbiddenAccess => "User does not have access rights"@,
            ApiError::BadRequest(text) => text@,
            ApiError::WrongCredentials => "Wrong Credentials"@,
            ApiError::Unauthorized => "Unauthorized"@,
        }
    }

    /// The message of an error, as shown to the client.
    pub fn message(&self) -> (text: String)
        ensures
            text@ == self.spec_message(),
    {
        match self {
            ApiError::Database(detail) => "Database Error: ".to_owned().concat(detail.as_str()),
            ApiError::Argon2PasswordHash(detail) => "Password Error: ".to_owned().concat(
                detail.as_str(),
            ),
            ApiError::Serde(detail) => "Serde Json Error: ".to_owned().concat(detail.as_str()),
            ApiError::TryFromInt(detail) => "Database Primary Key Error: ".to_owned().concat(
                detail.as_str(),
            ),
            ApiError::RocketCors(detail) => "Error setting up CORS: ".to_owned().concat(
                detail.as_str(),
            ),
            ApiError::Rocket(detail) => "Launch Failed: ".to_owned().concat(detail.as_str()),
            ApiError::JWTSign(detail) => "Could not sign token: ".to_owned().concat(detail.as_str()),
            ApiError::JWTVerify(detail) => "Could not verify token: ".to_owned().concat(
                detail.as_str(),
            ),
            ApiError::JWT(detail) => "General JWT Error: ".to_owned().concat(detail.as_str()),
            ApiError::NotFound => "Not found".to_owned(),
            ApiError::ZeiterfassungInsert => "Could not insert Zeiterfassung".to_owned(),
            ApiError::Unknown => "Unknown Error".to_owned(),
            ApiError::Internal => "Internal error".to_owned(),
            ApiError::UnauthenticatedUser => "Unauthenticated user".to_owned(),
            ApiError::ForbiddenAccess => "User does not have access rights".to_owned(),
            ApiError::BadRequest(text) => text.clone(),
            ApiError::WrongCredentials => "Wrong Credentials".to_owned(),
            ApiError::Unauthorized => "Unauthorized".to_owned(),
        }
    }

    /// The error a failure of the store is reported as: a missing row as
    /// [`ApiError::NotFound`], anything else as [`ApiError::Database`] with its text.
    pub fn from_store(e: StoreError) -> (error: ApiError)
        ensures
            e == StoreError::NotFound <==> error is NotFound,
            e != StoreError::NotFound ==> error is Database && error->Database_0@
                == e.spec_describe(),
    {
        match e {
            StoreError::NotFound => ApiError::NotFound,
            _ => ApiError::Database(e.describe()),
        }
    }

    /// The JSON body an error is answered with.
    pub fn to_json(&self) -> (body: String)
        ensures
            body@ == error_body(self.spec_to_status(), self.spec_message()),
    {
        let text = self.message();
        ErrorJson::new(self.to_status(), text.as_str()).to_json()
    }
}

/// The body of an error response.
#[derive(Clone, Copy, Debug, PartialEq, Eq)]
pub struct ErrorJson<'a> {
    /// The message.
    pub error: &'a str,
    /// The HTTP status.
    pub code: u16,
}

/// The JSON object with the message under `error` and the status under `code`.
pub open spec fn error_body(code: u16, error: Seq<char>) -> Seq<char> {
    "{\"error\":"@ + json_string(error) + ",\"code\":"@ + decimal(code as nat) + "}"@
}

impl<'a> ErrorJson<'a> {
    /// The body for a status and a message.
    pub fn new(code: u16, error: &'a str) -> (body: Self)
        ensures
            body.code == code,
            body.error@ == error@,
    {
        Self { error, code }
    }

    /// The body as JSON text.
    pub fn to_json(&self) -> (body: String)
        ensures
            body@ == error_body(self.code, self.error@),
    {
        let mut body = "{\"error\":".to_owned();
        let quoted = quote(self.error);
        body.append(quoted.as_str());
        body.append(",\"code\":");
        push_decimal(&mut body, self.code);
        body.append("}");
        body
    }
}

} // verus!
