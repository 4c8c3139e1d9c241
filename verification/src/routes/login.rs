//! The login: email and password in, a session token out.

use vstd::prelude::*;
use vstd::string::StringExecFns;
use vstd::string::StringSliceAdditionalSpecFns;
use crate::auth::password::{argon2_accepts, phc_well_formed};
use crate::auth::tokenizer::{is_session_token, Tokenizer};
use crate::db::store::{Answer, Reply};
use crate::db::user::User;
use crate::error::{ApiError, StoreError};
use crate::json::{json_string, quote};

verus! {

/// The body of a successful login.
#[derive(Clone, Debug, PartialEq, Eq)]
pub struct Token {
    /// The session token.
    pub token: String,
}

/// The answer to a successful login: status 200 with the token as JSON.
#[derive(Clone, Debug, PartialEq, Eq)]
pub struct LoginResponder {
    inner: Token,
}

/// The body of a login request.
#[derive(Clone, Copy, Debug, PartialEq, Eq)]
pub struct Login<'r> {
    email: &'r str,
    password: &'r str,
}

/// The JSON object with the token under `token`.
pub open spec fn token_body(token: Seq<char>) -> Seq<char> {
    "{\"token\":"@ + json_string(token) + "}"@
}

impl Token {
    /// The body as JSON text.
    pub fn to_json(&self) -> (body: String)
        ensures
            body@ == token_body(self.token@),
    {
        let mut body = "{\"token\":".to_owned();
        let quoted = quote(self.token.as_str());
        body.append(quoted.as_str());
        body.append("}");
        body
    }
}

impl LoginResponder {
    /// The answer that carries the token `inner`.
    pub fn new(inner: String) -> (responder: Self)
        ensures
            responder.token() == inner,
    {
        Self { inner: Token { token: inner } }
    }

    /// The token carried.
    pub closed spec fn token(&self) -> String {
        self.inner.token
    }

    /// The token carried.
    pub fn into_token(self) -> (token: Token)
        ensures
            token.token == self.token(),
    {
        self.inner
    }
}

impl<'r> Login<'r> {
    /// A login request with this email and password.
    pub fn new(email: &'r str, password: &'r str) -> (login: Login<'r>)
        ensures
            login.email()@ == email@,
            login.password()@ == password@,
    {
        Self { email, password }
    }

    /// The email.
    #[verifier::when_used_as_spec(spec_email)]
    pub fn email(&self) -> (email: &'r str)
        ensures
            email == self.spec_email(),
    {
        self.email
    }

    /// The email.
    pub closed spec fn spec_email(&self) -> &'r str {
        self.email
    }

    /// The password.
    #[verifier::when_used_as_spec(spec_password)]
    pub fn password(&self) -> (password: &'r str)
        ensures
            password == self.spec_password(),
    {
        self.password
    }

    /// The password.
    pub closed spec fn spec_password(&self) -> &'r str {
        self.password
    }
}

/// Answers a login from what the store found for the email: a token only where
/// the credentials are right, and then the session token of the user found.
pub fn post_login(tokenizer: &Tokenizer, found: Reply<User>, login: &Login<'_>) -> (answer: Result<
    LoginResponder,
    ApiError,
>)
    ensures
        answer matches Ok(responder) ==> {
            &&& found matches Ok(Answer::Row(rec))
            &&& phc_well_formed(rec.hash@)
            &&& argon2_accepts(login.password().spec_bytes(), rec.hash@)
            &&& is_session_token(responder.token()@, rec.id, rec.sys_role@, tokenizer.valid_for())
        },
        match found {
            Ok(Answer::Row(rec)) => {
                if !phc_well_formed(rec.hash@) {
                    answer is Err && answer->Err_0 is Argon2PasswordHash
                } else if argon2_accepts(login.password().spec_bytes(), rec.hash@) {
                    answer is Err ==> answer->Err_0 is JWTSign
                } else {
                    answer is Err && answer->Err_0 is WrongCredentials
                }
            },
            Ok(_) => answer is Err && answer->Err_0 is Database,
            Err(StoreError::NotFound) => answer is Err && answer->Err_0 is WrongCredentials,
            Err(_) => answer is Err && answer->Err_0 is Database,
        },
{
    let user = match User::check_credentials(found, login.password()) {
        Ok(user) => user,
        Err(e) => { return Err(e); },
    };
    match tokenizer.generate(&user) {
        Ok(token) => Ok(LoginResponder::new(token)),
        Err(e) => Err(e),
    }
}

} // verus!
