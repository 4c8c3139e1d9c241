//! Session tokens: signed with a key pair that lives as long as the process.
//!
//! The key pair is made when the tokenizer is, and never changes or leaves it.
//! A token is therefore good until it expires or the server restarts,
//! whichever comes first.

use vstd::prelude::*;
use jwt_simple::prelude::{
    Clock, Duration, Ed25519KeyPair, Ed25519PublicKey, EdDSAKeyPairLike, EdDSAPublicKeyLike,
    JWTClaims,
};
use crate::auth::password;
use crate::auth::password::{argon2_accepts, phc_well_formed};
use crate::db::user::User;
use crate::error::ApiError;

verus! {

/// A signing key pair of the token crate.
#[verifier::external_type_specification]
#[verifier::external_body]
pub struct ExEd25519KeyPair(jwt_simple::algorithms::Ed25519KeyPair);

/// A verification key of the token crate.
#[verifier::external_type_specification]
#[verifier::external_body]
pub struct ExEd25519PublicKey(jwt_simple::algorithms::Ed25519PublicKey);

/// The error type of the token crate.
#[verifier::external_type_specification]
#[verifier::external_body]
pub struct ExTokenError(jwt_simple::Error);

/// `Ed25519KeyPair::generate` makes a key pair from fresh randomness of the
/// operating system; nothing is promised of the key.
pub assume_specification[ jwt_simple::algorithms::Ed25519KeyPair::generate ]() -> (key_pair:
    jwt_simple::algorithms::Ed25519KeyPair)
;

/// `Ed25519KeyPair::public_key` gives the verification key of a key pair.
pub assume_specification[ jwt_simple::algorithms::Ed25519KeyPair::public_key ](
    key_pair: &jwt_simple::algorithms::Ed25519KeyPair,
) -> (public_key: jwt_simple::algorithms::Ed25519PublicKey)
;

/// The id and the role that a token carries: what the payload of the token
/// holds under the claim `id_claim`, where it holds an integer there, and under
/// the claim `role_claim`, where it holds a string there. The payload is part of
/// the token's text; neither the key nor the clock has a say in it.
pub uninterp spec fn carried(token: Seq<char>, id_claim: Seq<char>, role_claim: Seq<char>) -> (
    Option<i64>,
    Option<Seq<char>>,
);

/// The claims handed out by the token crate, with the role as a sequence of characters.
pub open spec fn claims_view(claims: (Option<i64>, Option<String>)) -> (
    Option<i64>,
    Option<Seq<char>>,
) {
    (
        claims.0,
        match claims.1 {
            Some(role) => Some(role@),
            None => None,
        },
    )
}

/// Whether a claim name is one of those the token crate keeps for itself.
pub open spec fn is_registered_claim(name: Seq<char>) -> bool {
    ||| name == "iat"@
    ||| name == "exp"@
    ||| name == "nbf"@
    ||| name == "iss"@
    ||| name == "sub"@
    ||| name == "aud"@
    ||| name == "jti"@
    ||| name == "nonce"@
}

/// What the payload of a token holds besides the id and the role: the times
/// at which the token was issued, from which it is valid and at which it
/// expires, in seconds since the Unix epoch, each where the payload holds it,
/// and the names of all claims of the payload.
pub uninterp spec fn envelope(token: Seq<char>) -> (
    Option<u64>,
    Option<u64>,
    Option<u64>,
    Set<Seq<char>>,
);

/// The names of the claims of a token that carries an id, a role and its
/// three times, and nothing else.
pub open spec fn claim_names(id_claim: Seq<char>, role_claim: Seq<char>) -> Set<Seq<char>> {
    set!["iat"@, "nbf"@, "exp"@, id_claim, role_claim]
}

/// The last second the clock of the token crate can tell.
pub const LAST_SECOND: u64 = 0xffff_ffff;

/// The seconds since the Unix epoch, as the clock of the token crate reads them.
///
/// Calls `Clock::now_since_epoch` and `as_secs`. The clock keeps the seconds
/// in the upper half of 64 bits, so they never exceed [`LAST_SECOND`]; nothing
/// else is promised of a clock.
#[verifier::external_body]
fn clock_secs() -> (now: u64)
    ensures
        now <= LAST_SECOND,
{
    Clock::now_since_epoch().as_secs()
}

/// Signs a token that carries the user's id under the claim `id_claim` and the
/// role under the claim `role_claim`, issued and valid from `issued_at` and
/// expiring at `expires_at`, both in seconds since the Unix epoch.
///
/// Builds the claims field by field and calls `sign` of the key pair, which
/// serialises header and claims and signs them with fresh randomness. The
/// signature differs from call to call, so nothing is promised of the text of
/// the token but what its payload holds: the custom claims that were handed
/// in, which is what the token crate documents of custom claims, the three
/// times in whole seconds, and no other claim, since a claim that is not set
/// is not written. The two claim names must differ from each other and from
/// the names the token crate keeps for itself, or one would overwrite the
/// other, and the times must be ones the clock of the token crate can tell.
#[verifier::external_body]
fn sign(
    key_pair: &Ed25519KeyPair,
    id_claim: &str,
    id: i32,
    role_claim: &str,
    sys_role: &str,
    issued_at: u64,
    expires_at: u64,
) -> (signed: Result<String, jwt_simple::Error>)
    requires
        id_claim@ != role_claim@,
        !is_registered_claim(id_claim@),
        !is_registered_claim(role_claim@),
        issued_at <= LAST_SECOND,
        expires_at <= LAST_SECOND,
    ensures
        signed matches Ok(token) ==> carried(token@, id_claim@, role_claim@) == (
            Some(id as i64),
            Some(sys_role@),
        ),
        signed matches Ok(token) ==> envelope(token@) == (
            Some(issued_at),
            Some(issued_at),
            Some(expires_at),
            claim_names(id_claim@, role_claim@),
        ),
{
    let mut custom = serde_json::Map::new();
    custom.insert(id_claim.to_string(), serde_json::Value::from(id));
    custom.insert(role_claim.to_string(), serde_json::Value::from(sys_role));
    key_pair.sign(JWTClaims {
        issued_at: Some(Duration::from_secs(issued_at)),
        expires_at: Some(Duration::from_secs(expires_at)),
        invalid_before: Some(Duration::from_secs(issued_at)),
        audiences: None,
        issuer: None,
        jwt_id: None,
        subject: None,
        nonce: None,
        custom,
    })
}

/// Verifies a token and hands out the claims `id_claim`, where the token holds
/// it as an integer, and `role_claim`, where the token holds it as a string.
///
/// Calls `verify_token` of the verification key with the default options,
/// which checks the signature and the expiry against the clock. Whether the
/// token is accepted depends on key and clock, so nothing is promised of that.
/// The claims of an accepted token are read from its payload; the contract
/// names them.
#[verifier::external_body]
fn verify(public_key: &Ed25519PublicKey, token: &str, id_claim: &str, role_claim: &str) -> (verified:
    Result<(Option<i64>, Option<String>), jwt_simple::Error>)
    ensures
        verified matches Ok(claims) ==> claims_view(claims) == carried(
            token@,
            id_claim@,
            role_claim@,
        ),
{
    let claims = public_key.verify_token::<serde_json::Map<String, serde_json::Value>>(token, None)?;
    let id = claims.custom.get(id_claim).and_then(serde_json::Value::as_i64);
    let sys_role = claims.custom.get(role_claim).and_then(serde_json::Value::as_str);
    Ok((id, sys_role.map(str::to_string)))
}

/// The text of an error of the token crate, from its `Display`.
#[verifier::external_body]
fn error_text(e: &jwt_simple::Error) -> (text: String)
{
    e.to_string()
}

/// The claim that carries the primary key of the user.
pub const ID_CLAIM: &'static str = "id";

/// The claim that carries the role of the user.
pub const ROLE_CLAIM: &'static str = "sys_role";

/// Who a token speaks for: enough to authorise a request without asking the store.
#[derive(Clone, Debug, PartialEq, Eq)]
pub struct Identity {
    /// The primary key of the user.
    pub id: i32,
    /// The role of the user.
    pub sys_role: String,
}

/// Whom a token speaks for: the id and the role that its payload holds under
/// [`ID_CLAIM`] and [`ROLE_CLAIM`], or nobody where it holds no id that fits a
/// primary key or no role.
pub open spec fn speaks_for(token: Seq<char>) -> Option<(i32, Seq<char>)> {
    match carried(token, ID_CLAIM@, ROLE_CLAIM@) {
        (Some(id), Some(role)) => if i32::MIN <= id <= i32::MAX {
            Some((id as i32, role))
        } else {
            None
        },
        _ => None,
    }
}

/// The two claim names of a session token differ from each other and from
/// the names the token crate keeps for itself.
proof fn lemma_claim_names()
    ensures
        ID_CLAIM@ != ROLE_CLAIM@,
        !is_registered_claim(ID_CLAIM@),
        !is_registered_claim(ROLE_CLAIM@),
{
    reveal_strlit("id");
    reveal_strlit("sys_role");
    reveal_strlit("iat");
    reveal_strlit("exp");
    reveal_strlit("nbf");
    reveal_strlit("iss");
    reveal_strlit("sub");
    reveal_strlit("aud");
    reveal_strlit("jti");
    reveal_strlit("nonce");
    assert(ID_CLAIM@ == "id"@);
    assert(ROLE_CLAIM@ == "sys_role"@);
    assert("id"@.len() == 2);
    assert("sys_role"@.len() == 8);
    assert("iat"@.len() == 3 && "exp"@.len() == 3 && "nbf"@.len() == 3 && "iss"@.len() == 3);
    assert("sub"@.len() == 3 && "aud"@.len() == 3 && "jti"@.len() == 3 && "nonce"@.len() == 5);
}

/// Issues and verifies session tokens.
pub struct Tokenizer {
    key_pair: Ed25519KeyPair,
    pub_key: Ed25519PublicKey,
    exp_secs: u64,
}

/// The outcome of signing, as the backend reports it: the token, or a signing
/// error with the text of the failure.
pub fn signed(outcome: Result<String, String>) -> (result: Result<String, ApiError>)
    ensures
        match outcome {
            Ok(token) => result == Ok::<String, ApiError>(token),
            Err(text) => result == Err::<String, ApiError>(ApiError::JWTSign(text)),
        },
{
    match outcome {
        Ok(token) => Ok(token),
        Err(text) => Err(ApiError::JWTSign(text)),
    }
}

/// The time at which a token issued at `issued_at` and valid for `valid_for`
/// seconds expires: their sum, or [`LAST_SECOND`] where the sum lies beyond it.
pub open spec fn expiry(issued_at: u64, valid_for: u64) -> u64 {
    if issued_at + valid_for > LAST_SECOND {
        LAST_SECOND
    } else {
        (issued_at + valid_for) as u64
    }
}

/// The time at which a token issued at `issued_at` and valid for `valid_for`
/// seconds expires.
pub fn expires_at(issued_at: u64, valid_for: u64) -> (at: u64)
    ensures
        at == expiry(issued_at, valid_for),
{
    match issued_at.checked_add(valid_for) {
        Some(at) => if at > LAST_SECOND {
            LAST_SECOND
        } else {
            at
        },
        None => LAST_SECOND,
    }
}

/// Whether `token` is the session token of the user with this id and role:
/// it speaks for that user, was issued and is valid from one and the same
/// time, expires `valid_for` seconds after that, and holds no other claim.
pub open spec fn is_session_token(token: Seq<char>, id: i32, sys_role: Seq<char>, valid_for: u64) -> bool {
    &&& speaks_for(token) == Some((id, sys_role))
    &&& envelope(token).0 matches Some(issued_at)
    &&& envelope(token).1 == Some(issued_at)
    &&& envelope(token).2 == Some(expiry(issued_at, valid_for))
    &&& envelope(token).3 == claim_names(ID_CLAIM@, ROLE_CLAIM@)
}

/// The text every token that is not accepted is reported with, whatever the
/// cause: a client cannot tell an expired token from a forged one.
pub open spec fn invalid_token() -> Seq<char> {
    "Invalid token"@
}

/// Whether the claims of a verified token name a user: an id that fits a
/// primary key, and a role.
pub open spec fn names_user(claims: (Option<i64>, Option<String>)) -> bool {
    &&& claims.0 matches Some(id)
    &&& i32::MIN <= id <= i32::MAX
    &&& claims.1 is Some
}

/// The outcome of verifying, as the backend reports it: the identity the
/// claims of an accepted token name, or one and the same error for a token
/// that the token layer rejected, for whatever reason, and for one that it
/// accepted without the token naming a user.
pub fn verified(outcome: Option<(Option<i64>, Option<String>)>) -> (result: Result<
    Identity,
    ApiError,
>)
    ensures
        match outcome {
            Some(claims) => if names_user(claims) {
                &&& result is Ok
                &&& result->Ok_0.id == claims.0->Some_0
                &&& result->Ok_0.sys_role == claims.1->Some_0
            } else {
                is_invalid_token(result)
            },
            None => is_invalid_token(result),
        },
{
    match outcome {
        Some((Some(id), Some(sys_role))) => {
            if -0x8000_0000 <= id && id <= 0x7fff_ffff {
                Ok(Identity { id: id as i32, sys_role })
            } else {
                Err(ApiError::JWTVerify("Invalid token".to_owned()))
            }
        },
        _ => Err(ApiError::JWTVerify("Invalid token".to_owned())),
    }
}

/// Whether a result is the one error that every token that is not accepted gives.
pub open spec fn is_invalid_token(result: Result<Identity, ApiError>) -> bool {
    &&& result is Err
    &&& result->Err_0 is JWTVerify
    &&& result->Err_0->JWTVerify_0@ == invalid_token()
}

impl Tokenizer {
    /// The number of seconds a token of this tokenizer is valid for.
    pub closed spec fn valid_for(&self) -> u64 {
        self.exp_secs
    }

    /// A tokenizer with a fresh key pair, whose tokens are valid for `exp_secs` seconds.
    pub fn new(exp_secs: u64) -> (tokenizer: Self)
        ensures
            tokenizer.valid_for() == exp_secs,
    {
        let key_pair = Ed25519KeyPair::generate();
        let pub_key = key_pair.public_key();
        Self { key_pair, pub_key, exp_secs }
    }

    /// Signs a token for `user`. The token it returns carries the id and the
    /// role of `user` and nothing else of the user, and expires the validity
    /// of this tokenizer after it was issued. A failure to sign is reported
    /// as such and not tried again.
    pub fn generate(&self, user: &User) -> (result: Result<String, ApiError>)
        ensures
            result matches Ok(token) ==> is_session_token(
                token@,
                user.id,
                user.sys_role@,
                self.valid_for(),
            ),
            result is Err ==> result->Err_0 is JWTSign,
    {
        proof {
            lemma_claim_names();
        }
        let now = clock_secs();
        match sign(
            &self.key_pair,
            ID_CLAIM,
            user.id,
            ROLE_CLAIM,
            user.sys_role.as_str(),
            now,
            expires_at(now, self.exp_secs),
        ) {
            Ok(token) => signed(Ok(token)),
            Err(e) => signed(Err(error_text(&e))),
        }
    }

    /// Verifies `token` and says whom it speaks for: the identity it returns
    /// is the one the token carries, and a token that carries none is never
    /// accepted. A token that is missing, malformed, expired or signed with
    /// another key gives one and the same error, with one and the same text.
    pub fn verify(&self, token: &str) -> (result: Result<Identity, ApiError>)
        ensures
            result matches Ok(identity) ==> speaks_for(token@) == Some(
                (identity.id, identity.sys_role@),
            ),
            speaks_for(token@) is None ==> result is Err,
            result is Err ==> is_invalid_token(result),
    {
        match verify(&self.pub_key, token, ID_CLAIM, ROLE_CLAIM) {
            Ok(claims) => verified(Some(claims)),
            Err(_) => verified(None),
        }
    }

    /// Hashes `password` with Argon2 under a fresh random salt, as a PHC
    /// string. The hash it returns reads well and accepts `password`.
    pub fn hash_password(password: &[u8]) -> (result: Result<String, ApiError>)
        ensures
            result matches Ok(hash) ==> phc_well_formed(hash@) && argon2_accepts(password@, hash@),
            result is Err ==> result->Err_0 is Argon2PasswordHash,
    {
        password::hash_password(password)
    }
}

} // verus!
