//! The table `user` and the credential check.

use vstd::prelude::*;
use vstd::string::StringSliceAdditionalSpecFns;
use crate::auth::password::{argon2_accepts, check_password, phc_well_formed, Check};
use crate::db::repository::Pending;
use crate::db::store::{Answer, Query, Record, Reply};
use crate::db::values::written;
use crate::error::{ApiError, StoreError};

verus! {

/// A row of the table `user`.
#[derive(Clone, Debug, PartialEq)]
pub struct User {
    /// Column `id`.
    pub id: i32,
    /// Column `username`.
    pub username: String,
    /// Column `firstname`.
    pub firstname: String,
    /// Column `lastname`.
    pub lastname: String,
    /// Column `email`, unique in the table.
    pub email: String,
    /// Column `hash`: the password hash as a PHC string.
    pub hash: String,
    /// Column `sys_role`: `admin` or `user`; no other value is looked for.
    pub sys_role: String,
    /// Column `created_at`, in microseconds since the Unix epoch.
    pub created_at: i64,
    /// Column `updated_at`, in microseconds since the Unix epoch.
    pub updated_at: i64,
}

/// The payload from which a row of `user` is inserted.
#[derive(Clone, Debug, PartialEq)]
pub struct CreateUser {
    /// Column `username`.
    pub username: String,
    /// Column `firstname`.
    pub firstname: String,
    /// Column `lastname`.
    pub lastname: String,
    /// Column `email`.
    pub email: String,
    /// Column `hash`.
    pub hash: String,
    /// Column `sys_role`.
    pub sys_role: String,
}

/// A partial update of a row of `user`: an absent field is left alone. The
/// times of creation and of the last update are the store's to write and have
/// no place in a patch.
#[derive(Clone, Debug, Default, PartialEq)]
pub struct UpdateUser {
    /// Column `username`.
    pub username: Option<String>,
    /// Column `firstname`.
    pub firstname: Option<String>,
    /// Column `lastname`.
    pub lastname: Option<String>,
    /// Column `email`.
    pub email: Option<String>,
    /// Column `hash`.
    pub hash: Option<String>,
    /// Column `sys_role`.
    pub sys_role: Option<String>,
}

/// A request on the table `user`.
#[derive(Clone, Debug, PartialEq)]
pub enum UserQuery {
    /// One of the requests every table takes.
    Table(Query<CreateUser, UpdateUser>),
    /// The row with this email.
    ByEmail(String),
}

impl Record for User {
    type Create = CreateUser;

    type Patch = UpdateUser;

    open spec fn key(&self) -> int {
        self.id as int
    }

    open spec fn stored(item: CreateUser, id: i32, now: i64) -> User {
        User {
            id,
            username: item.username,
            firstname: item.firstname,
            lastname: item.lastname,
            email: item.email,
            hash: item.hash,
            sys_role: item.sys_role,
            created_at: now,
            updated_at: now,
        }
    }

    open spec fn patched(&self, patch: UpdateUser, now: i64) -> User {
        User {
            id: self.id,
            username: written(patch.username, self.username),
            firstname: written(patch.firstname, self.firstname),
            lastname: written(patch.lastname, self.lastname),
            email: written(patch.email, self.email),
            hash: written(patch.hash, self.hash),
            sys_role: written(patch.sys_role, self.sys_role),
            created_at: self.created_at,
            updated_at: now,
        }
    }

    open spec fn carries(&self, item: CreateUser) -> bool {
        &&& self.username == item.username
        &&& self.firstname == item.firstname
        &&& self.lastname == item.lastname
        &&& self.email == item.email
        &&& self.hash == item.hash
        &&& self.sys_role == item.sys_role
    }

    open spec fn clashes(&self, item: CreateUser) -> bool {
        self.email@ == item.email@
    }

    proof fn key_fits(&self) {
    }

    proof fn stored_has_key(item: CreateUser, id: i32, now: i64) {
    }

    proof fn stored_carries(item: CreateUser, id: i32, now: i64) {
    }

    proof fn patched_keeps_key(&self, patch: UpdateUser, now: i64) {
    }
}

impl User {
    /// Whether the row reads as the payload does, field by field. The hash is
    /// left out: the payload of a request holds the password, the row its hash.
    pub open spec fn reads_as(&self, item: &CreateUser) -> bool {
        &&& self.username@ == item.username@
        &&& self.firstname@ == item.firstname@
        &&& self.lastname@ == item.lastname@
        &&& self.email@ == item.email@
        &&& self.sys_role@ == item.sys_role@
    }

    /// Whether the row reads as the payload does, field by field.
    pub fn matches(&self, item: &CreateUser) -> (same: bool)
        ensures
            same == self.reads_as(item),
    {
        self.username == item.username && self.firstname == item.firstname && self.lastname
            == item.lastname && self.email == item.email && self.sys_role == item.sys_role
    }

    /// Whether two rows read the same, field by field.
    pub open spec fn reads_as_row(&self, other: &User) -> bool {
        &&& self.id == other.id
        &&& self.username@ == other.username@
        &&& self.firstname@ == other.firstname@
        &&& self.lastname@ == other.lastname@
        &&& self.email@ == other.email@
        &&& self.hash@ == other.hash@
        &&& self.sys_role@ == other.sys_role@
        &&& self.created_at == other.created_at
        &&& self.updated_at == other.updated_at
    }

    /// Whether two rows read the same, field by field.
    pub fn same_as(&self, other: &User) -> (same: bool)
        ensures
            same == self.reads_as_row(other),
    {
        self.id == other.id && self.username == other.username && self.firstname
            == other.firstname && self.lastname == other.lastname && self.email == other.email
            && self.hash == other.hash && self.sys_role == other.sys_role && self.created_at
            == other.created_at && self.updated_at == other.updated_at
    }

    /// Starts looking up the user with this email, the first step of a login.
    pub fn find_by_email(email: &str) -> (start: (Pending, UserQuery))
        ensures
            start.0 == Pending::Row,
            start.1 is ByEmail,
            start.1->ByEmail_0@ == email@,
    {
        (Pending::Row, UserQuery::ByEmail(email.to_owned()))
    }

    /// What a password check on the stored hash of `rec` means for the login:
    /// the user where the password was accepted, "wrong credentials" where it
    /// was not, a password error where the stored hash cannot be read.
    pub fn judge(rec: User, check: Check) -> (result: Result<User, ApiError>)
        ensures
            match check {
                Check::Accepted => result == Ok::<User, ApiError>(rec),
                Check::Rejected => result == Err::<User, ApiError>(ApiError::WrongCredentials),
                Check::Unreadable(text) => result == Err::<User, ApiError>(
                    ApiError::Argon2PasswordHash(text),
                ),
            },
    {
        match check {
            Check::Accepted => Ok(rec),
            Check::Rejected => Err(ApiError::WrongCredentials),
            Check::Unreadable(text) => Err(ApiError::Argon2PasswordHash(text)),
        }
    }

    /// Decides a login from what the store found for the email and from the
    /// password supplied.
    ///
    /// A user that does not exist and a password that does not fit give the same
    /// error, so that a client cannot tell which emails are known.
    pub fn check_credentials(found: Reply<User>, password: &str) -> (result: Result<User, ApiError>)
        ensures
            match found {
                Ok(Answer::Row(rec)) => {
                    if !phc_well_formed(rec.hash@) {
                        result is Err && result->Err_0 is Argon2PasswordHash
                    } else if argon2_accepts(password.spec_bytes(), rec.hash@) {
                        result == Ok::<User, ApiError>(rec)
                    } else {
                        result == Err::<User, ApiError>(ApiError::WrongCredentials)
                    }
                },
                Ok(_) => result is Err && result->Err_0 is Database && result->Err_0->Database_0@
                    == StoreError::Failure.spec_describe(),
                Err(StoreError::NotFound) => result == Err::<User, ApiError>(
                    ApiError::WrongCredentials,
                ),
                Err(e) => result is Err && result->Err_0 is Database && result->Err_0->Database_0@
                    == e.spec_describe(),
            },
    {
        match found {
            Ok(Answer::Row(rec)) => {
                let check = check_password(password, rec.hash.as_str());
                User::judge(rec, check)
            },
            Ok(_) => Err(ApiError::from_store(StoreError::Failure)),
            Err(StoreError::NotFound) => Err(ApiError::WrongCredentials),
            Err(e) => Err(ApiError::from_store(e)),
        }
    }
}

} // verus!
