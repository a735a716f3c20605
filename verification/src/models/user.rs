//! Users: password hashing and checking, sign-in, and account changes.

use vstd::prelude::*;
use vstd::string::StringSliceAdditionalSpecFns;

use crate::calendar::DateTime;
use crate::entity::user as user_entity;
use crate::entity::user::Role;
use crate::models::error::AuthError;

verus! {

/// Whether Argon2 accepts the password for the stored PHC hash string (the
/// hash parses and the password hashes to it under the parameters and salt
/// it records).
pub uninterp spec fn password_verifies(hash: Seq<char>, password: Seq<char>) -> bool;

/// `PasswordHash::new(hash)` followed by `Argon2::default().verify_password`:
/// succeeds exactly when the password verifies against the hash, named
/// `password_verifies`. Which error comes back otherwise (a malformed hash,
/// a wrong password) is not stated.
#[verifier::external_body]
fn argon2_verify(hash: &str, password: &str) -> (r: Result<(), argon2::password_hash::Error>)
    ensures
        r is Ok <==> password_verifies(hash@, password@),
{
    let parsed = argon2::password_hash::PasswordHash::new(hash)?;
    argon2::password_hash::PasswordVerifier::verify_password(
        &argon2::Argon2::default(),
        password.as_bytes(),
        &parsed,
    )
}

/// A character of the standard Base64 alphabet (`A-Z`, `a-z`, `0-9`, `+`,
/// `/`).
pub open spec fn b64_char(c: char) -> bool {
    ('A' <= c && c <= 'Z') || ('a' <= c && c <= 'z') || ('0' <= c && c <= '9') || c == '+'
        || c == '/'
}

/// The unpadded standard Base64 text of sixteen bytes: twenty-two
/// characters of the alphabet, the last of which carries two bits of data
/// and four zero bits, so it is one of `A`, `Q`, `g`, `w`.
pub open spec fn salt_text(s: Seq<char>) -> bool {
    &&& s.len() == 22
    &&& forall|i: int| 0 <= i < 21 ==> b64_char(#[trigger] s[i])
    &&& (s[21] == 'A' || s[21] == 'Q' || s[21] == 'g' || s[21] == 'w')
}

/// `SaltString::generate(&mut OsRng)`, as its text: sixteen random bytes
/// from the operating system, in unpadded standard Base64. Which bytes is
/// left open: they are random.
#[verifier::external_body]
fn new_salt() -> (r: String)
    ensures
        salt_text(r@),
{
    argon2::password_hash::SaltString::generate(&mut argon2::password_hash::rand_core::OsRng)
        .as_str()
        .to_string()
}

/// `Argon2::default().hash_password(password, salt)` written as a PHC
/// string, the salt given by its Base64 text (`Salt::from_b64`). With the
/// default parameters and a salt of sixteen bytes, the crate refuses only a
/// password of more than `0xFFFFFFFF` bytes. A hash it produces verifies the
/// password it was made from; the text of the hash depends on the salt and
/// is not stated otherwise.
#[verifier::external_body]
fn argon2_hash(password: &str, salt: &str) -> (r: Result<String, argon2::password_hash::Error>)
    ensures
        salt_text(salt@) ==> (r is Ok <==> password.spec_bytes().len() <= 0xFFFF_FFFF),
        r matches Ok(h) ==> password_verifies(h@, password@),
{
    let salt = argon2::password_hash::Salt::from_b64(salt)?;
    match argon2::password_hash::PasswordHasher::hash_password(
        &argon2::Argon2::default(),
        password.as_bytes(),
        salt,
    ) {
        Ok(h) => Ok(h.to_string()),
        Err(e) => Err(e),
    }
}

/// Hashes a password with Argon2 under a fresh random salt. It succeeds
/// exactly when the password is at most `0xFFFFFFFF` bytes long, and the
/// hash verifies the password.
pub fn hash_password(password: &str) -> (r: Result<String, argon2::password_hash::Error>)
    ensures
        r is Ok <==> password.spec_bytes().len() <= 0xFFFF_FFFF,
        r matches Ok(h) ==> password_verifies(h@, password@),
{
    let salt = new_salt();
    argon2_hash(password, salt.as_str())
}

/// A user as the application handles it.
#[derive(Clone, Debug)]
pub struct User {
    pub id: i32,
    pub name: String,
    pub email: String,
    pub password_hash: String,
    pub role: Role,
    pub disabled: bool,
    pub created_at: DateTime,
    pub updated_at: DateTime,
}

/// A user to insert.
#[derive(Clone, Debug)]
pub struct NewUser {
    pub email: String,
    pub name: String,
    pub password_hash: String,
    pub role: Role,
    pub disabled: bool,
    pub created_at: DateTime,
    pub updated_at: DateTime,
}

/// The user of a record.
pub open spec fn user_of(m: user_entity::Model) -> User {
    User {
        id: m.id,
        name: m.name,
        email: m.email,
        password_hash: m.password_hash,
        role: m.role,
        disabled: m.disabled,
        created_at: m.created_at,
        updated_at: m.updated_at,
    }
}

/// Signing in with the user found (if any) and the password succeeds: the
/// account is enabled and the password verifies against its hash.
pub open spec fn sign_in_succeeds(found: Option<User>, password: Seq<char>) -> bool {
    found matches Some(u) && !u.disabled && password_verifies(u.password_hash@, password)
}

/// A user signs in with the password they were created with, as long as
/// their account stays enabled and their hash unchanged.
pub proof fn lemma_new_user_signs_in(created: NewUser, stored: User, password: Seq<char>)
    requires
        password_verifies(created.password_hash@, password),
        stored.password_hash == created.password_hash,
        !stored.disabled,
    ensures
        sign_in_succeeds(Some(stored), password),
{
}

impl User {
    /// The user of a record.
    pub fn from_model(m: user_entity::Model) -> (r: User)
        ensures
            r == user_of(m),
    {
        User {
            id: m.id,
            name: m.name,
            email: m.email,
            password_hash: m.password_hash,
            role: m.role,
            disabled: m.disabled,
            created_at: m.created_at,
            updated_at: m.updated_at,
        }
    }

    /// Checks a password against the stored hash: `Ok` exactly when it
    /// verifies.
    pub fn verify_password(&self, password: &str) -> (r: Result<(), argon2::password_hash::Error>)
        ensures
            r is Ok <==> password_verifies(self.password_hash@, password@),
    {
        argon2_verify(self.password_hash.as_str(), password)
    }

    /// Sign-in: the user found by email, when the account is enabled and the
    /// password verifies; anything else is `InvalidCredentials`.
    pub fn authenticate(found: Option<User>, password: &str) -> (r: Result<User, AuthError>)
        ensures
            r is Ok <==> sign_in_succeeds(found, password@),
            r matches Ok(u) ==> found == Some(u),
            r is Err ==> r matches Err(AuthError::InvalidCredentials),
    {
        match found {
            Some(user) => {
                if !user.disabled && user.verify_password(password).is_ok() {
                    Ok(user)
                } else {
                    Err(AuthError::InvalidCredentials)
                }
            },
            None => Err(AuthError::InvalidCredentials),
        }
    }

    /// A new, enabled user with the password hashed, created and updated at
    /// `now`. It is made for every password of at most `0xFFFFFFFF` bytes;
    /// a longer one is refused by Argon2, as a hash error.
    pub fn create(email: &str, name: &str, password: &str, role: Role, now: DateTime) -> (r: Result<
        NewUser,
        AuthError,
    >)
        ensures
            r is Ok <==> password.spec_bytes().len() <= 0xFFFF_FFFF,
            r matches Ok(u) ==> u.email@ == email@ && u.name@ == name@ && password_verifies(
                u.password_hash@,
                password@,
            ) && u.role == role && !u.disabled && u.created_at == now && u.updated_at == now,
            r is Err ==> r matches Err(AuthError::HashError(_)),
    {
        let password_hash = match hash_password(password) {
            Ok(h) => h,
            Err(e) => {
                return Err(AuthError::from(e));
            },
        };
        Ok(
            NewUser {
                email: String::from_str(email),
                name: String::from_str(name),
                password_hash,
                role,
                disabled: false,
                created_at: now,
                updated_at: now,
            },
        )
    }

    /// The user after an edit (`NotFound` without a record): each given
    /// field replaced, a given password hashed, the update time `now`, the
    /// rest unchanged. With a record, the edit succeeds unless a password of
    /// more than `0xFFFFFFFF` bytes is given, which Argon2 refuses (a hash
    /// error).
    pub fn update(
        model: Option<user_entity::Model>,
        email: Option<&str>,
        name: Option<&str>,
        password: Option<&str>,
        role: Option<Role>,
        now: DateTime,
    ) -> (r: Result<User, AuthError>)
        ensures
            model is None ==> r matches Err(AuthError::NotFound),
            model is Some ==> (r is Ok <==> match password {
                Some(p) => p.spec_bytes().len() <= 0xFFFF_FFFF,
                None => true,
            }),
            r is Err && model is Some ==> r matches Err(AuthError::HashError(_)),
            r matches Ok(u) ==> {
                let m = model.unwrap();
                &&& u.id == m.id
                &&& u.email@ == (match email {
                    Some(e) => e@,
                    None => m.email@,
                })
                &&& u.name@ == (match name {
                    Some(n) => n@,
                    None => m.name@,
                })
                &&& (match password {
                    Some(p) => password_verifies(u.password_hash@, p@),
                    None => u.password_hash == m.password_hash,
                })
                &&& u.role == (match role {
                    Some(x) => x,
                    None => m.role,
                })
                &&& u.disabled == m.disabled
                &&& u.created_at == m.created_at
                &&& u.updated_at == now
            },
    {
        let m = match model {
            Some(m) => m,
            None => {
                return Err(AuthError::NotFound);
            },
        };
        let new_email = match email {
            Some(e) => String::from_str(e),
            None => m.email,
        };
        let new_name = match name {
            Some(n) => String::from_str(n),
            None => m.name,
        };
        let new_hash = match password {
            Some(p) => match hash_password(p) {
                Ok(h) => h,
                Err(e) => {
                    return Err(AuthError::from(e));
                },
            },
            None => m.password_hash,
        };
        let new_role = match role {
            Some(x) => x,
            None => m.role,
        };
        Ok(
            User {
                id: m.id,
                name: new_name,
                email: new_email,
                password_hash: new_hash,
                role: new_role,
                disabled: m.disabled,
                created_at: m.created_at,
                updated_at: now,
            },
        )
    }

    /// The user with its account enabled or disabled (`NotFound` without a
    /// record), updated at `now`.
    pub fn set_disabled(model: Option<user_entity::Model>, disabled: bool, now: DateTime) -> (r:
        Result<User, AuthError>)
        ensures
            model is None ==> r matches Err(AuthError::NotFound),
            model matches Some(m) ==> (r matches Ok(u) && u == (User {
                disabled,
                updated_at: now,
                ..user_of(m)
            })),
    {
        let m = match model {
            Some(m) => m,
            None => {
                return Err(AuthError::NotFound);
            },
        };
        let u = User::from_model(m);
        Ok(User { disabled, updated_at: now, ..u })
    }
}

} // verus!
