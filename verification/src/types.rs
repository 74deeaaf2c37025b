//! Data model: user and session records as stored, the caller-facing
//! `User` value (never carrying the password hash), and the error taxonomy.

use vstd::prelude::*;

verus! {

/// The two roles a user account can hold.
#[derive(Clone, Copy, Debug, PartialEq, Eq, Structural)]
pub enum UserRole {
    ADMIN,
    CASHIER,
}

/// A user as handed to callers: every stored field except the password hash.
/// Timestamps are milliseconds since the Unix epoch, UTC.
#[derive(Clone, Debug)]
pub struct User {
    pub id: String,
    pub username: String,
    pub name: String,
    pub role: UserRole,
    pub is_active: bool,
    pub last_login: Option<i64>,
    pub created_at: i64,
    pub updated_at: i64,
}

/// Credentials presented to `login`.
#[derive(Clone, Debug)]
pub struct LoginRequest {
    pub username: String,
    pub password: String,
}

/// A successful login: the authenticated user and a fresh bearer token.
#[derive(Clone, Debug)]
pub struct LoginResponse {
    pub user: User,
    pub token: String,
}

/// Error taxonomy. Authentication negatives (bad credentials, missing or
/// expired session) are never errors: those calls return an empty result.
#[derive(Clone, Copy, Debug, PartialEq, Eq, Structural)]
pub enum DbError {
    /// A referenced user id does not exist (update / password reset).
    NotFound,
    /// `create_user` with a username that is already taken.
    DuplicateUsername,
    /// The store could not complete the operation (uniqueness collision on a
    /// generated identifier, or a failure inside the hashing routine).
    Operational,
}

/// A stored user row: the caller-facing fields plus the password hash.
#[derive(Clone, Debug)]
pub struct UserRecord {
    pub id: String,
    pub username: String,
    pub password_hash: String,
    pub name: String,
    pub role: UserRole,
    pub is_active: bool,
    pub last_login: Option<i64>,
    pub created_at: i64,
    pub updated_at: i64,
}

/// A stored session row. `expires_at` is fixed at creation (absolute expiry);
/// `last_activity` is an observability marker only.
#[derive(Clone, Debug)]
pub struct SessionRecord {
    pub id: String,
    pub user_id: String,
    pub token: String,
    pub expires_at: i64,
    pub last_activity: i64,
    pub created_at: i64,
}

/// The caller-facing value of a stored user row: the same fields with the
/// password hash dropped.
pub open spec fn user_of_rec(rec: UserRecord) -> User {
    User {
        id: rec.id,
        username: rec.username,
        name: rec.name,
        role: rec.role,
        is_active: rec.is_active,
        last_login: rec.last_login,
        created_at: rec.created_at,
        updated_at: rec.updated_at,
    }
}

/// String equality by contents.
pub(crate) fn str_eq(a: &str, b: &str) -> (r: bool)
    ensures
        r == (a@ == b@),
{
    let owned_a: String = a.to_string();
    let owned_b: String = b.to_string();
    owned_a == owned_b
}

/// The stored text of a role: the two literal strings and nothing else.
pub open spec fn role_text_spec(role: UserRole) -> Seq<char> {
    match role {
        UserRole::ADMIN => "ADMIN"@,
        UserRole::CASHIER => "CASHIER"@,
    }
}

/// The role a stored text denotes: text that is not exactly `ADMIN` — a
/// rename or a hand-edited row — falls back to `CASHIER`, the least
/// privileged role.
pub open spec fn role_of_text_spec(text: Seq<char>) -> UserRole {
    if text == "ADMIN"@ {
        UserRole::ADMIN
    } else {
        UserRole::CASHIER
    }
}

/// Encode a role as its stored text.
pub fn role_text(role: &UserRole) -> (r: String)
    ensures
        r@ == role_text_spec(*role),
{
    match role {
        UserRole::ADMIN => "ADMIN".to_string(),
        UserRole::CASHIER => "CASHIER".to_string(),
    }
}

/// Decode a role from its stored text.
pub fn role_of_text(text: &str) -> (r: UserRole)
    ensures
        r == role_of_text_spec(text@),
{
    if str_eq(text, "ADMIN") {
        UserRole::ADMIN
    } else {
        UserRole::CASHIER
    }
}

/// The codec round-trips: decoding the text of a role gives the role back.
pub proof fn lemma_role_text_round_trip(role: UserRole)
    ensures
        role_of_text_spec(role_text_spec(role)) == role,
{
    reveal_strlit("ADMIN");
    reveal_strlit("CASHIER");
    assert("ADMIN"@.len() != "CASHIER"@.len());
}

} // verus!
