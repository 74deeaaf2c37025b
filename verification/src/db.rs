//! The store and the operations on it: the credential table, the session
//! table, login, session validation, logout, and the default-admin bootstrap.
//!
//! Every operation that depends on the clock or on a generated identifier
//! exists in a form that takes those values as arguments and carries an exact
//! contract; the convenience form draws them from the trusted wrappers and
//! states what holds of every outcome.

use vstd::prelude::*;

use crate::types::{User, UserRole, UserRecord, SessionRecord, LoginRequest, LoginResponse, DbError};
use crate::types::{user_of_rec, str_eq};
use crate::crypto::{bcrypt_accepts, hash_password, verify_password};
use crate::ident::new_uuid;
use crate::clock::now_millis;

verus! {

/// Sessions issued by login expire this long after creation: 24 hours.
pub const SESSION_TTL_MS: i64 = 86400000;

/// The in-memory store: one row sequence per table. Persistence is the
/// caller's concern; the rules on the rows live here.
pub struct Database {
    pub users: Vec<UserRecord>,
    pub sessions: Vec<SessionRecord>,
}

/// Some row holds this username.
pub open spec fn has_username(users: Seq<UserRecord>, username: Seq<char>) -> bool {
    exists|i: int| 0 <= i < users.len() && users[i].username@ == username
}

/// The index of the row holding this username (meaningful under
/// `has_username` together with username uniqueness).
pub open spec fn user_idx(users: Seq<UserRecord>, username: Seq<char>) -> int {
    choose|i: int| 0 <= i < users.len() && users[i].username@ == username
}

/// Some row holds this user id.
pub open spec fn has_user_id(users: Seq<UserRecord>, id: Seq<char>) -> bool {
    exists|i: int| 0 <= i < users.len() && users[i].id@ == id
}

/// The index of the row holding this user id.
pub open spec fn user_idx_by_id(users: Seq<UserRecord>, id: Seq<char>) -> int {
    choose|i: int| 0 <= i < users.len() && users[i].id@ == id
}

/// Some session row holds this token.
pub open spec fn has_token(sessions: Seq<SessionRecord>, token: Seq<char>) -> bool {
    exists|i: int| 0 <= i < sessions.len() && sessions[i].token@ == token
}

/// The index of the session row holding this token.
pub open spec fn session_idx(sessions: Seq<SessionRecord>, token: Seq<char>) -> int {
    choose|i: int| 0 <= i < sessions.len() && sessions[i].token@ == token
}

/// Some session row holds this session id.
pub open spec fn has_session_id(sessions: Seq<SessionRecord>, id: Seq<char>) -> bool {
    exists|i: int| 0 <= i < sessions.len() && sessions[i].id@ == id
}

/// The fields of a user row created at `now`: active, no last login, both
/// timestamps at creation time.
pub open spec fn fresh_user_rec(
    rec: UserRecord,
    id: Seq<char>,
    username: Seq<char>,
    hash: Seq<char>,
    name: Seq<char>,
    role: UserRole,
    now: i64,
) -> bool {
    &&& rec.id@ == id
    &&& rec.username@ == username
    &&& rec.password_hash@ == hash
    &&& rec.name@ == name
    &&& rec.role == role
    &&& rec.is_active == true
    &&& rec.last_login is None
    &&& rec.created_at == now
    &&& rec.updated_at == now
}

/// What `create_user_with` guarantees: success exactly when the username and
/// the id are free; a duplicate username is reported as such with the store
/// unchanged; an id collision is an operational failure with the store
/// unchanged; on success the new row is appended and returned without the
/// hash. Sessions are never touched.
pub open spec fn create_user_with_post(
    pre: Database,
    post: Database,
    username: Seq<char>,
    hash: Seq<char>,
    name: Seq<char>,
    role: UserRole,
    id: Seq<char>,
    now: i64,
    r: Result<User, DbError>,
) -> bool {
    &&& post.sessions@ == pre.sessions@
    &&& (r is Ok <==> !has_username(pre.users@, username) && !has_user_id(pre.users@, id))
    &&& (has_username(pre.users@, username) ==> r == Err::<User, DbError>(
        DbError::DuplicateUsername,
    ) && post == pre)
    &&& (!has_username(pre.users@, username) && has_user_id(pre.users@, id) ==> r == Err::<
        User,
        DbError,
    >(DbError::Operational) && post == pre)
    &&& (r matches Ok(u) ==> {
        &&& post.users@.len() == pre.users@.len() + 1
        &&& post.users@.drop_last() == pre.users@
        &&& fresh_user_rec(post.users@.last(), id, username, hash, name, role, now)
        &&& u == user_of_rec(post.users@.last())
    })
}

/// What `create_user` guarantees of every outcome of the random id and salt:
/// it fails with `DuplicateUsername` exactly when the username is taken;
/// every failure leaves the store unchanged and is never `NotFound`; on
/// success the appended row carries the
/// given fields, a hash that bcrypt accepts against the given password, and
/// equal creation and update times.
pub open spec fn create_user_post(
    pre: Database,
    post: Database,
    username: Seq<char>,
    password: Seq<char>,
    name: Seq<char>,
    role: UserRole,
    r: Result<User, DbError>,
) -> bool {
    &&& post.sessions@ == pre.sessions@
    &&& (r == Err::<User, DbError>(DbError::DuplicateUsername) <==> has_username(
        pre.users@,
        username,
    ))
    &&& (r is Err ==> post == pre)
    &&& (r matches Err(e) ==> e != DbError::NotFound)
    &&& (r matches Ok(u) ==> {
        &&& !has_username(pre.users@, username)
        &&& post.users@.len() == pre.users@.len() + 1
        &&& post.users@.drop_last() == pre.users@
        &&& post.users@.last().username@ == username
        &&& post.users@.last().name@ == name
        &&& post.users@.last().role == role
        &&& post.users@.last().is_active == true
        &&& post.users@.last().last_login is None
        &&& post.users@.last().created_at == post.users@.last().updated_at
        &&& bcrypt_accepts(password, post.users@.last().password_hash@)
        &&& !has_user_id(pre.users@, post.users@.last().id@)
        &&& u == user_of_rec(post.users@.last())
    })
}

/// What the bootstrap guarantees of every outcome: it is idempotent (an
/// existing admin row leaves the store untouched), a failure is always an
/// operational one and changes nothing, and on success an admin row exists —
/// newly appended with the fixed initial credentials when none was there
/// before. Sessions are never touched.
pub open spec fn bootstrap_post(pre: Database, post: Database, r: Result<(), DbError>) -> bool {
    &&& post.sessions@ == pre.sessions@
    &&& (has_username(pre.users@, "admin"@) ==> post == pre && r == Ok::<(), DbError>(()))
    &&& (r is Err ==> post == pre)
    &&& (r matches Err(e) ==> e == DbError::Operational)
    &&& (r is Ok ==> has_username(post.users@, "admin"@))
    &&& (r is Ok && !has_username(pre.users@, "admin"@) ==> {
        &&& post.users@.len() == pre.users@.len() + 1
        &&& post.users@.drop_last() == pre.users@
        &&& post.users@.last().username@ == "admin"@
        &&& post.users@.last().name@ == "Administrator"@
        &&& post.users@.last().role == UserRole::ADMIN
        &&& post.users@.last().is_active == true
        &&& post.users@.last().last_login is None
        &&& bcrypt_accepts("admin123"@, post.users@.last().password_hash@)
    })
}

/// The user's credentials check out: the username names a row, that row is
/// active, and bcrypt accepts the password against its stored hash.
pub open spec fn good_credentials(
    users: Seq<UserRecord>,
    username: Seq<char>,
    password: Seq<char>,
) -> bool {
    &&& has_username(users, username)
    &&& users[user_idx(users, username)].is_active
    &&& bcrypt_accepts(password, users[user_idx(users, username)].password_hash@)
}

/// The user row after a successful login: last login and update time moved to
/// `now`, every other field as before.
pub open spec fn touched_login_rec(pre_rec: UserRecord, post_rec: UserRecord, now: i64) -> bool {
    &&& post_rec.id == pre_rec.id
    &&& post_rec.username == pre_rec.username
    &&& post_rec.password_hash == pre_rec.password_hash
    &&& post_rec.name == pre_rec.name
    &&& post_rec.role == pre_rec.role
    &&& post_rec.is_active == pre_rec.is_active
    &&& post_rec.last_login == Some(now)
    &&& post_rec.created_at == pre_rec.created_at
    &&& post_rec.updated_at == now
}

/// When a session created at `now` expires: 24 hours later, saturated at the
/// largest representable time.
pub open spec fn expiry_of(now: i64) -> i64 {
    if now <= i64::MAX - SESSION_TTL_MS {
        (now + SESSION_TTL_MS) as i64
    } else {
        i64::MAX
    }
}

/// The fields of a session row issued at `now` for `user_id`.
pub open spec fn fresh_session_rec(
    s: SessionRecord,
    id: Seq<char>,
    user_id: Seq<char>,
    token: Seq<char>,
    now: i64,
) -> bool {
    &&& s.id@ == id
    &&& s.user_id@ == user_id
    &&& s.token@ == token
    &&& s.expires_at == expiry_of(now)
    &&& s.last_activity == now
    &&& s.created_at == now
}

/// What `login_with` guarantees: bad credentials always answer `Ok(None)`
/// with the store unchanged — never an error, never a token. Good credentials
/// first move the user's last login to `now`; then, exactly when both the
/// token and the session id are fresh, a session row expiring 24 hours later
/// is appended and the user is returned with the token; a collision on either
/// generated identifier is an operational failure that leaves the session
/// table unchanged (the last-login touch stands: the two writes are not one
/// transaction).
pub open spec fn login_with_post(
    pre: Database,
    post: Database,
    username: Seq<char>,
    password: Seq<char>,
    session_id: Seq<char>,
    token: Seq<char>,
    now: i64,
    r: Result<Option<LoginResponse>, DbError>,
) -> bool {
    &&& (r matches Ok(o) && o is None <==> !good_credentials(pre.users@, username, password))
    &&& (!good_credentials(pre.users@, username, password) ==> post == pre)
    &&& (good_credentials(pre.users@, username, password) ==> {
        let ui = user_idx(pre.users@, username);
        &&& post.users@ == pre.users@.update(ui, post.users@[ui])
        &&& touched_login_rec(pre.users@[ui], post.users@[ui], now)
        &&& (r is Ok <==> !has_token(pre.sessions@, token) && !has_session_id(
            pre.sessions@,
            session_id,
        ))
        &&& (r is Err ==> r == Err::<Option<LoginResponse>, DbError>(DbError::Operational)
            && post.sessions@ == pre.sessions@)
        &&& (r matches Ok(o) ==> o matches Some(resp) && {
            &&& post.sessions@.len() == pre.sessions@.len() + 1
            &&& post.sessions@.drop_last() == pre.sessions@
            &&& fresh_session_rec(
                post.sessions@.last(),
                session_id,
                pre.users@[ui].id@,
                token,
                now,
            )
            &&& resp.token@ == token
            &&& resp.user == user_of_rec(post.users@[ui])
        })
    })
}

/// What `authenticate` guarantees of every outcome of the random token,
/// session id, salt and clock: the negative answer comes exactly on bad
/// credentials and changes nothing; on success a fresh session row is
/// appended whose token was not in use and whose expiry is 24 hours past its
/// creation time, and the user is returned with last login set to that time.
pub open spec fn authenticate_post(
    pre: Database,
    post: Database,
    username: Seq<char>,
    password: Seq<char>,
    r: Result<Option<LoginResponse>, DbError>,
) -> bool {
    &&& (r matches Ok(o) && o is None <==> !good_credentials(pre.users@, username, password))
    &&& (!good_credentials(pre.users@, username, password) ==> post == pre)
    &&& (good_credentials(pre.users@, username, password) ==> {
        let ui = user_idx(pre.users@, username);
        &&& post.users@ == pre.users@.update(ui, post.users@[ui])
        &&& touched_login_rec(pre.users@[ui], post.users@[ui], post.users@[ui].updated_at)
        &&& (r is Err ==> r == Err::<Option<LoginResponse>, DbError>(DbError::Operational)
            && post.sessions@ == pre.sessions@)
        &&& (r matches Ok(o) ==> o matches Some(resp) && {
            &&& post.sessions@.len() == pre.sessions@.len() + 1
            &&& post.sessions@.drop_last() == pre.sessions@
            &&& !has_token(pre.sessions@, resp.token@)
            &&& post.sessions@.last().token@ == resp.token@
            &&& post.sessions@.last().user_id@ == pre.users@[ui].id@
            &&& post.sessions@.last().expires_at == expiry_of(post.sessions@.last().created_at)
            &&& post.sessions@.last().last_activity == post.sessions@.last().created_at
            &&& post.sessions@.last().created_at == post.users@[ui].updated_at
            &&& resp.user == user_of_rec(post.users@[ui])
        })
    })
}

/// The caller-facing values of all user rows, in storage order.
pub open spec fn public_views(users: Seq<UserRecord>) -> Seq<User> {
    users.map_values(|rec: UserRecord| user_of_rec(rec))
}

/// The session row after a successful validation: the activity marker moved
/// to `now`, every other field — the expiry above all — as before.
pub open spec fn touched_session_rec(pre_s: SessionRecord, post_s: SessionRecord, now: i64) -> bool {
    &&& post_s.id == pre_s.id
    &&& post_s.user_id == pre_s.user_id
    &&& post_s.token == pre_s.token
    &&& post_s.expires_at == pre_s.expires_at
    &&& post_s.last_activity == now
    &&& post_s.created_at == pre_s.created_at
}

/// What `validate_session_at` guarantees: an unknown token answers none and
/// changes nothing; a session of a deactivated user answers none and is kept;
/// a session past its expiry is deleted and answers none; otherwise the
/// referenced user is returned and only the session's activity marker moves.
/// Expiry is absolute: validation never extends it.
pub open spec fn validate_post(
    pre: Database,
    post: Database,
    token: Seq<char>,
    now: i64,
    o: Option<User>,
) -> bool {
    &&& post.users@ == pre.users@
    &&& (!has_token(pre.sessions@, token) ==> o is None && post == pre)
    &&& (has_token(pre.sessions@, token) ==> {
        let si = session_idx(pre.sessions@, token);
        let s = pre.sessions@[si];
        let u = pre.users@[user_idx_by_id(pre.users@, s.user_id@)];
        &&& (!u.is_active ==> o is None && post == pre)
        &&& (u.is_active && s.expires_at < now ==> o is None && post.sessions@
            == pre.sessions@.remove(si) && !has_token(post.sessions@, token))
        &&& (u.is_active && s.expires_at >= now ==> {
            &&& o matches Some(user) && user == user_of_rec(u)
            &&& post.sessions@ == pre.sessions@.update(si, post.sessions@[si])
            &&& touched_session_rec(s, post.sessions@[si], now)
        })
    })
}

/// What `validate_session` guarantees of every reading of the clock: the
/// answer is none exactly when the token's session is absent, its user is
/// deactivated, or it is judged expired — and in the last case the row is
/// gone; a positive answer returns the referenced user and moves only the
/// session's activity marker.
pub open spec fn validate_session_post(
    pre: Database,
    post: Database,
    token: Seq<char>,
    o: Option<User>,
) -> bool {
    &&& post.users@ == pre.users@
    &&& (!has_token(pre.sessions@, token) ==> o is None && post == pre)
    &&& (has_token(pre.sessions@, token) ==> {
        let si = session_idx(pre.sessions@, token);
        let s = pre.sessions@[si];
        let u = pre.users@[user_idx_by_id(pre.users@, s.user_id@)];
        &&& (!u.is_active ==> o is None && post == pre)
        &&& (u.is_active ==> {
            &&& (o matches Some(user) ==> user == user_of_rec(u) && post.sessions@
                == pre.sessions@.update(si, post.sessions@[si]) && touched_session_rec(
                s,
                post.sessions@[si],
                post.sessions@[si].last_activity,
            ))
            &&& (o is None ==> post.sessions@ == pre.sessions@.remove(si) && !has_token(
                post.sessions@,
                token,
            ))
        })
    })
}

/// What `logout` guarantees: the token's session row, if any, is gone, the
/// rest of the store is untouched, and a token already absent is no error.
pub open spec fn logout_post(pre: Database, post: Database, token: Seq<char>) -> bool {
    &&& post.users@ == pre.users@
    &&& !has_token(post.sessions@, token)
    &&& (!has_token(pre.sessions@, token) ==> post == pre)
    &&& (has_token(pre.sessions@, token) ==> post.sessions@ == pre.sessions@.remove(
        session_idx(pre.sessions@, token),
    ))
}

/// The user row after an update: name, role and active flag replaced and the
/// update time moved to `now`; identity, password and history untouched.
pub open spec fn updated_user_rec(
    pre_rec: UserRecord,
    post_rec: UserRecord,
    name: Seq<char>,
    role: UserRole,
    is_active: bool,
    now: i64,
) -> bool {
    &&& post_rec.id == pre_rec.id
    &&& post_rec.username == pre_rec.username
    &&& post_rec.password_hash == pre_rec.password_hash
    &&& post_rec.name@ == name
    &&& post_rec.role == role
    &&& post_rec.is_active == is_active
    &&& post_rec.last_login == pre_rec.last_login
    &&& post_rec.created_at == pre_rec.created_at
    &&& post_rec.updated_at == now
}

/// What `update_user_at` guarantees: success exactly when the id names a
/// row; an unknown id fails with `NotFound` and changes nothing; on success
/// that row alone is rewritten as `updated_user_rec` says. Sessions are never
/// touched — a deactivated user's rows stay, and validation refuses them.
pub open spec fn update_user_post(
    pre: Database,
    post: Database,
    id: Seq<char>,
    name: Seq<char>,
    role: UserRole,
    is_active: bool,
    now: i64,
    r: Result<(), DbError>,
) -> bool {
    &&& post.sessions@ == pre.sessions@
    &&& (r is Ok <==> has_user_id(pre.users@, id))
    &&& (r is Err ==> r == Err::<(), DbError>(DbError::NotFound) && post == pre)
    &&& (has_user_id(pre.users@, id) ==> {
        let ui = user_idx_by_id(pre.users@, id);
        &&& post.users@ == pre.users@.update(ui, post.users@[ui])
        &&& updated_user_rec(pre.users@[ui], post.users@[ui], name, role, is_active, now)
    })
}

/// The user row after a password reset: a new hash and a new update time,
/// everything else untouched.
pub open spec fn rehashed_user_rec(
    pre_rec: UserRecord,
    post_rec: UserRecord,
    hash: Seq<char>,
    now: i64,
) -> bool {
    &&& post_rec.id == pre_rec.id
    &&& post_rec.username == pre_rec.username
    &&& post_rec.password_hash@ == hash
    &&& post_rec.name == pre_rec.name
    &&& post_rec.role == pre_rec.role
    &&& post_rec.is_active == pre_rec.is_active
    &&& post_rec.last_login == pre_rec.last_login
    &&& post_rec.created_at == pre_rec.created_at
    &&& post_rec.updated_at == now
}

/// What `reset_password_with` guarantees: success exactly when the id names
/// a row; an unknown id fails with `NotFound` and changes nothing; on success
/// that row alone carries the new hash and update time.
pub open spec fn reset_password_with_post(
    pre: Database,
    post: Database,
    id: Seq<char>,
    hash: Seq<char>,
    now: i64,
    r: Result<(), DbError>,
) -> bool {
    &&& post.sessions@ == pre.sessions@
    &&& (r is Ok <==> has_user_id(pre.users@, id))
    &&& (r is Err ==> r == Err::<(), DbError>(DbError::NotFound) && post == pre)
    &&& (has_user_id(pre.users@, id) ==> {
        let ui = user_idx_by_id(pre.users@, id);
        &&& post.users@ == pre.users@.update(ui, post.users@[ui])
        &&& rehashed_user_rec(pre.users@[ui], post.users@[ui], hash, now)
    })
}

/// With unique usernames, `user_idx` answers exactly the row that holds a
/// stored username.
pub proof fn lemma_username_index(users: Seq<UserRecord>, k: int)
    requires
        0 <= k < users.len(),
        forall|i: int, j: int| 0 <= i < j < users.len() ==> users[i].username@ != users[j].username@,
    ensures
        has_username(users, users[k].username@),
        user_idx(users, users[k].username@) == k,
{
    assert(has_username(users, users[k].username@));
    let c = user_idx(users, users[k].username@);
    assert(0 <= c < users.len() && users[c].username@ == users[k].username@);
    if c < k {
        assert(users[c].username@ != users[k].username@);
    } else if k < c {
        assert(users[k].username@ != users[c].username@);
    }
}

/// With unique user ids, `user_idx_by_id` answers exactly the row that holds
/// a stored id.
pub proof fn lemma_user_id_index(users: Seq<UserRecord>, k: int)
    requires
        0 <= k < users.len(),
        forall|i: int, j: int| 0 <= i < j < users.len() ==> users[i].id@ != users[j].id@,
    ensures
        has_user_id(users, users[k].id@),
        user_idx_by_id(users, users[k].id@) == k,
{
    assert(has_user_id(users, users[k].id@));
    let c = user_idx_by_id(users, users[k].id@);
    assert(0 <= c < users.len() && users[c].id@ == users[k].id@);
    if c < k {
        assert(users[c].id@ != users[k].id@);
    } else if k < c {
        assert(users[k].id@ != users[c].id@);
    }
}

/// With unique tokens, `session_idx` answers exactly the row that holds a
/// stored token.
pub proof fn lemma_token_index(sessions: Seq<SessionRecord>, k: int)
    requires
        0 <= k < sessions.len(),
        forall|i: int, j: int|
            0 <= i < j < sessions.len() ==> sessions[i].token@ != sessions[j].token@,
    ensures
        has_token(sessions, sessions[k].token@),
        session_idx(sessions, sessions[k].token@) == k,
{
    assert(has_token(sessions, sessions[k].token@));
    let c = session_idx(sessions, sessions[k].token@);
    assert(0 <= c < sessions.len() && sessions[c].token@ == sessions[k].token@);
    if c < k {
        assert(sessions[c].token@ != sessions[k].token@);
    } else if k < c {
        assert(sessions[k].token@ != sessions[c].token@);
    }
}

impl Database {
    /// Well-formedness: usernames, user ids, tokens and session ids are
    /// unique, and every session references an existing user.
    pub open spec fn wf(self) -> bool {
        &&& forall|i: int, j: int|
            0 <= i < j < self.users@.len() ==> self.users@[i].username@ != self.users@[j].username@
        &&& forall|i: int, j: int|
            0 <= i < j < self.users@.len() ==> self.users@[i].id@ != self.users@[j].id@
        &&& forall|i: int, j: int|
            0 <= i < j < self.sessions@.len() ==> self.sessions@[i].token@ != self.sessions@[j].token@
        &&& forall|i: int, j: int|
            0 <= i < j < self.sessions@.len() ==> self.sessions@[i].id@ != self.sessions@[j].id@
        &&& forall|i: int|
            0 <= i < self.sessions@.len() ==> has_user_id(self.users@, #[trigger] self.sessions@[i].user_id@)
    }

    /// A fresh, empty store.
    pub fn new() -> (db: Database)
        ensures
            db.wf(),
            db.users@ == Seq::<UserRecord>::empty(),
            db.sessions@ == Seq::<SessionRecord>::empty(),
    {
        Database { users: Vec::new(), sessions: Vec::new() }
    }

    /// The index of the user row holding `username`, if any.
    fn find_user_index(&self, username: &str) -> (r: Option<usize>)
        ensures
            match r {
                Some(i) => i < self.users@.len() && self.users@[i as int].username@ == username@,
                None => !has_username(self.users@, username@),
            },
    {
        let mut i: usize = 0;
        while i < self.users.len()
            invariant
                i <= self.users@.len(),
                forall|k: int| 0 <= k < i ==> self.users@[k].username@ != username@,
            decreases self.users@.len() - i,
        {
            if str_eq(self.users[i].username.as_str(), username) {
                return Some(i);
            }
            i += 1;
        }
        None
    }

    /// The index of the user row holding `id`, if any.
    fn find_user_index_by_id(&self, id: &str) -> (r: Option<usize>)
        ensures
            match r {
                Some(i) => i < self.users@.len() && self.users@[i as int].id@ == id@,
                None => !has_user_id(self.users@, id@),
            },
    {
        let mut i: usize = 0;
        while i < self.users.len()
            invariant
                i <= self.users@.len(),
                forall|k: int| 0 <= k < i ==> self.users@[k].id@ != id@,
            decreases self.users@.len() - i,
        {
            if str_eq(self.users[i].id.as_str(), id) {
                return Some(i);
            }
            i += 1;
        }
        None
    }

    /// The index of the session row holding `token`, if any.
    fn find_session_index(&self, token: &str) -> (r: Option<usize>)
        ensures
            match r {
                Some(i) => i < self.sessions@.len() && self.sessions@[i as int].token@ == token@,
                None => !has_token(self.sessions@, token@),
            },
    {
        let mut i: usize = 0;
        while i < self.sessions.len()
            invariant
                i <= self.sessions@.len(),
                forall|k: int| 0 <= k < i ==> self.sessions@[k].token@ != token@,
            decreases self.sessions@.len() - i,
        {
            if str_eq(self.sessions[i].token.as_str(), token) {
                return Some(i);
            }
            i += 1;
        }
        None
    }

    /// Exact form of user creation, with the hash and the generated id as
    /// arguments: succeeds if and only if the username and the id are free.
    pub fn create_user_with(
        &mut self,
        username: &str,
        password_hash: String,
        name: &str,
        role: UserRole,
        id: String,
        now: i64,
    ) -> (r: Result<User, DbError>)
        requires
            old(self).wf(),
        ensures
            final(self).wf(),
            create_user_with_post(
                *old(self),
                *final(self),
                username@,
                password_hash@,
                name@,
                role,
                id@,
                now,
                r,
            ),
    {
        if self.find_user_index(username).is_some() {
            return Err(DbError::DuplicateUsername);
        }
        if self.find_user_index_by_id(id.as_str()).is_some() {
            return Err(DbError::Operational);
        }
        let username_owned: String = username.to_string();
        let name_owned: String = name.to_string();
        let rec = UserRecord {
            id: id.clone(),
            username: username_owned.clone(),
            password_hash,
            name: name_owned.clone(),
            role,
            is_active: true,
            last_login: None,
            created_at: now,
            updated_at: now,
        };
        let user = User {
            id,
            username: username_owned,
            name: name_owned,
            role,
            is_active: true,
            last_login: None,
            created_at: now,
            updated_at: now,
        };
        self.users.push(rec);
        proof {
            assert(self.users@.drop_last() =~= old(self).users@);
            assert(user == user_of_rec(self.users@.last()));
            assert forall|i: int|
                0 <= i < self.sessions@.len() implies has_user_id(
                self.users@,
                #[trigger] self.sessions@[i].user_id@,
            ) by {
                let j = user_idx_by_id(old(self).users@, self.sessions@[i].user_id@);
                assert(self.users@[j].id@ == self.sessions@[i].user_id@);
            }
        }
        Ok(user)
    }

    /// Create a user account: hash the password with a salted one-way hash,
    /// assign a fresh random id, and store the row, active, with no last
    /// login. Fails with `DuplicateUsername` when the username is taken, and
    /// with `Operational` when hashing fails or the generated id collides;
    /// every failure leaves the store unchanged.
    pub fn create_user(
        &mut self,
        username: &str,
        password: &str,
        name: &str,
        role: &UserRole,
    ) -> (r: Result<User, DbError>)
        requires
            old(self).wf(),
        ensures
            final(self).wf(),
            create_user_post(
                *old(self),
                *final(self),
                username@,
                password@,
                name@,
                *role,
                r,
            ),
    {
        if self.find_user_index(username).is_some() {
            return Err(DbError::DuplicateUsername);
        }
        let hash = match hash_password(password) {
            Ok(h) => h,
            Err(_) => {
                return Err(DbError::Operational);
            },
        };
        let id = new_uuid();
        let now = now_millis();
        self.create_user_with(username, hash, name, *role, id, now)
    }

    /// Exact form of the bootstrap, with the hash and the generated id as
    /// arguments: a no-op when an admin row exists, an operational failure
    /// when the generated id collides, and otherwise the insertion of the
    /// admin row.
    pub fn create_default_admin_with(
        &mut self,
        password_hash: String,
        id: String,
        now: i64,
    ) -> (r: Result<(), DbError>)
        requires
            old(self).wf(),
        ensures
            final(self).wf(),
            final(self).sessions@ == old(self).sessions@,
            has_username(old(self).users@, "admin"@) ==> *final(self) == *old(self) && r == Ok::<
                (),
                DbError,
            >(()),
            !has_username(old(self).users@, "admin"@) && has_user_id(old(self).users@, id@) ==> r
                == Err::<(), DbError>(DbError::Operational) && *final(self) == *old(self),
            !has_username(old(self).users@, "admin"@) && !has_user_id(old(self).users@, id@) ==> r
                == Ok::<(), DbError>(()) && final(self).users@.len() == old(self).users@.len() + 1
                && final(self).users@.drop_last() == old(self).users@ && fresh_user_rec(
                final(self).users@.last(),
                id@,
                "admin"@,
                password_hash@,
                "Administrator"@,
                UserRole::ADMIN,
                now,
            ),
            r is Ok ==> has_username(final(self).users@, "admin"@),
    {
        if self.find_user_index("admin").is_some() {
            return Ok(());
        }
        match self.create_user_with("admin", password_hash, "Administrator", UserRole::ADMIN, id, now) {
            Ok(u) => {
                proof {
                    assert(self.users@[self.users@.len() - 1].username@ == "admin"@);
                }
                Ok(())
            },
            Err(e) => Err(e),
        }
    }

    /// Bootstrap: if no user named `admin` exists, insert one with the fixed
    /// initial password, role `ADMIN`, active. Idempotent — safe to run on
    /// every startup, a no-op after the first successful run.
    pub fn create_default_admin(&mut self) -> (r: Result<(), DbError>)
        requires
            old(self).wf(),
        ensures
            final(self).wf(),
            bootstrap_post(*old(self), *final(self), r),
    {
        if self.find_user_index("admin").is_some() {
            return Ok(());
        }
        let hash = match hash_password("admin123") {
            Ok(h) => h,
            Err(_) => {
                return Err(DbError::Operational);
            },
        };
        let id = new_uuid();
        let now = now_millis();
        self.create_default_admin_with(hash, id, now)
    }

    /// Exact form of login, with the generated session id, token and time as
    /// arguments: bad credentials answer `Ok(None)` untouched; good ones
    /// touch the user's last login, then append a session exactly when both
    /// generated identifiers are fresh.
    pub fn login_with(
        &mut self,
        login: &LoginRequest,
        session_id: String,
        token: String,
        now: i64,
    ) -> (r: Result<Option<LoginResponse>, DbError>)
        requires
            old(self).wf(),
        ensures
            final(self).wf(),
            login_with_post(
                *old(self),
                *final(self),
                login.username@,
                login.password@,
                session_id@,
                token@,
                now,
                r,
            ),
    {
        let ui = match self.find_user_index(login.username.as_str()) {
            Some(i) => i,
            None => {
                return Ok(None);
            },
        };
        proof {
            assert(has_username(self.users@, login.username@));
            let k = user_idx(self.users@, login.username@);
            assert(0 <= k < self.users@.len() && self.users@[k].username@ == login.username@);
            assert(k == ui as int);
        }
        if !self.users[ui].is_active {
            return Ok(None);
        }
        if !verify_password(login.password.as_str(), self.users[ui].password_hash.as_str()) {
            return Ok(None);
        }
        let rec = &mut self.users[ui];
        rec.last_login = Some(now);
        rec.updated_at = now;
        proof {
            assert(self.users@ == old(self).users@.update(ui as int, self.users@[ui as int]));
            assert(touched_login_rec(old(self).users@[ui as int], self.users@[ui as int], now));
            assert forall|k: int| 0 <= k < self.users@.len() implies #[trigger] self.users@[k].username@
                == old(self).users@[k].username@ && self.users@[k].id@
                == old(self).users@[k].id@ by {
                if k != ui as int {
                    assert(self.users@[k] == old(self).users@[k]);
                }
            }
            assert forall|i: int|
                0 <= i < self.sessions@.len() implies has_user_id(
                self.users@,
                #[trigger] self.sessions@[i].user_id@,
            ) by {
                let j = user_idx_by_id(old(self).users@, self.sessions@[i].user_id@);
                assert(self.users@[j].id@ == self.sessions@[i].user_id@);
            }
            assert(self.wf());
        }
        if self.find_session_index(token.as_str()).is_some() {
            return Err(DbError::Operational);
        }
        if self.session_id_taken(session_id.as_str()) {
            return Err(DbError::Operational);
        }
        let expires_at: i64 = if now <= i64::MAX - SESSION_TTL_MS {
            now + SESSION_TTL_MS
        } else {
            i64::MAX
        };
        let sess = SessionRecord {
            id: session_id,
            user_id: self.users[ui].id.clone(),
            token: token.clone(),
            expires_at,
            last_activity: now,
            created_at: now,
        };
        self.sessions.push(sess);
        let user = User {
            id: self.users[ui].id.clone(),
            username: self.users[ui].username.clone(),
            name: self.users[ui].name.clone(),
            role: self.users[ui].role,
            is_active: self.users[ui].is_active,
            last_login: self.users[ui].last_login,
            created_at: self.users[ui].created_at,
            updated_at: self.users[ui].updated_at,
        };
        proof {
            assert(self.sessions@.drop_last() =~= old(self).sessions@);
            assert(user == user_of_rec(self.users@[ui as int]));
            assert forall|i: int|
                0 <= i < self.sessions@.len() implies has_user_id(
                self.users@,
                #[trigger] self.sessions@[i].user_id@,
            ) by {
                if i < self.sessions@.len() - 1 {
                    let j = user_idx_by_id(old(self).users@, self.sessions@[i].user_id@);
                    assert(self.users@[j].id@ == self.sessions@[i].user_id@);
                } else {
                    assert(self.users@[ui as int].id@ == self.sessions@[i].user_id@);
                }
            }
        }
        Ok(Some(LoginResponse { user, token }))
    }

    /// Login: look the user up by username, refuse inactive users and wrong
    /// passwords with an empty result (never an error, never a token), and on
    /// success touch the user's last login and issue a fresh random session
    /// token with a 24-hour absolute expiry. Prior sessions of the same user
    /// are untouched: concurrent sessions are allowed by design.
    pub fn authenticate(&mut self, login: &LoginRequest) -> (r: Result<
        Option<LoginResponse>,
        DbError,
    >)
        requires
            old(self).wf(),
        ensures
            final(self).wf(),
            authenticate_post(*old(self), *final(self), login.username@, login.password@, r),
    {
        let session_id = new_uuid();
        let token = new_uuid();
        let now = now_millis();
        self.login_with(login, session_id, token, now)
    }

    /// Exact form of session validation, with the time as an argument: the
    /// three-state token check — absent, expired (lazily deleted), valid
    /// (activity marker touched, user returned) — with inactive users'
    /// sessions refused but kept.
    pub fn validate_session_at(&mut self, token: &str, now: i64) -> (r: Result<
        Option<User>,
        DbError,
    >)
        requires
            old(self).wf(),
        ensures
            final(self).wf(),
            r matches Ok(o) && validate_post(*old(self), *final(self), token@, now, o),
    {
        let si = match self.find_session_index(token) {
            Some(i) => i,
            None => {
                return Ok(None);
            },
        };
        proof {
            assert(has_token(self.sessions@, token@));
            let k = session_idx(self.sessions@, token@);
            assert(0 <= k < self.sessions@.len() && self.sessions@[k].token@ == token@);
            assert(k == si as int);
            assert(has_user_id(self.users@, self.sessions@[si as int].user_id@));
        }
        let ui = match self.find_user_index_by_id(self.sessions[si].user_id.as_str()) {
            Some(i) => i,
            None => {
                proof {
                    assert(false);
                }
                return Ok(None);
            },
        };
        proof {
            let k = user_idx_by_id(self.users@, self.sessions@[si as int].user_id@);
            assert(0 <= k < self.users@.len() && self.users@[k].id@ == self.sessions@[
                si as int
            ].user_id@);
            assert(k == ui as int);
        }
        if !self.users[ui].is_active {
            return Ok(None);
        }
        if self.sessions[si].expires_at < now {
            self.sessions.remove(si);
            proof {
                assert forall|k: int|
                    0 <= k < self.sessions@.len() implies #[trigger] self.sessions@[k]
                    == if k < si as int {
                    old(self).sessions@[k]
                } else {
                    old(self).sessions@[k + 1]
                } by {}
                assert(!has_token(self.sessions@, token@));
                assert forall|i: int|
                    0 <= i < self.sessions@.len() implies has_user_id(
                    self.users@,
                    #[trigger] self.sessions@[i].user_id@,
                ) by {
                    if i < si as int {
                        assert(self.sessions@[i] == old(self).sessions@[i]);
                    } else {
                        assert(self.sessions@[i] == old(self).sessions@[i + 1]);
                    }
                }
                assert(self.wf());
            }
            return Ok(None);
        }
        let s = &mut self.sessions[si];
        s.last_activity = now;
        proof {
            assert(self.sessions@ == old(self).sessions@.update(si as int, self.sessions@[
                si as int
            ]));
            assert forall|k: int|
                0 <= k < self.sessions@.len() implies #[trigger] self.sessions@[k].token@
                == old(self).sessions@[k].token@ && self.sessions@[k].id@
                == old(self).sessions@[k].id@ && self.sessions@[k].user_id@
                == old(self).sessions@[k].user_id@ by {
                if k != si as int {
                    assert(self.sessions@[k] == old(self).sessions@[k]);
                }
            }
            assert(self.wf());
        }
        let user = User {
            id: self.users[ui].id.clone(),
            username: self.users[ui].username.clone(),
            name: self.users[ui].name.clone(),
            role: self.users[ui].role,
            is_active: self.users[ui].is_active,
            last_login: self.users[ui].last_login,
            created_at: self.users[ui].created_at,
            updated_at: self.users[ui].updated_at,
        };
        proof {
            assert(user == user_of_rec(old(self).users@[ui as int]));
        }
        Ok(Some(user))
    }

    /// Validate a bearer token against the wall clock: none for an unknown
    /// token, an inactive user or an expired session (the expired row is
    /// deleted on the spot); otherwise the referenced user, with the
    /// session's activity marker — never its expiry — refreshed.
    pub fn validate_session(&mut self, token: &str) -> (r: Result<Option<User>, DbError>)
        requires
            old(self).wf(),
        ensures
            final(self).wf(),
            r matches Ok(o) && validate_session_post(*old(self), *final(self), token@, o),
    {
        let now = now_millis();
        self.validate_session_at(token, now)
    }

    /// Delete the session row holding `token`; a token with no session is no
    /// error. The sole way a caller invalidates a session ahead of expiry.
    pub fn logout(&mut self, token: &str) -> (r: Result<(), DbError>)
        requires
            old(self).wf(),
        ensures
            final(self).wf(),
            r == Ok::<(), DbError>(()),
            logout_post(*old(self), *final(self), token@),
    {
        let si = match self.find_session_index(token) {
            Some(i) => i,
            None => {
                return Ok(());
            },
        };
        proof {
            assert(has_token(self.sessions@, token@));
            let k = session_idx(self.sessions@, token@);
            assert(0 <= k < self.sessions@.len() && self.sessions@[k].token@ == token@);
            assert(k == si as int);
        }
        self.sessions.remove(si);
        proof {
            assert forall|k: int|
                0 <= k < self.sessions@.len() implies #[trigger] self.sessions@[k]
                == if k < si as int {
                old(self).sessions@[k]
            } else {
                old(self).sessions@[k + 1]
            } by {}
            assert(!has_token(self.sessions@, token@));
            assert forall|i: int|
                0 <= i < self.sessions@.len() implies has_user_id(
                self.users@,
                #[trigger] self.sessions@[i].user_id@,
            ) by {
                if i < si as int {
                    assert(self.sessions@[i] == old(self).sessions@[i]);
                } else {
                    assert(self.sessions@[i] == old(self).sessions@[i + 1]);
                }
            }
            assert(self.wf());
        }
        Ok(())
    }

    /// Exact form of the user update, with the time as an argument.
    pub fn update_user_at(
        &mut self,
        id: &str,
        name: &str,
        role: &UserRole,
        is_active: bool,
        now: i64,
    ) -> (r: Result<(), DbError>)
        requires
            old(self).wf(),
        ensures
            final(self).wf(),
            update_user_post(*old(self), *final(self), id@, name@, *role, is_active, now, r),
    {
        let ui = match self.find_user_index_by_id(id) {
            Some(i) => i,
            None => {
                return Err(DbError::NotFound);
            },
        };
        proof {
            assert(has_user_id(self.users@, id@));
            let k = user_idx_by_id(self.users@, id@);
            assert(0 <= k < self.users@.len() && self.users@[k].id@ == id@);
            assert(k == ui as int);
        }
        let name_owned: String = name.to_string();
        let rec = &mut self.users[ui];
        rec.name = name_owned;
        rec.role = *role;
        rec.is_active = is_active;
        rec.updated_at = now;
        proof {
            assert(self.users@ == old(self).users@.update(ui as int, self.users@[ui as int]));
            assert forall|k: int| 0 <= k < self.users@.len() implies #[trigger] self.users@[k].username@
                == old(self).users@[k].username@ && self.users@[k].id@
                == old(self).users@[k].id@ by {
                if k != ui as int {
                    assert(self.users@[k] == old(self).users@[k]);
                }
            }
            assert forall|i: int|
                0 <= i < self.sessions@.len() implies has_user_id(
                self.users@,
                #[trigger] self.sessions@[i].user_id@,
            ) by {
                let j = user_idx_by_id(old(self).users@, self.sessions@[i].user_id@);
                assert(self.users@[j].id@ == self.sessions@[i].user_id@);
            }
            assert(self.wf());
        }
        Ok(())
    }

    /// Update a user's name, role and active flag; `NotFound` when the id
    /// names no row. Never touches the password or the session table.
    pub fn update_user(
        &mut self,
        id: &str,
        name: &str,
        role: &UserRole,
        is_active: bool,
    ) -> (r: Result<(), DbError>)
        requires
            old(self).wf(),
        ensures
            final(self).wf(),
            r is Ok <==> has_user_id(old(self).users@, id@),
            r is Err ==> r == Err::<(), DbError>(DbError::NotFound) && *final(self) == *old(self),
            has_user_id(old(self).users@, id@) ==> update_user_post(
                *old(self),
                *final(self),
                id@,
                name@,
                *role,
                is_active,
                final(self).users@[user_idx_by_id(old(self).users@, id@)].updated_at,
                r,
            ),
    {
        let now = now_millis();
        self.update_user_at(id, name, role, is_active, now)
    }

    /// Exact form of the password reset, with the new hash and the time as
    /// arguments.
    pub fn reset_password_with(&mut self, id: &str, new_hash: String, now: i64) -> (r: Result<
        (),
        DbError,
    >)
        requires
            old(self).wf(),
        ensures
            final(self).wf(),
            reset_password_with_post(*old(self), *final(self), id@, new_hash@, now, r),
    {
        let ui = match self.find_user_index_by_id(id) {
            Some(i) => i,
            None => {
                return Err(DbError::NotFound);
            },
        };
        proof {
            assert(has_user_id(self.users@, id@));
            let k = user_idx_by_id(self.users@, id@);
            assert(0 <= k < self.users@.len() && self.users@[k].id@ == id@);
            assert(k == ui as int);
        }
        let rec = &mut self.users[ui];
        rec.password_hash = new_hash;
        rec.updated_at = now;
        proof {
            assert(self.users@ == old(self).users@.update(ui as int, self.users@[ui as int]));
            assert forall|k: int| 0 <= k < self.users@.len() implies #[trigger] self.users@[k].username@
                == old(self).users@[k].username@ && self.users@[k].id@
                == old(self).users@[k].id@ by {
                if k != ui as int {
                    assert(self.users@[k] == old(self).users@[k]);
                }
            }
            assert forall|i: int|
                0 <= i < self.sessions@.len() implies has_user_id(
                self.users@,
                #[trigger] self.sessions@[i].user_id@,
            ) by {
                let j = user_idx_by_id(old(self).users@, self.sessions@[i].user_id@);
                assert(self.users@[j].id@ == self.sessions@[i].user_id@);
            }
            assert(self.wf());
        }
        Ok(())
    }

    /// Re-hash and replace a user's password; `NotFound` when the id names
    /// no row (a hashing failure is an operational error). Every failure
    /// leaves the store unchanged.
    pub fn reset_password(&mut self, id: &str, new_password: &str) -> (r: Result<(), DbError>)
        requires
            old(self).wf(),
        ensures
            final(self).wf(),
            r is Err ==> *final(self) == *old(self),
            r matches Err(e) ==> e != DbError::DuplicateUsername,
            r == Err::<(), DbError>(DbError::NotFound) ==> !has_user_id(old(self).users@, id@),
            !has_user_id(old(self).users@, id@) ==> r is Err,
            r is Ok ==> has_user_id(old(self).users@, id@) && final(self).sessions@ == old(
                self,
            ).sessions@ && {
                let ui = user_idx_by_id(old(self).users@, id@);
                &&& final(self).users@ == old(self).users@.update(ui, final(self).users@[ui])
                &&& rehashed_user_rec(
                    old(self).users@[ui],
                    final(self).users@[ui],
                    final(self).users@[ui].password_hash@,
                    final(self).users@[ui].updated_at,
                )
                &&& bcrypt_accepts(new_password@, final(self).users@[ui].password_hash@)
            },
    {
        let hash = match hash_password(new_password) {
            Ok(h) => h,
            Err(_) => {
                return Err(DbError::Operational);
            },
        };
        let now = now_millis();
        self.reset_password_with(id, hash, now)
    }

    /// All users, newest-created first: the same rows the store holds (as a
    /// multiset of caller-facing values, hashes dropped), ordered by
    /// descending creation time. Rows created in the same millisecond may
    /// come out in either order.
    pub fn get_all_users(&self) -> (r: Result<Vec<User>, DbError>)
        ensures
            r matches Ok(v) && {
                &&& v@.len() == self.users@.len()
                &&& v@.to_multiset() == public_views(self.users@).to_multiset()
                &&& forall|i: int, j: int|
                    0 <= i < j < v@.len() ==> v@[i].created_at >= v@[j].created_at
            },
    {
        broadcast use vstd::seq_lib::group_to_multiset_ensures;

        let mut work: Vec<User> = Vec::new();
        let mut i: usize = 0;
        while i < self.users.len()
            invariant
                i <= self.users@.len(),
                work@ == public_views(self.users@.subrange(0, i as int)),
            decreases self.users@.len() - i,
        {
            let u = User {
                id: self.users[i].id.clone(),
                username: self.users[i].username.clone(),
                name: self.users[i].name.clone(),
                role: self.users[i].role,
                is_active: self.users[i].is_active,
                last_login: self.users[i].last_login,
                created_at: self.users[i].created_at,
                updated_at: self.users[i].updated_at,
            };
            work.push(u);
            proof {
                assert(work@ =~= public_views(self.users@.subrange(0, i + 1 as int)));
            }
            i += 1;
        }
        proof {
            assert(self.users@.subrange(0, self.users@.len() as int) =~= self.users@);
        }
        let ghost all: Seq<User> = public_views(self.users@);
        let mut out: Vec<User> = Vec::new();
        while work.len() > 0
            invariant
                out@.to_multiset().add(work@.to_multiset()) == all.to_multiset(),
                out@.len() + work@.len() == all.len(),
                forall|a: int, b: int|
                    0 <= a < b < out@.len() ==> out@[a].created_at >= out@[b].created_at,
                forall|a: int, b: int|
                    0 <= a < out@.len() && 0 <= b < work@.len() ==> out@[a].created_at
                        >= work@[b].created_at,
            decreases work@.len(),
        {
            let mut m: usize = 0;
            let mut j: usize = 1;
            while j < work.len()
                invariant
                    0 < work@.len(),
                    m < j,
                    j <= work@.len(),
                    forall|k: int| 0 <= k < j ==> work@[m as int].created_at >= work@[k].created_at,
                decreases work@.len() - j,
            {
                if work[j].created_at > work[m].created_at {
                    m = j;
                }
                j += 1;
            }
            let ghost w0 = work@;
            let ghost o0 = out@;
            let u = work.remove(m);
            out.push(u);
            proof {
                assert(w0[m as int] == u);
                assert(w0.contains(u));
                vstd::seq_lib::to_multiset_contains::<User>(w0, u);
                vstd::seq_lib::to_multiset_remove::<User>(w0, m as int);
                vstd::seq_lib::to_multiset_build::<User>(o0, u);
                assert(w0.to_multiset().count(u) > 0);
                assert(work@ == w0.remove(m as int));
                assert(work@.to_multiset() == w0.to_multiset().remove(u));
                assert(out@ == o0.push(u));
                assert(out@.to_multiset() == o0.to_multiset().insert(u));
                assert(out@.to_multiset().add(work@.to_multiset()) =~= o0.to_multiset().add(
                    w0.to_multiset(),
                ));
                assert forall|a: int, b: int|
                    0 <= a < out@.len() && 0 <= b < work@.len() implies out@[a].created_at
                    >= work@[b].created_at by {
                    if b < m as int {
                        assert(work@[b] == w0[b]);
                    } else {
                        assert(work@[b] == w0[b + 1]);
                    }
                    if a < o0.len() {
                        assert(out@[a] == o0[a]);
                    } else {
                        assert(out@[a] == u);
                    }
                }
            }
        }
        proof {
            assert(out@.to_multiset() =~= all.to_multiset());
        }
        Ok(out)
    }

    /// Whether some session row holds `id`.
    fn session_id_taken(&self, id: &str) -> (r: bool)
        ensures
            r == has_session_id(self.sessions@, id@),
    {
        let mut i: usize = 0;
        while i < self.sessions.len()
            invariant
                i <= self.sessions@.len(),
                forall|k: int| 0 <= k < i ==> self.sessions@[k].id@ != id@,
            decreases self.sessions@.len() - i,
        {
            if str_eq(self.sessions[i].id.as_str(), id) {
                return true;
            }
            i += 1;
        }
        false
    }
}

} // verus!
