//! The laws of the authentication state machine, proved from the operation
//! contracts alone: what a caller may rely on across sequences of calls.

use vstd::prelude::*;

use crate::types::{User, UserRole, LoginResponse, DbError, user_of_rec};
use crate::crypto::bcrypt_accepts;
use crate::db::{
    Database, has_username, user_idx, has_user_id, user_idx_by_id, has_token, session_idx,
    good_credentials, expiry_of, create_user_post, login_with_post, validate_post, logout_post,
    update_user_post, bootstrap_post, lemma_username_index, lemma_user_id_index,
    lemma_token_index,
};

verus! {

/// A user freshly created with `create_user` holds good credentials: an
/// immediately following login with the same username and password cannot be
/// turned away for a missing user, an inactive user, or a wrong password.
pub proof fn law_created_user_can_login(
    pre: Database,
    mid: Database,
    username: Seq<char>,
    password: Seq<char>,
    name: Seq<char>,
    role: UserRole,
    u: User,
)
    requires
        pre.wf(),
        mid.wf(),
        create_user_post(pre, mid, username, password, name, role, Ok(u)),
    ensures
        good_credentials(mid.users@, username, password),
        mid.users@[user_idx(mid.users@, username)].id == u.id,
{
    let k = mid.users@.len() - 1;
    assert(mid.users@[k].username@ == username);
    lemma_username_index(mid.users@, k);
    assert(mid.users@.last() == mid.users@[k]);
}

/// A token issued by a successful login validates, at any later time up to
/// its expiry, to a user with the id the login answered — and the session
/// row survives the check with its expiry untouched, so the check can be
/// repeated until expiry or logout.
pub proof fn law_issued_token_validates(
    pre: Database,
    mid: Database,
    post: Database,
    username: Seq<char>,
    password: Seq<char>,
    session_id: Seq<char>,
    token: Seq<char>,
    now1: i64,
    resp: LoginResponse,
    now2: i64,
    o: Option<User>,
)
    requires
        pre.wf(),
        mid.wf(),
        post.wf(),
        login_with_post(pre, mid, username, password, session_id, token, now1, Ok(Some(resp))),
        validate_post(mid, post, token, now2, o),
        now2 <= expiry_of(now1),
    ensures
        o matches Some(v) && v.id == resp.user.id,
        has_token(post.sessions@, token),
        post.sessions@[session_idx(post.sessions@, token)].expires_at == expiry_of(now1),
{
    let ui = user_idx(pre.users@, username);
    let sk = mid.sessions@.len() - 1;
    assert(mid.sessions@[sk] == mid.sessions@.last());
    assert(mid.sessions@[sk].token@ == token);
    lemma_token_index(mid.sessions@, sk);
    let s = mid.sessions@[session_idx(mid.sessions@, token)];
    assert(s.expires_at == expiry_of(now1));
    assert(s.user_id@ == pre.users@[ui].id@);
    assert(mid.users@[ui].id == pre.users@[ui].id);
    lemma_user_id_index(mid.users@, ui);
    let u = mid.users@[user_idx_by_id(mid.users@, s.user_id@)];
    assert(u == mid.users@[ui]);
    assert(u.is_active);
    assert(o matches Some(v) && v == user_of_rec(u));
    assert(resp.user == user_of_rec(mid.users@[ui]));
    let sk2 = session_idx(mid.sessions@, token);
    assert(post.sessions@ == mid.sessions@.update(sk2, post.sessions@[sk2]));
    assert(post.sessions@[sk2].token@ == token);
    lemma_token_index(post.sessions@, sk2);
}

/// Login with an unknown username, an inactive user, or a password the
/// stored hash does not accept always answers the negative result: no error,
/// no token, and a store left exactly as it was.
pub proof fn law_login_negative(
    pre: Database,
    post: Database,
    username: Seq<char>,
    password: Seq<char>,
    session_id: Seq<char>,
    token: Seq<char>,
    now: i64,
    r: Result<Option<LoginResponse>, DbError>,
)
    requires
        pre.wf(),
        !has_username(pre.users@, username) || !pre.users@[user_idx(pre.users@, username)].is_active
            || !bcrypt_accepts(password, pre.users@[user_idx(pre.users@, username)].password_hash@),
        login_with_post(pre, post, username, password, session_id, token, now, r),
    ensures
        r == Ok::<Option<LoginResponse>, DbError>(None),
        post == pre,
{
    assert(!good_credentials(pre.users@, username, password));
    assert(r matches Ok(o) && o is None);
}

/// A session checked strictly before its expiry answers its user; checked
/// strictly after its expiry it answers none and its row is deleted. The
/// bound is the session's stored expiry — fixed at creation, never moved by
/// intervening checks.
pub proof fn law_absolute_expiry(
    pre: Database,
    post: Database,
    token: Seq<char>,
    now: i64,
    o: Option<User>,
)
    requires
        pre.wf(),
        validate_post(pre, post, token, now, o),
        has_token(pre.sessions@, token),
        pre.users@[user_idx_by_id(
            pre.users@,
            pre.sessions@[session_idx(pre.sessions@, token)].user_id@,
        )].is_active,
    ensures
        now <= pre.sessions@[session_idx(pre.sessions@, token)].expires_at ==> (o matches Some(v)
            && v == user_of_rec(
            pre.users@[user_idx_by_id(
                pre.users@,
                pre.sessions@[session_idx(pre.sessions@, token)].user_id@,
            )],
        ) && has_token(post.sessions@, token) && post.sessions@[session_idx(
            post.sessions@,
            token,
        )].expires_at == pre.sessions@[session_idx(pre.sessions@, token)].expires_at),
        now > pre.sessions@[session_idx(pre.sessions@, token)].expires_at ==> o is None
            && !has_token(post.sessions@, token),
{
    let si = session_idx(pre.sessions@, token);
    let s = pre.sessions@[si];
    if now <= s.expires_at {
        assert(post.sessions@ == pre.sessions@.update(si, post.sessions@[si]));
        assert(post.sessions@[si].token@ == token);
        assert forall|i: int, j: int|
            0 <= i < j < post.sessions@.len() implies post.sessions@[i].token@
            != post.sessions@[j].token@ by {
            if i != si {
                assert(post.sessions@[i] == pre.sessions@[i]);
            }
            if j != si {
                assert(post.sessions@[j] == pre.sessions@[j]);
            }
        }
        lemma_token_index(post.sessions@, si);
    }
}

/// Logout followed by validation of the same token always answers none and
/// changes nothing further: the row is gone, whatever the clock says.
pub proof fn law_logout_then_validate(
    db0: Database,
    db1: Database,
    db2: Database,
    token: Seq<char>,
    now: i64,
    o: Option<User>,
)
    requires
        logout_post(db0, db1, token),
        validate_post(db1, db2, token, now, o),
    ensures
        o is None,
        db2 == db1,
{
}

/// Creating a user under a username that is already taken fails with
/// `DuplicateUsername` and leaves the store exactly as it was.
pub proof fn law_duplicate_username(
    pre: Database,
    post: Database,
    username: Seq<char>,
    password: Seq<char>,
    name: Seq<char>,
    role: UserRole,
    r: Result<User, DbError>,
)
    requires
        has_username(pre.users@, username),
        create_user_post(pre, post, username, password, name, role, r),
    ensures
        r == Err::<User, DbError>(DbError::DuplicateUsername),
        post == pre,
{
}

/// Bootstrap run twice in sequence: the second run succeeds without touching
/// the store, and exactly one admin row exists afterwards.
pub proof fn law_bootstrap_idempotent(
    db0: Database,
    db1: Database,
    db2: Database,
    r1: Result<(), DbError>,
    r2: Result<(), DbError>,
)
    requires
        db1.wf(),
        bootstrap_post(db0, db1, r1),
        r1 is Ok,
        bootstrap_post(db1, db2, r2),
    ensures
        r2 == Ok::<(), DbError>(()),
        db2 == db1,
        has_username(db2.users@, "admin"@),
        forall|i: int, j: int|
            0 <= i < db2.users@.len() && 0 <= j < db2.users@.len() && db2.users@[i].username@
                == "admin"@ && db2.users@[j].username@ == "admin"@ ==> i == j,
{
    assert(has_username(db1.users@, "admin"@));
    assert forall|i: int, j: int|
        0 <= i < db2.users@.len() && 0 <= j < db2.users@.len() && db2.users@[i].username@
            == "admin"@ && db2.users@[j].username@ == "admin"@ implies i == j by {
        if i < j {
            assert(db2.users@[i].username@ != db2.users@[j].username@);
        } else if j < i {
            assert(db2.users@[j].username@ != db2.users@[i].username@);
        }
    }
}

/// Two successful logins in sequence for the same user produce two distinct
/// tokens, and both sessions stand afterwards, each with its own expiry:
/// issuing a session never revokes an earlier one.
pub proof fn law_two_logins_distinct(
    db0: Database,
    db1: Database,
    db2: Database,
    username: Seq<char>,
    password: Seq<char>,
    sid1: Seq<char>,
    tok1: Seq<char>,
    now1: i64,
    resp1: LoginResponse,
    sid2: Seq<char>,
    tok2: Seq<char>,
    now2: i64,
    resp2: LoginResponse,
)
    requires
        db0.wf(),
        db1.wf(),
        db2.wf(),
        login_with_post(db0, db1, username, password, sid1, tok1, now1, Ok(Some(resp1))),
        login_with_post(db1, db2, username, password, sid2, tok2, now2, Ok(Some(resp2))),
    ensures
        resp1.token@ != resp2.token@,
        has_token(db2.sessions@, resp1.token@),
        has_token(db2.sessions@, resp2.token@),
        db2.sessions@[session_idx(db2.sessions@, resp1.token@)].expires_at == expiry_of(now1),
        db2.sessions@[session_idx(db2.sessions@, resp2.token@)].expires_at == expiry_of(now2),
{
    let k1 = db1.sessions@.len() - 1;
    assert(db1.sessions@[k1] == db1.sessions@.last());
    assert(db1.sessions@[k1].token@ == tok1);
    lemma_token_index(db1.sessions@, k1);
    assert(!has_token(db1.sessions@, tok2));
    assert(db2.sessions@.drop_last() == db1.sessions@);
    assert(db2.sessions@[k1] == db1.sessions@[k1]);
    lemma_token_index(db2.sessions@, k1);
    let k2 = db2.sessions@.len() - 1;
    assert(db2.sessions@[k2] == db2.sessions@.last());
    lemma_token_index(db2.sessions@, k2);
    assert(db2.sessions@[k2].expires_at == expiry_of(now2));
}

/// Deactivating a user invalidates their credentials: a login under that
/// user's username after the update always answers the negative result.
pub proof fn law_deactivated_user_cannot_login(
    pre: Database,
    mid: Database,
    post: Database,
    id: Seq<char>,
    name: Seq<char>,
    role: UserRole,
    now: i64,
    username: Seq<char>,
    password: Seq<char>,
    session_id: Seq<char>,
    token: Seq<char>,
    now2: i64,
    r: Result<Option<LoginResponse>, DbError>,
)
    requires
        pre.wf(),
        mid.wf(),
        has_user_id(pre.users@, id),
        username == pre.users@[user_idx_by_id(pre.users@, id)].username@,
        update_user_post(pre, mid, id, name, role, false, now, Ok(())),
        login_with_post(mid, post, username, password, session_id, token, now2, r),
    ensures
        r == Ok::<Option<LoginResponse>, DbError>(None),
        post == mid,
{
    let ui = user_idx_by_id(pre.users@, id);
    assert(0 <= ui < pre.users@.len() && pre.users@[ui].id@ == id);
    assert(mid.users@ == pre.users@.update(ui, mid.users@[ui]));
    assert(mid.users@[ui].username@ == username);
    assert(!mid.users@[ui].is_active);
    if has_username(mid.users@, username) {
        lemma_username_index(mid.users@, ui);
        assert(user_idx(mid.users@, username) == ui);
        assert(!good_credentials(mid.users@, username, password));
    } else {
        assert(!good_credentials(mid.users@, username, password));
    }
    assert(r matches Ok(o) && o is None);
}

} // verus!
