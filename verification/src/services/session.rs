//! The life of a session: issued with a fresh token, replaced by the next
//! one, resolved to its account while it is live, and revoked.
//!
//! An account has at most one session. Issuing a session for an account that
//! has one overwrites it, so the token that was handed out before no longer
//! resolves. A session lives for seven days and is then treated as absent,
//! though nothing removes its row.

use crate::error::AppError;
use crate::modules::user::User;
use crate::services::{delete_outcome, lookup_outcome};
use crate::store::{DbError, SessionView, Store, StoreView, SESSION_TTL};
use vstd::prelude::*;

verus! {

/// Calls `Uuid::new_v4` of the crate `uuid` and writes the result out with
/// `to_string`. The token is random, so the contract claims only what holds
/// of every one: written with its hyphens it has 36 characters.
#[verifier::external_body]
fn random_token() -> (token: String)
    ensures
        token@.len() == 36,
{
    uuid::Uuid::new_v4().to_string()
}

/// A fresh random token of 36 characters. It is drawn anew at each call and
/// owes nothing to the account that it is for.
pub fn fresh_token() -> (token: String)
    ensures
        token@.len() == 36,
{
    random_token()
}

/// The session that is issued with the given token at the second `now`.
pub open spec fn issued(token: Seq<char>, now: int) -> SessionView {
    SessionView { session: token, expires_at: now + SESSION_TTL }
}

/// What the service reports after the store has answered an upsert of a
/// session: the token where the store took it, an internal error otherwise.
pub fn create_outcome(session: String, outcome: Result<(), DbError>) -> (r: Result<
    String,
    AppError,
>)
    ensures
        match outcome {
            Ok(_) => r == Ok::<String, AppError>(session),
            Err(_) => r == Err::<String, AppError>(AppError::InternalServerError),
        },
{
    match outcome {
        Ok(_) => Ok(session),
        Err(_) => Err(AppError::InternalServerError),
    }
}

/// Makes the given token the one session of the account `user_id`, live for
/// seven days from the second `now`, and hands the token back.
///
/// It fails with an internal error, and changes nothing, exactly when the
/// store refuses the session: there is no such account, or the expiry cannot
/// be held.
pub fn install(user_id: i32, session: String, store: &mut Store, now: u64) -> (r: Result<
    String,
    AppError,
>)
    requires
        old(store).wf(),
    ensures
        final(store).wf(),
        match r {
            Ok(token) => {
                &&& token == session
                &&& old(store)@.session_refusal(user_id as int, now as int) is None
                &&& final(store)@ == old(store)@.with_session(
                    user_id as int,
                    issued(session@, now as int),
                )
            },
            Err(e) => {
                &&& e == AppError::InternalServerError
                &&& old(store)@.session_refusal(user_id as int, now as int) is Some
                &&& final(store)@ == old(store)@
            },
        },
{
    let outcome = store.upsert_session(user_id, session.clone(), now);
    create_outcome(session, outcome)
}

/// Issues a session for the account `user_id` with a fresh random token, live
/// for seven days from the second `now`, and hands the token back. A session
/// that the account had is overwritten.
///
/// It fails with an internal error, and changes nothing, exactly when the
/// store refuses the session: there is no such account, or the expiry cannot
/// be held.
pub fn create(user_id: i32, store: &mut Store, now: u64) -> (r: Result<String, AppError>)
    requires
        old(store).wf(),
    ensures
        final(store).wf(),
        match r {
            Ok(token) => {
                &&& token@.len() == 36
                &&& old(store)@.session_refusal(user_id as int, now as int) is None
                &&& final(store)@ == old(store)@.with_session(
                    user_id as int,
                    issued(token@, now as int),
                )
            },
            Err(e) => {
                &&& e == AppError::InternalServerError
                &&& old(store)@.session_refusal(user_id as int, now as int) is Some
                &&& final(store)@ == old(store)@
            },
        },
{
    let session = fresh_token();
    install(user_id, session, store, now)
}

/// Resolves a token to the account that holds it at the second `now`.
///
/// It fails with `NotFoundUser` exactly when no account holds a live session
/// with this token; a session whose expiry has passed is not live.
pub fn get_user_by_session(session: String, store: &Store, now: u64) -> (r: Result<
    User,
    AppError,
>)
    requires
        store.wf(),
    ensures
        r is Ok <==> exists|id: int| store@.resolves(session@, now as int, id),
        match r {
            Ok(user) => {
                &&& store@.resolves(session@, now as int, user@.id)
                &&& store@.accounts.dom().contains(user@.id)
                &&& store@.accounts[user@.id] == user@
            },
            Err(e) => {
                &&& e == AppError::NotFoundUser
                &&& forall|id: int| !store@.resolves(session@, now as int, id)
            },
        },
{
    lookup_outcome(store.user_by_session(&session, now))
}

/// Revokes the session of the account `user_id`. It succeeds whether or not
/// the account had one.
pub fn delete(user_id: i32, store: &mut Store) -> (r: Result<(), AppError>)
    requires
        old(store).wf(),
    ensures
        final(store).wf(),
        r is Ok,
        final(store)@ == old(store)@.without_session(user_id as int),
{
    delete_outcome(store.delete_session(user_id))
}

impl StoreView {
    /// No account but `id` holds a session with this token.
    pub open spec fn sole_holder(self, token: Seq<char>, id: int) -> bool {
        forall|other: int| #[trigger]
            self.sessions.dom().contains(other) && self.sessions[other].session == token
                ==> other == id
    }
}

/// A session that was issued resolves to its account, and to no other, for
/// seven days; from the second of its expiry on it resolves to nobody.
pub proof fn lemma_issued_session_resolves_until_expiry(
    before: StoreView,
    id: int,
    token: Seq<char>,
    now: int,
    later: int,
)
    requires
        before.sole_holder(token, id),
    ensures
        later < now + SESSION_TTL ==> forall|who: int|
            before.with_session(id, issued(token, now)).resolves(token, later, who) <==> who == id,
        later >= now + SESSION_TTL ==> forall|who: int|
            !before.with_session(id, issued(token, now)).resolves(token, later, who),
{
}

/// Issuing a second session for an account replaces the first: the account
/// still has one session, the first token resolves to nobody, and the second
/// token resolves to the account while it is live.
pub proof fn lemma_second_issue_rotates(
    before: StoreView,
    id: int,
    first: Seq<char>,
    first_now: int,
    second: Seq<char>,
    second_now: int,
    later: int,
)
    requires
        first != second,
        before.sole_holder(first, id),
        later < second_now + SESSION_TTL,
    ensures
        ({
            let once = before.with_session(id, issued(first, first_now));
            let twice = once.with_session(id, issued(second, second_now));
            &&& twice.sessions.dom() == before.sessions.dom().insert(id)
            &&& twice == before.with_session(id, issued(second, second_now))
            &&& forall|who: int| !twice.resolves(first, later, who)
            &&& twice.resolves(second, later, id)
        }),
{
    let once = before.with_session(id, issued(first, first_now));
    let twice = once.with_session(id, issued(second, second_now));
    assert(twice.sessions =~= before.sessions.insert(id, issued(second, second_now)));
}

/// After a session was revoked its account resolves from no token, and a
/// token that only this account held resolves to nobody. Revoking where
/// there is no session changes nothing.
pub proof fn lemma_revoked_session_is_gone(before: StoreView, id: int, token: Seq<char>, later: int)
    ensures
        !before.without_session(id).resolves(token, later, id),
        before.sole_holder(token, id) ==> forall|who: int|
            !before.without_session(id).resolves(token, later, who),
        !before.sessions.dom().contains(id) ==> before.without_session(id) == before,
        before.without_session(id).without_session(id) == before.without_session(id),
{
    let after = before.without_session(id);
    if !before.sessions.dom().contains(id) {
        assert(after.sessions =~= before.sessions);
    }
    assert(after.without_session(id).sessions =~= after.sessions);
}

} // verus!
