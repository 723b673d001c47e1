//! The routes of an account: register, log in and out, renew the session,
//! read and change the profile, remove the account.
//!
//! The handlers behind the guard take the account that the guard resolved
//! as an argument. No answer carries a password hash.

use crate::error::AppError;
use crate::modules::user::{CreateDto, LoginDto, UpdateInfoDto, User, UserView};
use crate::response::{
    failure, Account, Body, BodyView, Profile, Response, ResponseView, BAD_REQUEST, CREATED, OK,
};
use crate::services;
use crate::services::password::argon2_accepts;
use crate::services::session::issued;
use crate::services::user::{insert_error, update_error};
use crate::store::{rfc3339_utc, Store, LAST_TIMESTAMP, SESSION_TTL};
use crate::utils::{
    create_auth_header, empty_auth_header, set_cookie_text, SESSION_COOKIE, SESSION_PATH,
};
use vstd::prelude::*;

verus! {

/// The header value that hands the token to the caller.
pub open spec fn auth_cookie(session: Seq<char>) -> Seq<char> {
    set_cookie_text(SESSION_COOKIE@, session, SESSION_PATH@, true, SESSION_TTL as nat)
}

/// The header value that takes the token from the caller.
pub open spec fn empty_cookie() -> Seq<char> {
    set_cookie_text(SESSION_COOKIE@, Seq::empty(), SESSION_PATH@, true, 0)
}

/// The response that hands out a session: the status, the cookie for the
/// token, and in the body the token and what the owner may see of the
/// account.
pub open spec fn session_response(status: u16, session: Seq<char>, user: UserView) -> ResponseView {
    ResponseView {
        status,
        set_cookie: Some(auth_cookie(session)),
        body: BodyView::Session { session_id: session, user: user.account() },
    }
}

/// The response that sets the session cookie and has no body.
pub open spec fn cookie_response(session: Seq<char>) -> ResponseView {
    ResponseView { status: OK, set_cookie: Some(auth_cookie(session)), body: BodyView::Empty }
}

/// The response that makes the caller drop the session cookie.
pub open spec fn clear_response() -> ResponseView {
    ResponseView { status: OK, set_cookie: Some(empty_cookie()), body: BodyView::Empty }
}

/// The response that reports a failure and still makes the caller drop the
/// session cookie.
pub open spec fn clearing_failure(e: AppError) -> ResponseView {
    ResponseView {
        status: e.status_code(),
        set_cookie: Some(empty_cookie()),
        body: e.response().body,
    }
}

/// The response that shows to its owner what the owner may see of an
/// account.
pub open spec fn account_response(user: UserView) -> ResponseView {
    ResponseView { status: OK, set_cookie: None, body: BodyView::Account(user.account()) }
}

/// The response that shows of an account what others may see.
pub open spec fn profile_response(user: UserView) -> ResponseView {
    ResponseView { status: OK, set_cookie: None, body: BodyView::Profile(user.profile()) }
}

/// Answers a registration or a login after the session was asked for: with
/// the given status, the cookie for the token, and the token and the
/// account in the body; or with the failure.
pub fn session_reply(status: u16, issued: Result<String, AppError>, user: User) -> (response:
    Response)
    ensures
        match issued {
            Ok(session) => response@ == session_response(status, session@, user@),
            Err(e) => response@ == e.response(),
        },
{
    match issued {
        Ok(session) => Response {
            status,
            set_cookie: Some(create_auth_header(session.clone())),
            body: Body::Session { session_id: session, user: Account::of(user) },
        },
        Err(e) => e.into_response(),
    }
}

/// Answers a renewal after the session was asked for: with `200` and the
/// cookie for the fresh token, or with the failure.
pub fn cookie_reply(issued: Result<String, AppError>) -> (response: Response)
    ensures
        match issued {
            Ok(session) => response@ == cookie_response(session@),
            Err(e) => response@ == e.response(),
        },
{
    match issued {
        Ok(session) => Response {
            status: OK,
            set_cookie: Some(create_auth_header(session)),
            body: Body::Empty,
        },
        Err(e) => e.into_response(),
    }
}

/// Answers a logout after the revocation was asked for. Whatever the
/// revocation gave, the answer makes the caller drop the token: with `200`
/// where it succeeded, and with the status and the message of the failure
/// where it failed.
pub fn logout_reply(outcome: Result<(), AppError>) -> (response: Response)
    ensures
        response@.set_cookie == Some(empty_cookie()),
        match outcome {
            Ok(_) => response@ == clear_response(),
            Err(e) => response@ == clearing_failure(e),
        },
{
    match outcome {
        Ok(_) => Response { status: OK, set_cookie: Some(empty_auth_header()), body: Body::Empty },
        Err(e) => {
            let failed = e.into_response();
            Response {
                status: failed.status,
                set_cookie: Some(empty_auth_header()),
                body: failed.body,
            }
        },
    }
}

/// Answers the removal of an account: with `200` and a cookie that makes the
/// caller drop the token, or with the failure.
pub fn clear_reply(outcome: Result<(), AppError>) -> (response: Response)
    ensures
        match outcome {
            Ok(_) => response@ == clear_response(),
            Err(e) => response@ == e.response(),
        },
{
    match outcome {
        Ok(_) => Response { status: OK, set_cookie: Some(empty_auth_header()), body: Body::Empty },
        Err(e) => e.into_response(),
    }
}

/// Answers with an account for its owner, or with the failure.
pub fn account_reply(outcome: Result<User, AppError>) -> (response: Response)
    ensures
        match outcome {
            Ok(user) => response@ == account_response(user@),
            Err(e) => response@ == e.response(),
        },
{
    match outcome {
        Ok(user) => Response {
            status: OK,
            set_cookie: None,
            body: Body::Account(Account::of(user)),
        },
        Err(e) => e.into_response(),
    }
}

/// Answers with what others may see of an account, or with the failure.
pub fn profile_reply(outcome: Result<User, AppError>) -> (response: Response)
    ensures
        match outcome {
            Ok(user) => response@ == profile_response(user@),
            Err(e) => response@ == e.response(),
        },
{
    match outcome {
        Ok(user) => Response {
            status: OK,
            set_cookie: None,
            body: Body::Profile(Profile::of(user)),
        },
        Err(e) => e.into_response(),
    }
}

/// Registers an account at the second `now` and logs it in.
///
/// Input that is refused is answered with `400` and the report of every
/// refused field. Accepted input at a second after the last one that the
/// store can write is answered with `500`. Otherwise the account is added
/// exactly when the store does not refuse it: a username that is taken, or
/// an e-mail address that is taken, is answered with `302`, and a store that
/// has run out of ids with `500`. Where the account is added, the answer is
/// `201` with the session cookie, the token and the account, and the store
/// holds the account and its session. Every failure leaves the store as it
/// was.
pub fn register(store: &mut Store, create_dto: CreateDto, now: u64) -> (response: Response)
    requires
        old(store).wf(),
    ensures
        final(store).wf(),
        !create_dto.valid() ==> response@ == failure(BAD_REQUEST, create_dto.faults())
            && final(store)@ == old(store)@,
        create_dto.valid() && now > LAST_TIMESTAMP ==> response@
            == AppError::InternalServerError.response() && final(store)@ == old(store)@,
        create_dto.valid() && now <= LAST_TIMESTAMP && old(store)@.insert_refusal(
            create_dto.username@,
            create_dto.email@,
        ) is Some ==> response@ == insert_error(old(store)@, create_dto.username@).response()
            && final(store)@ == old(store)@,
        create_dto.valid() && now <= LAST_TIMESTAMP && old(store)@.insert_refusal(
            create_dto.username@,
            create_dto.email@,
        ) is None ==> ({
            let id = old(store)@.next_id;
            let user = final(store)@.accounts[id];
            &&& final(store)@.accounts.dom().contains(id)
            &&& user == create_dto.columns(user.password).with_id(id, rfc3339_utc(now as int))
            &&& argon2_accepts(user.password, create_dto.password@)
            &&& match response@.body {
                BodyView::Session { session_id, user: _ } => {
                    &&& response@ == session_response(CREATED, session_id, user)
                    &&& final(store)@ == old(store)@.with_account(user).with_session(
                        id,
                        issued(session_id, now as int),
                    )
                },
                _ => false,
            }
        }),
{
    match services::user::create(create_dto, store, now) {
        Ok(user) => {
            proof {
                store.lemma_wf_view();
            }
            let token = services::session::create(user.id, store, now);
            session_reply(CREATED, token, user)
        },
        Err(e) => e.into_response(),
    }
}

/// Logs in at the second `now`.
///
/// Credentials of the wrong shape are answered with `400` and are not
/// looked up. Where an account has the username and its hash accepts the
/// password, the answer is `200` with the session cookie, the token and the
/// account, and the session replaces the one that the account had; only at
/// a second so late that the expiry cannot be held is the answer `500`.
/// Every other login is answered with `401`, and nothing changes.
pub fn login(store: &mut Store, login_dto: LoginDto, now: u64) -> (response: Response)
    requires
        old(store).wf(),
    ensures
        final(store).wf(),
        !login_dto.valid() ==> response@ == failure(BAD_REQUEST, login_dto.faults())
            && final(store)@ == old(store)@,
        login_dto.valid() && !old(store)@.admits(login_dto.username@, login_dto.password@)
            ==> response@ == AppError::InvalidCredentials.response() && final(store)@ == old(
            store,
        )@,
        login_dto.valid() && old(store)@.admits(login_dto.username@, login_dto.password@) && now
            + SESSION_TTL > u64::MAX ==> response@ == AppError::InternalServerError.response()
            && final(store)@ == old(store)@,
        login_dto.valid() && old(store)@.admits(login_dto.username@, login_dto.password@) && now
            + SESSION_TTL <= u64::MAX ==> match response@.body {
            BodyView::Session { session_id, user: shown } => {
                let user = old(store)@.accounts[shown.id];
                &&& old(store)@.accounts.dom().contains(shown.id)
                &&& user.username == login_dto.username@
                &&& argon2_accepts(user.password, login_dto.password@)
                &&& response@ == session_response(OK, session_id, user)
                &&& final(store)@ == old(store)@.with_session(
                    shown.id,
                    issued(session_id, now as int),
                )
            },
            _ => false,
        },
{
    match login_dto.validate() {
        Ok(_) => {},
        Err(report) => {
            return AppError::ValidationError(report).into_response();
        },
    }
    match services::user::login(login_dto, store) {
        Ok(user) => {
            proof {
                store.lemma_wf_view();
            }
            let token = services::session::create(user.id, store, now);
            session_reply(OK, token, user)
        },
        Err(e) => e.into_response(),
    }
}

/// Logs the account out: its session is revoked, and the answer is `200`
/// with a cookie that makes the caller drop the token. It does so whether
/// or not the account had a session.
pub fn logout(store: &mut Store, user: User) -> (response: Response)
    requires
        old(store).wf(),
    ensures
        final(store).wf(),
        final(store)@ == old(store)@.without_session(user@.id),
        response@ == clear_response(),
{
    logout_reply(services::session::delete(user.id, store))
}

/// Renews the session of the account at the second `now`: a fresh token
/// replaces the one that the account had, and the answer is `200` with the
/// cookie for the fresh token. Where the store refuses the session the
/// answer is `500` and nothing changes.
pub fn refresh(store: &mut Store, user: User, now: u64) -> (response: Response)
    requires
        old(store).wf(),
    ensures
        final(store).wf(),
        match response@.set_cookie {
            Some(header) => {
                &&& old(store)@.session_refusal(user@.id, now as int) is None
                &&& exists|session: Seq<char>|
                    #[trigger] cookie_response(session) == response@ && final(store)@ == old(
                        store,
                    )@.with_session(user@.id, issued(session, now as int))
            },
            None => {
                &&& response@ == AppError::InternalServerError.response()
                &&& old(store)@.session_refusal(user@.id, now as int) is Some
                &&& final(store)@ == old(store)@
            },
        },
{
    let token = services::session::create(user.id, store, now);
    cookie_reply(token)
}

/// Reads a profile. The caller's own username is answered with the
/// caller's account; the username of another account with what others may
/// see of it; a username that no account has with `404`.
pub fn get_information(username: String, user: User, store: &Store) -> (response: Response)
    requires
        store.wf(),
    ensures
        username@ == user@.username ==> response@ == account_response(user@),
        username@ != user@.username && !store@.has_username(username@) ==> response@
            == AppError::NotFoundUser.response(),
        username@ != user@.username && store@.has_username(username@) ==> exists|id: int|
            {
                &&& #[trigger] store@.accounts.dom().contains(id)
                &&& store@.accounts[id].username == username@
                &&& response@ == profile_response(store@.accounts[id])
            },
{
    if username == user.username {
        return account_reply(Ok(user));
    }
    let found = services::user::find(username, store);
    profile_reply(found)
}

/// Changes the profile of the account at the second `now`.
///
/// Input of the wrong shape is answered with `400` and the report of every
/// refused field, input that gives no field with `400`, and a second after
/// the last one that the store can write with `500`. Otherwise the change
/// is made exactly when the store does not refuse it: a username or an
/// e-mail address that another account has is answered with `302`, and an
/// account that is gone with `500`. Where the change is made, the answer is
/// `200` with the account as it now is. Every failure leaves the store as
/// it was.
pub fn update_information(
    store: &mut Store,
    user: User,
    update_info_dto: UpdateInfoDto,
    now: u64,
) -> (response: Response)
    requires
        old(store).wf(),
    ensures
        final(store).wf(),
        !update_info_dto.valid() ==> response@ == failure(BAD_REQUEST, update_info_dto.faults())
            && final(store)@ == old(store)@,
        update_info_dto.valid() && update_info_dto.gives_nothing() ==> response@
            == AppError::BadRequest.response() && final(store)@ == old(store)@,
        update_info_dto.valid() && !update_info_dto.gives_nothing() && now > LAST_TIMESTAMP
            ==> response@ == AppError::InternalServerError.response() && final(store)@ == old(
            store,
        )@,
        update_info_dto.valid() && !update_info_dto.gives_nothing() && now <= LAST_TIMESTAMP
            && old(store)@.update_refusal(
            user@.id,
            update_info_dto.new_username(user@),
            update_info_dto.new_email(user@),
        ) is Some ==> response@ == update_error(
            old(store)@,
            user@.id,
            update_info_dto.new_username(user@),
        ).response() && final(store)@ == old(store)@,
        update_info_dto.valid() && !update_info_dto.gives_nothing() && now <= LAST_TIMESTAMP
            && old(store)@.update_refusal(
            user@.id,
            update_info_dto.new_username(user@),
            update_info_dto.new_email(user@),
        ) is None ==> ({
            let changed = old(store)@.changed_account(
                user@.id,
                update_info_dto.new_name(user@),
                update_info_dto.new_username(user@),
                update_info_dto.new_email(user@),
                update_info_dto.new_gender(user@),
                rfc3339_utc(now as int),
            );
            &&& response@ == account_response(changed)
            &&& final(store)@ == old(store)@.with_changed_account(changed)
        }),
{
    match update_info_dto.validate() {
        Ok(_) => {},
        Err(report) => {
            return AppError::ValidationError(report).into_response();
        },
    }
    account_reply(services::user::update_information(user, update_info_dto, store, now))
}

/// Removes the account and its session. The answer is `200` with a cookie
/// that makes the caller drop the token.
pub fn delete(user: User, store: &mut Store) -> (response: Response)
    requires
        old(store).wf(),
    ensures
        final(store).wf(),
        final(store)@ == old(store)@.without_account(user@.id),
        response@ == clear_response(),
{
    clear_reply(services::user::delete(user, store))
}

} // verus!
