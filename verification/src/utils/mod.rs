//! The cookie that carries a session token to the caller and back.

use crate::store::SESSION_TTL;
use cookie::time::Duration;
use cookie::Cookie;
use vstd::prelude::*;

verus! {

/// The name of the cookie that carries the session token.
pub const SESSION_COOKIE: &'static str = "session";

/// The path for which the session cookie holds.
pub const SESSION_PATH: &'static str = "/";

/// The character of a decimal digit.
pub open spec fn digit(d: nat) -> char {
    if d == 0 {
        '0'
    } else if d == 1 {
        '1'
    } else if d == 2 {
        '2'
    } else if d == 3 {
        '3'
    } else if d == 4 {
        '4'
    } else if d == 5 {
        '5'
    } else if d == 6 {
        '6'
    } else if d == 7 {
        '7'
    } else if d == 8 {
        '8'
    } else {
        '9'
    }
}

/// A number written in decimal digits, without leading zeros.
pub open spec fn decimal(n: nat) -> Seq<char>
    decreases n,
{
    if n < 10 {
        seq![digit(n)]
    } else {
        decimal(n / 10).push(digit(n % 10))
    }
}

/// The value of a `Set-Cookie` header for a cookie with a path and a maximal
/// age in seconds, marked http-only or not.
pub open spec fn set_cookie_text(
    name: Seq<char>,
    value: Seq<char>,
    path: Seq<char>,
    http_only: bool,
    max_age: nat,
) -> Seq<char> {
    name + "="@ + value + (if http_only {
        "; HttpOnly"@
    } else {
        Seq::empty()
    }) + "; Path="@ + path + "; Max-Age="@ + decimal(max_age)
}

/// Calls `Cookie::build` of the crate `cookie` with the name and the value,
/// sets the path, the http-only mark and the maximal age on the builder, and
/// writes the cookie out with `to_string`. The contract states the text that
/// `Cookie`'s `Display` writes for these attributes: name and value,
/// `; HttpOnly` where the mark is set, `; Path=` and `; Max-Age=` with the
/// seconds in decimal.
#[verifier::external_body]
fn format_cookie(name: &str, value: &str, path: &str, http_only: bool, max_age: u32) -> (text:
    String)
    ensures
        text@ == set_cookie_text(name@, value@, path@, http_only, max_age as nat),
{
    Cookie::build((name, value)).path(path).http_only(http_only).max_age(
        Duration::seconds(i64::from(max_age)),
    ).to_string()
}

/// The header value that hands a session token to the caller: a cookie
/// named `session`, for the path `/`, http-only, to be kept for seven days.
pub fn create_auth_header(session: String) -> (header: String)
    ensures
        header@ == set_cookie_text(
            SESSION_COOKIE@,
            session@,
            SESSION_PATH@,
            true,
            SESSION_TTL as nat,
        ),
{
    format_cookie(SESSION_COOKIE, session.as_str(), SESSION_PATH, true, 604_800)
}

/// The header value that takes the session token from the caller: the same
/// cookie with an empty value, to be dropped at once.
pub fn empty_auth_header() -> (header: String)
    ensures
        header@ == set_cookie_text(SESSION_COOKIE@, Seq::empty(), SESSION_PATH@, true, 0),
{
    let header = format_cookie(SESSION_COOKIE, "", SESSION_PATH, true, 0);
    proof {
        reveal_strlit("");
        assert(""@ =~= Seq::<char>::empty());
    }
    header
}

/// The session cookie, written out: what [`create_auth_header`] gives for a
/// token, and what [`empty_auth_header`] gives.
pub proof fn lemma_auth_header_text(session: Seq<char>)
    ensures
        set_cookie_text(SESSION_COOKIE@, session, SESSION_PATH@, true, SESSION_TTL as nat)
            == "session="@ + session + "; HttpOnly; Path=/; Max-Age=604800"@,
        set_cookie_text(SESSION_COOKIE@, Seq::empty(), SESSION_PATH@, true, 0)
            == "session=; HttpOnly; Path=/; Max-Age=0"@,
{
    reveal_strlit("session");
    reveal_strlit("/");
    reveal_strlit("=");
    reveal_strlit("; HttpOnly");
    reveal_strlit("; Path=");
    reveal_strlit("; Max-Age=");
    reveal_strlit("session=");
    reveal_strlit("; HttpOnly; Path=/; Max-Age=604800");
    reveal_strlit("session=; HttpOnly; Path=/; Max-Age=0");
    assert(decimal(0) =~= seq!['0']);
    assert(decimal(6) =~= seq!['6']);
    assert(decimal(60) =~= seq!['6', '0']);
    assert(decimal(604) =~= seq!['6', '0', '4']);
    assert(decimal(6048) =~= seq!['6', '0', '4', '8']);
    assert(decimal(60480) =~= seq!['6', '0', '4', '8', '0']);
    assert(decimal(604800) =~= seq!['6', '0', '4', '8', '0', '0']);
    assert(set_cookie_text(SESSION_COOKIE@, session, SESSION_PATH@, true, SESSION_TTL as nat)
        =~= "session="@ + session + "; HttpOnly; Path=/; Max-Age=604800"@);
    assert(set_cookie_text(SESSION_COOKIE@, Seq::empty(), SESSION_PATH@, true, 0)
        =~= "session=; HttpOnly; Path=/; Max-Age=0"@);
}

} // verus!
