//! The login route.

use tower_cookies::Cookies;
use vstd::prelude::*;

use crate::ctx::Ctx;
use crate::error::Error;
use crate::text::str_eq;
use crate::web::cookies::{add_cookie, cookie_jar};
use crate::web::mw_auth::{
    digits_value, is_token_split, jar_after_resolution, lemma_parsed_token, parsed_token,
    resolved_ctx, session_token,
};
use crate::web::AUTH_TOKEN;

verus! {

/// The session token that a login hands out. Its expiration and its
/// signature are stand-ins, which nothing verifies.
pub const LOGIN_TOKEN: &'static str = "user-1.exp.sign";

/// The JSON text that answers a login that went well.
pub const LOGIN_OK_BODY: &'static str = "{\"result\":{\"success\":true}}";

/// What a client sends to log in.
#[derive(Debug)]
pub struct LoginPayload {
    pub username: String,
    pub pwd: String,
}

/// Whether a user name and a password are those of the one user who may
/// log in.
pub open spec fn is_login(username: Seq<char>, pwd: Seq<char>) -> bool {
    username == "demo1"@ && pwd == "welcome"@
}

/// The token of a login is the token of user 1.
pub proof fn lemma_login_token()
    ensures
        parsed_token(LOGIN_TOKEN@) == Some((1u64, "exp"@, "sign"@)),
{
    let token = LOGIN_TOKEN@;
    reveal_strlit("user-1.exp.sign");
    reveal_strlit("user-");
    reveal_strlit("exp");
    reveal_strlit("sign");
    assert(token.subrange(0, 5) =~= "user-"@);
    assert(is_token_split(token, 6, 10));
    assert(token.subrange(5, 6).drop_last() =~= Seq::<char>::empty());
    assert(digits_value(token.subrange(5, 6)) == 1) by {
        reveal_with_fuel(digits_value, 2);
    }
    assert(token.subrange(7, 10) =~= "exp"@);
    assert(token.subrange(11, 15) =~= "sign"@);
    lemma_parsed_token(token, 6, 10);
}

/// Who has logged in is known again: a request that brings the cookies of
/// a login back has the context of user 1, and keeps its session cookie.
pub proof fn lemma_login_then_resolve(jar: Map<Seq<char>, Seq<char>>)
    ensures
        resolved_ctx(session_token(jar.insert(AUTH_TOKEN@, LOGIN_TOKEN@))) == Ok::<Ctx, Error>(
            Ctx::new(1),
        ),
        jar_after_resolution(jar.insert(AUTH_TOKEN@, LOGIN_TOKEN@)) == jar.insert(
            AUTH_TOKEN@,
            LOGIN_TOKEN@,
        ),
{
    lemma_login_token();
}

/// Logs a user in. With the right name and password the session cookie is
/// set to the token of that user, and the answer is the body that says so;
/// with anything else the login fails and the cookies stay as they are.
pub fn api_login(cookies: &mut Cookies, payload: LoginPayload) -> (r: Result<String, Error>)
    ensures
        match r {
            Ok(body) => is_login(payload.username@, payload.pwd@) && body@ == LOGIN_OK_BODY@
                && cookie_jar(*final(cookies)) == cookie_jar(*old(cookies)).insert(
                AUTH_TOKEN@,
                LOGIN_TOKEN@,
            ),
            Err(e) => !is_login(payload.username@, payload.pwd@) && e == Error::LoginFail
                && cookie_jar(*final(cookies)) == cookie_jar(*old(cookies)),
        },
{
    if !str_eq(payload.username.as_str(), "demo1") || !str_eq(payload.pwd.as_str(), "welcome") {
        return Err(Error::LoginFail);
    }
    add_cookie(cookies, AUTH_TOKEN, LOGIN_TOKEN);
    Ok(LOGIN_OK_BODY.to_owned())
}

} // verus!
