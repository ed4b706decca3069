use ticket_service::ctx::Ctx;
use ticket_service::error::{ClientError, Error};
use ticket_service::web::mw_auth::{mw_ctx_resolver, mw_require_auth};
use ticket_service::web::{Extensions, AUTH_TOKEN};
use tower_cookies::{Cookie, Cookies};

fn cookies_with(pairs: &[(&'static str, &'static str)]) -> Cookies {
    let cookies = Cookies::default();
    for (name, value) in pairs {
        cookies.add(Cookie::new(*name, *value));
    }
    cookies
}

fn value_of(cookies: &Cookies, name: &str) -> Option<String> {
    cookies.get(name).map(|c| c.value().to_string())
}

fn resolve(cookies: &mut Cookies) -> Extensions {
    let mut extensions = Extensions::new();
    mw_ctx_resolver(cookies, &mut extensions);
    extensions
}

#[test]
fn session_cookie_name() {
    assert_eq!(AUTH_TOKEN, "auth-token");
}

#[test]
fn new_extensions_hold_nothing() {
    assert_eq!(Extensions::new().get(), None);
}

#[test]
fn extensions_hold_what_was_stored_last() {
    let mut extensions = Extensions::new();
    extensions.insert(Err(Error::AuthFailTokenWrongFormat));
    assert_eq!(extensions.get(), Some(Err(Error::AuthFailTokenWrongFormat)));
    extensions.insert(Ok(Ctx::new(3)));
    assert_eq!(extensions.get(), Some(Ok(Ctx::new(3))));
}

#[test]
fn extraction_without_resolution_fails() {
    let extensions = Extensions::new();
    assert_eq!(Ctx::from_request_parts(&extensions), Err(Error::AuthFailCtxNotInRequestExt));
}

#[test]
fn extraction_hands_out_the_stored_outcome() {
    let mut extensions = Extensions::new();
    extensions.insert(Ok(Ctx::new(12)));
    assert_eq!(Ctx::from_request_parts(&extensions), Ok(Ctx::new(12)));
    extensions.insert(Err(Error::AuthFailNoAuthTokenCookie));
    assert_eq!(Ctx::from_request_parts(&extensions), Err(Error::AuthFailNoAuthTokenCookie));
}

#[test]
fn extraction_twice_gives_the_same() {
    let mut cookies = cookies_with(&[("auth-token", "user-21.e.s")]);
    let extensions = resolve(&mut cookies);
    let first = Ctx::from_request_parts(&extensions);
    let second = Ctx::from_request_parts(&extensions);
    assert_eq!(first, Ok(Ctx::new(21)));
    assert_eq!(first, second);
    assert_eq!(value_of(&cookies, "auth-token"), Some("user-21.e.s".to_string()));

    let mut cookies = cookies_with(&[("auth-token", "junk")]);
    let extensions = resolve(&mut cookies);
    let first = Ctx::from_request_parts(&extensions);
    let second = Ctx::from_request_parts(&extensions);
    assert_eq!(first, Err(Error::AuthFailTokenWrongFormat));
    assert_eq!(first, second);
    assert_eq!(cookies.list().len(), 0);
}

#[test]
fn guard_lets_a_context_pass() {
    assert_eq!(mw_require_auth(Ok(Ctx::new(1))), Ok(()));
}

#[test]
fn guard_stops_with_the_error_it_was_given() {
    assert_eq!(
        mw_require_auth(Err(Error::AuthFailNoAuthTokenCookie)),
        Err(Error::AuthFailNoAuthTokenCookie)
    );
    assert_eq!(
        mw_require_auth(Err(Error::AuthFailTokenWrongFormat)),
        Err(Error::AuthFailTokenWrongFormat)
    );
    assert_eq!(
        mw_require_auth(Err(Error::AuthFailCtxNotInRequestExt)),
        Err(Error::AuthFailCtxNotInRequestExt)
    );
}

#[test]
fn request_without_cookie_is_anonymous() {
    let mut cookies = Cookies::default();
    let extensions = resolve(&mut cookies);
    assert_eq!(extensions.get(), Some(Err(Error::AuthFailNoAuthTokenCookie)));
    assert_eq!(cookies.list().len(), 0);
}

#[test]
fn request_without_session_cookie_keeps_its_other_cookies() {
    let mut cookies = cookies_with(&[("theme", "dark"), ("lang", "en")]);
    let extensions = resolve(&mut cookies);
    assert_eq!(extensions.get(), Some(Err(Error::AuthFailNoAuthTokenCookie)));
    assert_eq!(cookies.list().len(), 2);
    assert_eq!(value_of(&cookies, "theme"), Some("dark".to_string()));
    assert_eq!(value_of(&cookies, "lang"), Some("en".to_string()));
}

#[test]
fn request_without_cookie_is_refused_with_no_auth() {
    let mut cookies = Cookies::default();
    let extensions = resolve(&mut cookies);
    let refusal = mw_require_auth(Ctx::from_request_parts(&extensions)).unwrap_err();
    assert_eq!(refusal, Error::AuthFailNoAuthTokenCookie);
    assert_eq!(refusal.client_status_and_error(), (403, ClientError::NO_AUTH));
}

#[test]
fn session_cookie_gives_the_context_of_its_user() {
    let mut cookies = cookies_with(&[("auth-token", "user-1.exp.sign")]);
    let extensions = resolve(&mut cookies);
    assert_eq!(extensions.get(), Some(Ok(Ctx::new(1))));
    assert_eq!(Ctx::from_request_parts(&extensions).unwrap().user_id(), 1);
    assert_eq!(value_of(&cookies, "auth-token"), Some("user-1.exp.sign".to_string()));
}

#[test]
fn session_cookie_is_found_among_others() {
    let mut cookies = cookies_with(&[
        ("theme", "user-7.e.s"),
        ("auth-token", "user-4242.2030.abc"),
        ("auth", "user-8.e.s"),
    ]);
    let extensions = resolve(&mut cookies);
    assert_eq!(extensions.get(), Some(Ok(Ctx::new(4242))));
    assert_eq!(cookies.list().len(), 3);
}

#[test]
fn session_cookie_with_a_line_feed_is_a_token() {
    let mut cookies = cookies_with(&[("auth-token", "user-3.e\nxp.sign\n")]);
    let extensions = resolve(&mut cookies);
    assert_eq!(extensions.get(), Some(Ok(Ctx::new(3))));
    assert_eq!(value_of(&cookies, "auth-token"), Some("user-3.e\nxp.sign\n".to_string()));
}

#[test]
fn malformed_session_cookie_is_removed() {
    let mut cookies = cookies_with(&[("auth-token", "not-a-token")]);
    let extensions = resolve(&mut cookies);
    assert_eq!(extensions.get(), Some(Err(Error::AuthFailTokenWrongFormat)));
    assert_eq!(value_of(&cookies, "auth-token"), None);
}

#[test]
fn malformed_session_cookie_is_removed_and_no_other() {
    let mut cookies = cookies_with(&[
        ("theme", "dark"),
        ("auth-token", "user-x.exp.sign"),
        ("lang", "en"),
    ]);
    let extensions = resolve(&mut cookies);
    assert_eq!(extensions.get(), Some(Err(Error::AuthFailTokenWrongFormat)));
    assert_eq!(value_of(&cookies, "auth-token"), None);
    assert_eq!(cookies.list().len(), 2);
    assert_eq!(value_of(&cookies, "theme"), Some("dark".to_string()));
    assert_eq!(value_of(&cookies, "lang"), Some("en".to_string()));
}

#[test]
fn name_of_the_session_cookie_is_no_token_value() {
    let mut cookies = cookies_with(&[("auth-token", "auth-token")]);
    let extensions = resolve(&mut cookies);
    assert_eq!(extensions.get(), Some(Err(Error::AuthFailTokenWrongFormat)));
    assert_eq!(value_of(&cookies, "auth-token"), None);
}

#[test]
fn empty_session_cookie_is_removed() {
    let mut cookies = cookies_with(&[("auth-token", "")]);
    let extensions = resolve(&mut cookies);
    assert_eq!(extensions.get(), Some(Err(Error::AuthFailTokenWrongFormat)));
    assert_eq!(value_of(&cookies, "auth-token"), None);
}

#[test]
fn oversized_user_id_poisons_the_cookie() {
    let mut cookies = cookies_with(&[("auth-token", "user-18446744073709551616.e.s")]);
    let extensions = resolve(&mut cookies);
    assert_eq!(extensions.get(), Some(Err(Error::AuthFailTokenWrongFormat)));
    assert_eq!(value_of(&cookies, "auth-token"), None);
}

#[test]
fn malformed_cookie_is_refused_with_no_auth() {
    let mut cookies = cookies_with(&[("auth-token", "user-1")]);
    let extensions = resolve(&mut cookies);
    let refusal = mw_require_auth(Ctx::from_request_parts(&extensions)).unwrap_err();
    assert_eq!(refusal, Error::AuthFailTokenWrongFormat);
    assert_eq!(refusal.client_status_and_error(), (403, ClientError::NO_AUTH));
}

#[test]
fn request_after_a_removal_is_anonymous() {
    let mut cookies = cookies_with(&[("auth-token", "garbage"), ("theme", "dark")]);
    resolve(&mut cookies);
    let extensions = resolve(&mut cookies);
    assert_eq!(extensions.get(), Some(Err(Error::AuthFailNoAuthTokenCookie)));
    assert_eq!(cookies.list().len(), 1);
    assert_eq!(value_of(&cookies, "theme"), Some("dark".to_string()));
}

#[test]
fn resolution_replaces_an_earlier_outcome() {
    let mut extensions = Extensions::new();
    extensions.insert(Ok(Ctx::new(99)));
    let mut cookies = Cookies::default();
    mw_ctx_resolver(&mut cookies, &mut extensions);
    assert_eq!(extensions.get(), Some(Err(Error::AuthFailNoAuthTokenCookie)));
}
