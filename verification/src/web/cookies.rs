//! The cookies of a request and of its response, kept by `tower_cookies`.

use tower_cookies::{Cookie, Cookies};
use vstd::prelude::*;

verus! {

#[verifier::external_type_specification]
#[verifier::external_body]
pub struct ExCookies(Cookies);

/// What a cookie jar holds: the value of each cookie under its name. A
/// cookie that was removed is no longer held. The jar of a request is
/// read and changed through one handle at a time, the one at hand.
pub uninterp spec fn cookie_jar(cookies: Cookies) -> Map<Seq<char>, Seq<char>>;

/// Calls `Cookies::get` and hands out the value of the cookie found. The
/// jar yields the cookie of that name if it holds one, and nothing else.
#[verifier::external_body]
pub(crate) fn cookie_value(cookies: &Cookies, name: &str) -> (value: Option<String>)
    ensures
        match value {
            Some(v) => cookie_jar(*cookies).contains_key(name@) && cookie_jar(*cookies)[name@]
                == v@,
            None => !cookie_jar(*cookies).contains_key(name@),
        },
{
    cookies.get(name).map(|c| c.value().to_string())
}

/// Calls `Cookies::add` with a cookie of the given name and value. The jar
/// then holds that value under the name, in place of what it held there,
/// and every other cookie as before.
#[verifier::external_body]
pub(crate) fn add_cookie(cookies: &mut Cookies, name: &'static str, value: &'static str)
    ensures
        cookie_jar(*final(cookies)) == cookie_jar(*old(cookies)).insert(name@, value@),
{
    cookies.add(Cookie::new(name, value))
}

/// Calls `Cookies::remove` with a cookie of the given name. The jar then
/// holds no cookie of that name, and every other cookie as before.
#[verifier::external_body]
pub(crate) fn remove_cookie(cookies: &mut Cookies, name: &'static str)
    ensures
        cookie_jar(*final(cookies)) == cookie_jar(*old(cookies)).remove(name@),
{
    cookies.remove(Cookie::named(name))
}

} // verus!
