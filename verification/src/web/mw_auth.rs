//! Who makes a request: the session token, the resolution of the request's
//! context from its cookie, and the guard of the protected routes.

use vstd::prelude::*;
use vstd::string::*;

use tower_cookies::Cookies;

use crate::ctx::Ctx;
use crate::error::Error;
use crate::text::chars_of;
use crate::web::cookies::{cookie_jar, cookie_value, remove_cookie};
use crate::web::{Extensions, AUTH_TOKEN};

verus! {

/// A decimal digit.
pub open spec fn is_digit(c: char) -> bool {
    '0' <= c && c <= '9'
}

/// The number that a run of decimal digits spells.
pub open spec fn digits_value(digits: Seq<char>) -> nat
    decreases digits.len(),
{
    if digits.len() == 0 {
        0
    } else {
        10 * digits_value(digits.drop_last()) + (digits.last() as u32 - '0' as u32) as nat
    }
}

/// How a token `user-<digits>.<expiration>.<signature>` falls into its
/// parts: the digits run from behind the `user-` to the dot at `id_end`,
/// the expiration from there to the dot at `sep`, the signature from there
/// to the end of the token.
///
/// The digits are decimal and at least one. Expiration and signature are
/// not empty, and may hold any character. The expiration may hold dots:
/// the dot that ends it is the last one that still leaves a signature.
pub open spec fn is_token_split(token: Seq<char>, id_end: int, sep: int) -> bool {
    &&& 5 < id_end && id_end + 1 < sep && sep + 1 < token.len()
    &&& token.subrange(0, 5) == "user-"@
    &&& forall|i: int| 5 <= i < id_end ==> is_digit(#[trigger] token[i])
    &&& token[id_end] == '.'
    &&& token[sep] == '.'
    &&& forall|i: int| sep < i < token.len() - 1 ==> #[trigger] token[i] != '.'
}

/// What a session token holds: the user identifier, the expiration and the
/// signature; or nothing, where the text is no token or its identifier does
/// not fit in 64 bits. Neither expiration nor signature is looked into.
pub open spec fn parsed_token(token: Seq<char>) -> Option<(u64, Seq<char>, Seq<char>)> {
    let (id_end, sep) = choose|id_end: int, sep: int| is_token_split(token, id_end, sep);
    if is_token_split(token, id_end, sep) && digits_value(token.subrange(5, id_end))
        <= u64::MAX {
        Some(
            (
                digits_value(token.subrange(5, id_end)) as u64,
                token.subrange(id_end + 1, sep),
                token.subrange(sep + 1, token.len() as int),
            ),
        )
    } else {
        None
    }
}

/// One digit more multiplies what a run of digits spells by ten and adds
/// the digit.
proof fn lemma_digits_value_step(token: Seq<char>, i: int)
    requires
        5 <= i < token.len(),
    ensures
        digits_value(token.subrange(5, i + 1)) == 10 * digits_value(token.subrange(5, i)) + (
        token[i] as u32 - '0' as u32) as nat,
{
    assert(token.subrange(5, i + 1).drop_last() =~= token.subrange(5, i));
}

/// A run of digits spells no less than any of its beginnings.
proof fn lemma_digits_value_grows(token: Seq<char>, i: int, j: int)
    requires
        5 <= i <= j <= token.len(),
        forall|k: int| 5 <= k < j ==> is_digit(#[trigger] token[k]),
    ensures
        digits_value(token.subrange(5, i)) <= digits_value(token.subrange(5, j)),
    decreases j - i,
{
    if i < j {
        lemma_digits_value_grows(token, i, j - 1);
        lemma_digits_value_step(token, j - 1);
    }
}

/// A token falls into its parts in one way only.
pub proof fn lemma_token_split_unique(
    token: Seq<char>,
    id_end: int,
    sep: int,
    id_end2: int,
    sep2: int,
)
    requires
        is_token_split(token, id_end, sep),
        is_token_split(token, id_end2, sep2),
    ensures
        id_end == id_end2,
        sep == sep2,
{
    if id_end < id_end2 {
        assert(is_digit(token[id_end]));
    }
    if id_end2 < id_end {
        assert(is_digit(token[id_end2]));
    }
    if sep < sep2 {
        assert(token[sep2] != '.');
    }
    if sep2 < sep {
        assert(token[sep] != '.');
    }
}

/// A text that falls into the parts of a token holds the number that its
/// digits spell, if that fits in 64 bits, and the two parts behind it as
/// they stand.
pub proof fn lemma_parsed_token(token: Seq<char>, id_end: int, sep: int)
    requires
        is_token_split(token, id_end, sep),
    ensures
        parsed_token(token) == if digits_value(token.subrange(5, id_end)) <= u64::MAX {
            Some(
                (
                    digits_value(token.subrange(5, id_end)) as u64,
                    token.subrange(id_end + 1, sep),
                    token.subrange(sep + 1, token.len() as int),
                ),
            )
        } else {
            None
        },
{
    let (id_end2, sep2) = choose|id_end2: int, sep2: int| is_token_split(token, id_end2, sep2);
    lemma_token_split_unique(token, id_end, sep, id_end2, sep2);
}

/// A text that does not fall into the parts of a token holds nothing.
pub proof fn lemma_not_a_token(token: Seq<char>)
    requires
        forall|id_end: int, sep: int| !is_token_split(token, id_end, sep),
    ensures
        parsed_token(token) is None,
{
}

/// Where the digits of a token end, given how far digits run behind the
/// `user-`.
proof fn lemma_id_end(token: Seq<char>, i: int, id_end: int, sep: int)
    requires
        5 <= i <= token.len(),
        forall|k: int| 5 <= k < i ==> is_digit(#[trigger] token[k]),
        i < token.len() ==> !is_digit(token[i]),
        is_token_split(token, id_end, sep),
    ensures
        id_end == i,
{
    if id_end < i {
        assert(is_digit(token[id_end]));
    }
    if i < id_end {
        assert(is_digit(token[i]));
    }
}

/// Takes a session token `user-<digits>.<expiration>.<signature>` apart
/// into the user identifier, the expiration and the signature. A text
/// that is no such token, or whose identifier does not fit in 64 bits, is
/// refused for its format.
///
/// Neither the expiration nor the signature is verified: they are handed
/// back as they stand in the token, whatever characters they hold.
pub fn parse_token(token: String) -> (r: Result<(u64, String, String), Error>)
    ensures
        match r {
            Ok((user_id, exp, sign)) => parsed_token(token@) == Some((user_id, exp@, sign@)),
            Err(e) => e == Error::AuthFailTokenWrongFormat && parsed_token(token@) is None,
        },
{
    let text = token.as_str();
    let chars = chars_of(text);
    let n = chars.len();
    let ghost s = token@;
    proof {
        reveal_strlit("user-");
    }
    if n < 5 || chars[0] != 'u' || chars[1] != 's' || chars[2] != 'e' || chars[3] != 'r'
        || chars[4] != '-' {
        assert forall|id_end: int, sep: int| !is_token_split(s, id_end, sep) by {
            if is_token_split(s, id_end, sep) {
                assert(s.subrange(0, 5)[0] == s[0]);
                assert(s.subrange(0, 5)[1] == s[1]);
                assert(s.subrange(0, 5)[2] == s[2]);
                assert(s.subrange(0, 5)[3] == s[3]);
                assert(s.subrange(0, 5)[4] == s[4]);
            }
        }
        return Err(Error::AuthFailTokenWrongFormat);
    }
    // -- The user identifier.
    let mut i: usize = 5;
    let mut user_id: u64 = 0;
    assert(s.subrange(5, 5) =~= Seq::<char>::empty());
    while i < n && '0' <= chars[i] && chars[i] <= '9'
        invariant
            5 <= i <= n,
            n == chars.len(),
            chars@ == s,
            s == token@,
            forall|k: int| 5 <= k < i ==> is_digit(#[trigger] s[k]),
            user_id == digits_value(s.subrange(5, i as int)),
        decreases n - i,
    {
        let digit = (chars[i] as u32 - '0' as u32) as u64;
        proof {
            lemma_digits_value_step(s, i as int);
        }
        let next = match user_id.checked_mul(10) {
            Some(tens) => tens.checked_add(digit),
            None => None,
        };
        match next {
            Some(value) => {
                user_id = value;
            },
            None => {
                proof {
                    assert(digits_value(s.subrange(5, i + 1)) > u64::MAX);
                    assert forall|id_end: int, sep: int|
                        is_token_split(s, id_end, sep) implies digits_value(
                        s.subrange(5, id_end),
                    ) > u64::MAX by {
                        if id_end <= i {
                            assert(is_digit(s[id_end]));
                        }
                        lemma_digits_value_grows(s, i + 1, id_end);
                    }
                }
                return Err(Error::AuthFailTokenWrongFormat);
            },
        }
        i += 1;
    }
    if i == 5 || i == n || chars[i] != '.' {
        assert forall|id_end: int, sep: int| !is_token_split(s, id_end, sep) by {
            if is_token_split(s, id_end, sep) {
                lemma_id_end(s, i as int, id_end, sep);
            }
        }
        return Err(Error::AuthFailTokenWrongFormat);
    }
    let id_end = i;
    // -- Room for an expiration, a dot and a signature.
    if n - id_end < 4 {
        assert forall|id_end2: int, sep2: int| !is_token_split(s, id_end2, sep2) by {
            if is_token_split(s, id_end2, sep2) {
                lemma_id_end(s, id_end as int, id_end2, sep2);
            }
        }
        return Err(Error::AuthFailTokenWrongFormat);
    }
    // -- The last dot that leaves a signature behind it.
    let mut sep: usize = n - 2;
    while sep > id_end + 1 && chars[sep] != '.'
        invariant
            id_end + 1 <= sep <= n - 2,
            n == chars.len(),
            chars@ == s,
            forall|k: int| sep < k < n - 1 ==> #[trigger] s[k] != '.',
        decreases sep,
    {
        sep -= 1;
    }
    if sep == id_end + 1 {
        assert forall|id_end2: int, sep2: int| !is_token_split(s, id_end2, sep2) by {
            if is_token_split(s, id_end2, sep2) {
                lemma_id_end(s, id_end as int, id_end2, sep2);
                assert(s[sep2] != '.');
            }
        }
        return Err(Error::AuthFailTokenWrongFormat);
    }
    proof {
        assert(s.subrange(0, 5) =~= "user-"@);
        assert(is_token_split(s, id_end as int, sep as int));
        lemma_parsed_token(s, id_end as int, sep as int);
    }
    let exp = text.substring_char(id_end + 1, sep).to_owned();
    let sign = text.substring_char(sep + 1, n).to_owned();
    Ok((user_id, exp, sign))
}

/// The session token among the cookies of a request, if there is one.
pub open spec fn session_token(jar: Map<Seq<char>, Seq<char>>) -> Option<Seq<char>> {
    if jar.contains_key(AUTH_TOKEN@) {
        Some(jar[AUTH_TOKEN@])
    } else {
        None
    }
}

/// The outcome of resolving the context of a request from its session
/// token: without a token the request is anonymous, a text that is no
/// token is refused, and a token gives the context of its user.
pub open spec fn resolved_ctx(auth_token: Option<Seq<char>>) -> Result<Ctx, Error> {
    match auth_token {
        None => Err(Error::AuthFailNoAuthTokenCookie),
        Some(token) => match parsed_token(token) {
            Some((user_id, _, _)) => Ok(Ctx::new(user_id)),
            None => Err(Error::AuthFailTokenWrongFormat),
        },
    }
}

/// Whether an outcome makes the session cookie suspect. A cookie that is
/// there and gives no context is; that there is no cookie at all is not.
pub open spec fn is_poisoned(result_ctx: Result<Ctx, Error>) -> bool {
    result_ctx is Err && result_ctx != Err::<Ctx, Error>(Error::AuthFailNoAuthTokenCookie)
}

/// The cookies after the resolution: a suspect session cookie is gone, and
/// nothing else has changed.
pub open spec fn jar_after_resolution(jar: Map<Seq<char>, Seq<char>>) -> Map<
    Seq<char>,
    Seq<char>,
> {
    if is_poisoned(resolved_ctx(session_token(jar))) {
        jar.remove(AUTH_TOKEN@)
    } else {
        jar
    }
}

/// What asking for the context of a request gives, from what the request
/// carries: the outcome of the resolution as it was stored, or, where no
/// resolution ran, an error of its own.
pub open spec fn extracted_ctx(stored: Option<Result<Ctx, Error>>) -> Result<Ctx, Error> {
    match stored {
        Some(result_ctx) => result_ctx,
        None => Err(Error::AuthFailCtxNotInRequestExt),
    }
}

/// What the guard of the protected routes makes of the context that a
/// request was asked for: with a context the request may pass, without
/// one it ends with the error that stood in the way.
pub open spec fn required_auth(ctx: Result<Ctx, Error>) -> Result<(), Error> {
    match ctx {
        Ok(_) => Ok(()),
        Err(e) => Err(e),
    }
}

/// The guard of the protected routes: a request goes on to its handler if
/// and only if its context was resolved. Otherwise the request ends here,
/// with the error that stood in the way. The guard adds nothing to the
/// request.
pub fn mw_require_auth(ctx: Result<Ctx, Error>) -> (r: Result<(), Error>)
    ensures
        r == required_auth(ctx),
{
    match ctx {
        Ok(_) => Ok(()),
        Err(e) => Err(e),
    }
}

/// Resolves the context of a request from its session cookie and stores
/// the outcome, context or failure, for whoever asks later. A session
/// cookie that is there but gives no context is removed; where there is
/// none, the cookies stay as they are. The request goes on in either case.
pub fn mw_ctx_resolver(cookies: &mut Cookies, extensions: &mut Extensions)
    ensures
        final(extensions)@ == Some(resolved_ctx(session_token(cookie_jar(*old(cookies))))),
        cookie_jar(*final(cookies)) == jar_after_resolution(cookie_jar(*old(cookies))),
        !cookie_jar(*old(cookies)).contains_key(AUTH_TOKEN@) ==> cookie_jar(*final(cookies))
            == cookie_jar(*old(cookies)),
{
    let auth_token = cookie_value(cookies, AUTH_TOKEN);
    let result_ctx = match auth_token {
        None => Err(Error::AuthFailNoAuthTokenCookie),
        Some(token) => match parse_token(token) {
            Ok((user_id, _exp, _sign)) => Ok(Ctx::new(user_id)),
            Err(e) => Err(e),
        },
    };
    let poisoned = match result_ctx {
        Ok(_) => false,
        Err(Error::AuthFailNoAuthTokenCookie) => false,
        Err(_) => true,
    };
    if poisoned {
        remove_cookie(cookies, AUTH_TOKEN);
    }
    extensions.insert(result_ctx);
}

/// A request without the session cookie is anonymous: its resolution
/// fails for want of the cookie, and removes no cookie.
pub proof fn lemma_no_cookie_is_left_alone(jar: Map<Seq<char>, Seq<char>>)
    requires
        !jar.contains_key(AUTH_TOKEN@),
    ensures
        resolved_ctx(session_token(jar)) == Err::<Ctx, Error>(Error::AuthFailNoAuthTokenCookie),
        jar_after_resolution(jar) == jar,
{
}

/// A session cookie that is there but is no token is removed: the
/// resolution fails on the token's format, the cookies that go back to
/// the client lack the session cookie and are otherwise the same, and a
/// request that comes with those cookies is anonymous and loses none.
pub proof fn lemma_malformed_cookie_is_removed(jar: Map<Seq<char>, Seq<char>>)
    requires
        jar.contains_key(AUTH_TOKEN@),
        parsed_token(jar[AUTH_TOKEN@]) is None,
    ensures
        resolved_ctx(session_token(jar)) == Err::<Ctx, Error>(Error::AuthFailTokenWrongFormat),
        jar_after_resolution(jar) == jar.remove(AUTH_TOKEN@),
        !jar_after_resolution(jar).contains_key(AUTH_TOKEN@),
        resolved_ctx(session_token(jar_after_resolution(jar))) == Err::<Ctx, Error>(
            Error::AuthFailNoAuthTokenCookie,
        ),
        jar_after_resolution(jar_after_resolution(jar)) == jar_after_resolution(jar),
{
}

/// The resolution touches no cookie but the session cookie, and a second
/// resolution on the cookies that the first one left changes nothing.
pub proof fn lemma_resolution_is_idempotent(jar: Map<Seq<char>, Seq<char>>)
    ensures
        jar_after_resolution(jar_after_resolution(jar)) == jar_after_resolution(jar),
        jar_after_resolution(jar) == jar || jar_after_resolution(jar) == jar.remove(AUTH_TOKEN@),
        forall|name: Seq<char>|
            name != AUTH_TOKEN@ ==> (#[trigger] jar_after_resolution(jar).contains_key(name)
                <==> jar.contains_key(name)),
        forall|name: Seq<char>|
            name != AUTH_TOKEN@ && jar.contains_key(name) ==> #[trigger] jar_after_resolution(
                jar,
            )[name] == jar[name],
{
}

/// A session cookie that holds a token stays: the resolution gives the
/// context of the token's user and removes no cookie.
pub proof fn lemma_token_cookie_is_kept(jar: Map<Seq<char>, Seq<char>>)
    requires
        jar.contains_key(AUTH_TOKEN@),
        parsed_token(jar[AUTH_TOKEN@]) is Some,
    ensures
        parsed_token(jar[AUTH_TOKEN@]) matches Some((user_id, _, _)) && resolved_ctx(
            session_token(jar),
        ) == Ok::<Ctx, Error>(Ctx::new(user_id)),
        jar_after_resolution(jar) == jar,
{
}

/// Once the resolution has run, a request carries either a context or
/// one error, and asking for the context gives exactly that, however
/// often it is asked; the guard lets the request pass if and only if it is
/// a context.
pub proof fn lemma_extraction_after_resolution(auth_token: Option<Seq<char>>)
    ensures
        extracted_ctx(Some(resolved_ctx(auth_token))) == resolved_ctx(auth_token),
        required_auth(extracted_ctx(Some(resolved_ctx(auth_token)))) is Ok <==> resolved_ctx(
            auth_token,
        ) is Ok,
        resolved_ctx(auth_token) is Err ==> resolved_ctx(auth_token)->Err_0
            != Error::AuthFailCtxNotInRequestExt,
{
}

impl Ctx {
    /// The context of a request, for a handler or a guard that needs it:
    /// the outcome that the resolution stored, by value. Asking leaves the
    /// request as it is, so asking again gives the same.
    pub fn from_request_parts(parts: &Extensions) -> (r: Result<Ctx, Error>)
        ensures
            r == extracted_ctx(parts@),
    {
        match parts.get() {
            Some(result_ctx) => result_ctx,
            None => Err(Error::AuthFailCtxNotInRequestExt),
        }
    }
}

} // verus!
