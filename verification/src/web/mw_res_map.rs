//! The last stage of every response: an error that the response carries is
//! turned into what the client may see, and the request is logged.

use uuid::Uuid;
use vstd::prelude::*;
use vstd::string::*;

use crate::ctx::Ctx;
use crate::error::{ClientError, Error};
use crate::log::{log_request, request_log_line, RequestLogLine, RequestLogLineView};

verus! {

#[verifier::external_type_specification]
#[verifier::external_body]
pub struct ExUuid(Uuid);

/// A lower-case hexadecimal digit.
pub open spec fn is_lower_hex(c: char) -> bool {
    ('0' <= c && c <= '9') || ('a' <= c && c <= 'f')
}

/// The hyphenated form of an identifier: 36 characters, hexadecimal digits
/// in groups of 8, 4, 4, 4 and 12 with a hyphen between two groups.
pub open spec fn is_hyphenated_uuid(s: Seq<char>) -> bool {
    &&& s.len() == 36
    &&& forall|i: int|
        0 <= i < 36 ==> if i == 8 || i == 13 || i == 18 || i == 23 {
            s[i] == '-'
        } else {
            is_lower_hex(#[trigger] s[i])
        }
}

/// Whether a text can stand between the quotes of a JSON string as it
/// is: it holds no quote, no backslash and no control character.
pub open spec fn is_json_plain(s: Seq<char>) -> bool {
    forall|i: int|
        0 <= i < s.len() ==> {
            let c = #[trigger] s[i];
            c != '"' && c != '\\' && ' ' <= c
        }
}

/// The body of an error response is sound JSON for every identifier in
/// hyphenated form: neither the identifier nor the tag of a client-facing
/// kind needs escaping.
pub proof fn lemma_error_body_needs_no_escape(client_error: ClientError, req_uuid: Seq<char>)
    requires
        is_hyphenated_uuid(req_uuid),
    ensures
        is_json_plain(req_uuid),
        is_json_plain(client_error.spec_name()),
{
    reveal_strlit("LOGIN_FAIL");
    reveal_strlit("NO_AUTH");
    reveal_strlit("INVALID_PARAMS");
    reveal_strlit("SERVICE_ERROR");
    assert forall|i: int| 0 <= i < req_uuid.len() implies {
        let c = #[trigger] req_uuid[i];
        c != '"' && c != '\\' && ' ' <= c
    } by {
        if !(i == 8 || i == 13 || i == 18 || i == 23) {
            assert(is_lower_hex(req_uuid[i]));
        }
    }
}

/// Calls `Uuid::new_v4`, which draws a random identifier. Nothing is
/// claimed of the identifier that comes back.
#[verifier::external_body]
fn new_uuid() -> Uuid {
    Uuid::new_v4()
}

/// Calls `to_string` on a `Uuid`, which writes the identifier through its
/// `Display` impl. The claim is the one of that impl's documentation: the
/// text is the hyphenated form in lower case.
#[verifier::external_body]
fn uuid_to_string(uuid: &Uuid) -> (text: String)
    ensures
        is_hyphenated_uuid(text@),
{
    uuid.to_string()
}

/// The response that takes the place of one that carried an error.
#[derive(Debug)]
pub struct ErrorResponse {
    pub status: u16,
    /// The JSON text of the body.
    pub body: String,
}

/// An error response as a mathematical value.
pub struct ErrorResponseView {
    pub status: u16,
    pub body: Seq<char>,
}

impl View for ErrorResponse {
    type V = ErrorResponseView;

    open spec fn view(&self) -> ErrorResponseView {
        ErrorResponseView { status: self.status, body: self.body@ }
    }
}

/// What the mapper makes of one response.
#[derive(Debug)]
pub struct MappedResponse<R> {
    /// The response that goes out: the one that was produced, as it is,
    /// or the one that takes its place because an error stood in its way.
    pub response: Result<R, ErrorResponse>,
    /// The line to log, error or not.
    pub log_line: RequestLogLine,
}

/// The body of an error response: a JSON object that names the
/// client-facing kind and the request, and nothing of the internal error.
pub open spec fn client_error_body(client_error: ClientError, req_uuid: Seq<char>) -> Seq<char> {
    "{\"error\":{\"type\":\""@ + client_error.spec_name() + "\",\"req_uuid\":\""@ + req_uuid
        + "\"}}"@
}

/// What the client gets in place of a response that carried an error: the
/// status of the error's client-facing kind, and the body that names this
/// kind and the request.
pub open spec fn error_response(e: Error, req_uuid: Seq<char>) -> ErrorResponseView {
    ErrorResponseView {
        status: e.client_status_and_error().0,
        body: client_error_body(e.client_status_and_error().1, req_uuid),
    }
}

/// The error that stood in the way of a response, if one did.
pub open spec fn carried_error<R>(res: Result<R, Error>) -> Option<Error> {
    match res {
        Ok(_) => None,
        Err(e) => Some(e),
    }
}

/// The log line of a request whose response is mapped: besides the
/// request itself it holds, of the error that the response carried, the
/// internal name and payload and the client-facing kind.
pub open spec fn mapped_log_line(
    uuid: Seq<char>,
    timestamp: Seq<char>,
    ctx: Option<Ctx>,
    uri: Seq<char>,
    req_method: Seq<char>,
    service_error: Option<Error>,
) -> RequestLogLineView {
    request_log_line(
        uuid,
        timestamp,
        req_method,
        uri,
        ctx,
        service_error,
        match service_error {
            Some(e) => Some(e.client_status_and_error().1),
            None => None,
        },
    )
}

/// Whether a mapper's answer is the mapping of a response under a request
/// identifier: a response without error goes out as it is, one with an
/// error is replaced by what the client may see of the error, and the log
/// line is the one of the request in either case.
pub open spec fn is_mapping<R>(
    out: MappedResponse<R>,
    uuid: Seq<char>,
    timestamp: Seq<char>,
    ctx: Option<Ctx>,
    uri: Seq<char>,
    req_method: Seq<char>,
    res: Result<R, Error>,
) -> bool {
    &&& match res {
        Ok(r) => out.response == Ok::<R, ErrorResponse>(r),
        Err(e) => out.response matches Err(replacement) && replacement@ == error_response(
            e,
            uuid,
        ),
    }
    &&& out.log_line@ == mapped_log_line(uuid, timestamp, ctx, uri, req_method, carried_error(res))
}

/// Writes the body of an error response.
fn error_body(client_error: ClientError, req_uuid: &str) -> (body: String)
    ensures
        body@ == client_error_body(client_error, req_uuid@),
{
    let mut body = "{\"error\":{\"type\":\"".to_owned();
    body.append(client_error.as_ref());
    body.append("\",\"req_uuid\":\"");
    body.append(req_uuid);
    body.append("\"}}");
    body
}

/// Maps a response under a given request identifier. A response that
/// carries no error passes unchanged. An error is replaced by its status
/// and its client-facing body. The request is logged in either case, with
/// what is known of it.
pub fn map_response<R>(
    uuid: String,
    timestamp: String,
    ctx: Option<Ctx>,
    uri: String,
    req_method: String,
    res: Result<R, Error>,
) -> (out: MappedResponse<R>)
    ensures
        is_mapping(out, uuid@, timestamp@, ctx, uri@, req_method@, res),
{
    match res {
        Ok(response) => {
            let log_line = log_request(uuid, timestamp, req_method, uri, ctx, None, None);
            MappedResponse { response: Ok(response), log_line }
        },
        Err(service_error) => {
            // -- Build the new response.
            let (status, client_error) = service_error.client_status_and_error();
            let replacement = ErrorResponse { status, body: error_body(client_error, uuid.as_str()) };
            // -- Build the server log line.
            let log_line = log_request(
                uuid,
                timestamp,
                req_method,
                uri,
                ctx,
                Some(&service_error),
                Some(client_error),
            );
            MappedResponse { response: Err(replacement), log_line }
        },
    }
}

/// The terminal stage of every response. It draws a fresh identifier for
/// the request and maps the response under it: whatever identifier was
/// drawn, it is in hyphenated form, and the answer is the mapping under it.
pub fn main_response_mapper<R>(
    ctx: Option<Ctx>,
    uri: String,
    req_method: String,
    timestamp: String,
    res: Result<R, Error>,
) -> (out: MappedResponse<R>)
    ensures
        is_hyphenated_uuid(out.log_line.uuid@),
        is_mapping(out, out.log_line.uuid@, timestamp@, ctx, uri@, req_method@, res),
{
    let uuid = new_uuid();
    map_response(uuid_to_string(&uuid), timestamp, ctx, uri, req_method, res)
}

} // verus!
