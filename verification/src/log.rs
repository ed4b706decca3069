//! The log line of one request.

use vstd::prelude::*;

use crate::ctx::Ctx;
use crate::error::{ClientError, Error, ErrorData};

verus! {

/// What is logged of one request, whether it failed or not. An absent part
/// is left out of the line.
#[derive(Debug)]
pub struct RequestLogLine {
    /// The correlation identifier of the request.
    pub uuid: String,
    /// When the response was mapped.
    pub timestamp: String,
    // -- User and context attributes.
    pub user_id: Option<u64>,
    // -- http request attributes.
    pub req_path: String,
    pub req_method: String,
    // -- Errors attributes.
    pub client_error_type: Option<String>,
    pub error_type: Option<String>,
    pub error_data: Option<ErrorData>,
}

/// A log line as a mathematical value: its texts as sequences of characters.
pub struct RequestLogLineView {
    pub uuid: Seq<char>,
    pub timestamp: Seq<char>,
    pub user_id: Option<u64>,
    pub req_path: Seq<char>,
    pub req_method: Seq<char>,
    pub client_error_type: Option<Seq<char>>,
    pub error_type: Option<Seq<char>>,
    pub error_data: Option<ErrorData>,
}

/// The characters of a text that may be absent.
pub open spec fn optional_text(text: Option<String>) -> Option<Seq<char>> {
    match text {
        Some(t) => Some(t@),
        None => None,
    }
}

impl View for RequestLogLine {
    type V = RequestLogLineView;

    open spec fn view(&self) -> RequestLogLineView {
        RequestLogLineView {
            uuid: self.uuid@,
            timestamp: self.timestamp@,
            user_id: self.user_id,
            req_path: self.req_path@,
            req_method: self.req_method@,
            client_error_type: optional_text(self.client_error_type),
            error_type: optional_text(self.error_type),
            error_data: self.error_data,
        }
    }
}

/// The log line of a request: the identifier and the time as given, the
/// path and the method of the request, the user if the request had a
/// context, and of the error that the response carried, if any, its
/// client-facing tag, its internal name and its payload.
pub open spec fn request_log_line(
    uuid: Seq<char>,
    timestamp: Seq<char>,
    req_method: Seq<char>,
    uri: Seq<char>,
    ctx: Option<Ctx>,
    service_error: Option<Error>,
    client_error: Option<ClientError>,
) -> RequestLogLineView {
    RequestLogLineView {
        uuid,
        timestamp,
        user_id: match ctx {
            Some(c) => Some(c.user_id()),
            None => None,
        },
        req_path: uri,
        req_method,
        client_error_type: match client_error {
            Some(e) => Some(e.spec_name()),
            None => None,
        },
        error_type: match service_error {
            Some(e) => Some(e.spec_name()),
            None => None,
        },
        error_data: match service_error {
            Some(e) => e.data(),
            None => None,
        },
    }
}

/// Assembles the log line of a request. It is the caller who hands the line
/// to the log: nothing here can fail, so logging never alters a response.
pub fn log_request(
    uuid: String,
    timestamp: String,
    req_method: String,
    uri: String,
    ctx: Option<Ctx>,
    service_error: Option<&Error>,
    client_error: Option<ClientError>,
) -> (line: RequestLogLine)
    ensures
        line@ == request_log_line(
            uuid@,
            timestamp@,
            req_method@,
            uri@,
            ctx,
            match service_error {
                Some(e) => Some(*e),
                None => None,
            },
            client_error,
        ),
{
    let error_type = match service_error {
        Some(se) => Some(se.as_ref().to_owned()),
        None => None,
    };
    let error_data = match service_error {
        Some(se) => se.data(),
        None => None,
    };
    let user_id = match ctx {
        Some(c) => Some(c.user_id()),
        None => None,
    };
    let client_error_type = match client_error {
        Some(e) => Some(e.as_ref().to_owned()),
        None => None,
    };
    RequestLogLine {
        uuid,
        timestamp,
        req_path: uri,
        req_method,
        user_id,
        client_error_type,
        error_type,
        error_data,
    }
}

} // verus!
