//! The internal error kinds and what a client is told of each.

use vstd::prelude::*;

verus! {

/// HTTP status sent with a failed login or a request without a valid session.
pub const STATUS_FORBIDDEN: u16 = 403;

/// HTTP status sent when a request names something that does not exist.
pub const STATUS_BAD_REQUEST: u16 = 400;

/// HTTP status kept for error kinds without a mapping of their own.
pub const STATUS_INTERNAL_SERVER_ERROR: u16 = 500;

/// What went wrong while a request was served. The payload of a kind, if it
/// has one, is meant for the log and never for the client.
#[derive(Clone, Copy, Debug, PartialEq, Eq, Structural)]
pub enum Error {
    LoginFail,
    // -- Auth errors.
    AuthFailNoAuthTokenCookie,
    AuthFailTokenWrongFormat,
    AuthFailCtxNotInRequestExt,
    // -- Model errors.
    TicketDeleteFailIdNotFound { id: u64 },
}

/// What a client is told went wrong: one of a few coarse kinds.
#[derive(Clone, Copy, Debug, PartialEq, Eq, Structural)]
#[allow(non_camel_case_types)]
pub enum ClientError {
    LOGIN_FAIL,
    NO_AUTH,
    INVALID_PARAMS,
    SERVICE_ERROR,
}

/// The structured payload that an error kind carries into the log.
#[derive(Clone, Copy, Debug, PartialEq, Eq, Structural)]
pub struct ErrorData {
    pub id: u64,
}

impl Error {
    /// The name of the kind, as written in the log.
    pub open spec fn spec_name(&self) -> Seq<char> {
        match self {
            Error::LoginFail => "LoginFail"@,
            Error::AuthFailNoAuthTokenCookie => "AuthFailNoAuthTokenCookie"@,
            Error::AuthFailTokenWrongFormat => "AuthFailTokenWrongFormat"@,
            Error::AuthFailCtxNotInRequestExt => "AuthFailCtxNotInRequestExt"@,
            Error::TicketDeleteFailIdNotFound { .. } => "TicketDeleteFailIdNotFound"@,
        }
    }

    /// The payload of the kind, if it has one.
    pub open spec fn spec_data(&self) -> Option<ErrorData> {
        match self {
            Error::TicketDeleteFailIdNotFound { id } => Some(ErrorData { id: *id }),
            _ => None,
        }
    }

    /// The HTTP status and the client-facing kind of each internal kind.
    pub open spec fn spec_client_status_and_error(&self) -> (u16, ClientError) {
        match self {
            Error::LoginFail => (STATUS_FORBIDDEN, ClientError::LOGIN_FAIL),
            Error::AuthFailCtxNotInRequestExt
            | Error::AuthFailNoAuthTokenCookie
            | Error::AuthFailTokenWrongFormat => (STATUS_FORBIDDEN, ClientError::NO_AUTH),
            Error::TicketDeleteFailIdNotFound { .. } => (
                STATUS_BAD_REQUEST,
                ClientError::INVALID_PARAMS,
            ),
        }
    }

    /// Every kind has a mapping of its own: none is answered with the status
    /// and the client-facing kind that are kept for a kind without one.
    pub proof fn lemma_every_kind_is_mapped(e: Error)
        ensures
            e.client_status_and_error().0 != STATUS_INTERNAL_SERVER_ERROR,
            e.client_status_and_error().1 != ClientError::SERVICE_ERROR,
            e.client_status_and_error().0 == STATUS_FORBIDDEN || e.client_status_and_error().0
                == STATUS_BAD_REQUEST,
    {
    }

    /// Maps the error to the status and the kind that the client gets to see,
    /// so that no detail of the internal kind leaves the service.
    #[verifier::when_used_as_spec(spec_client_status_and_error)]
    pub fn client_status_and_error(&self) -> (r: (u16, ClientError))
        ensures
            r == self.spec_client_status_and_error(),
    {
        #[allow(unreachable_patterns)]
        match self {
            Self::LoginFail => (STATUS_FORBIDDEN, ClientError::LOGIN_FAIL),
            // -- Auth
            Self::AuthFailCtxNotInRequestExt
            | Self::AuthFailNoAuthTokenCookie
            | Self::AuthFailTokenWrongFormat => (STATUS_FORBIDDEN, ClientError::NO_AUTH),
            // -- Model
            Self::TicketDeleteFailIdNotFound { .. } => (
                STATUS_BAD_REQUEST,
                ClientError::INVALID_PARAMS,
            ),
            // -- Fallback
            _ => (STATUS_INTERNAL_SERVER_ERROR, ClientError::SERVICE_ERROR),
        }
    }

    /// The payload of the error for the log, if the kind has one.
    #[verifier::when_used_as_spec(spec_data)]
    pub fn data(&self) -> (r: Option<ErrorData>)
        ensures
            r == self.spec_data(),
    {
        match self {
            Self::TicketDeleteFailIdNotFound { id } => Some(ErrorData { id: *id }),
            _ => None,
        }
    }
}

impl AsRef<str> for Error {
    /// The name of the kind.
    fn as_ref(&self) -> (name: &str)
        ensures
            name@ == self.spec_name(),
    {
        match self {
            Error::LoginFail => "LoginFail",
            Error::AuthFailNoAuthTokenCookie => "AuthFailNoAuthTokenCookie",
            Error::AuthFailTokenWrongFormat => "AuthFailTokenWrongFormat",
            Error::AuthFailCtxNotInRequestExt => "AuthFailCtxNotInRequestExt",
            Error::TicketDeleteFailIdNotFound { .. } => "TicketDeleteFailIdNotFound",
        }
    }
}

impl ClientError {
    /// The tag of the kind, as written in a response body and in the log.
    pub open spec fn spec_name(&self) -> Seq<char> {
        match self {
            ClientError::LOGIN_FAIL => "LOGIN_FAIL"@,
            ClientError::NO_AUTH => "NO_AUTH"@,
            ClientError::INVALID_PARAMS => "INVALID_PARAMS"@,
            ClientError::SERVICE_ERROR => "SERVICE_ERROR"@,
        }
    }
}

impl AsRef<str> for ClientError {
    /// The tag of the kind.
    fn as_ref(&self) -> (name: &str)
        ensures
            name@ == self.spec_name(),
    {
        match self {
            ClientError::LOGIN_FAIL => "LOGIN_FAIL",
            ClientError::NO_AUTH => "NO_AUTH",
            ClientError::INVALID_PARAMS => "INVALID_PARAMS",
            ClientError::SERVICE_ERROR => "SERVICE_ERROR",
        }
    }
}

} // verus!
