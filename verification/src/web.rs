//! The web layer: what a request goes through before and after its handler.

use vstd::prelude::*;

use crate::ctx::Ctx;
use crate::error::Error;

pub mod cookies;
pub mod mw_auth;
pub mod mw_res_map;
pub mod routes_login;
pub mod routes_tickets;

verus! {

/// The name of the session cookie.
pub const AUTH_TOKEN: &'static str = "auth-token";

/// What one request carries from the resolution of its context to whoever
/// asks for that context later. It tells a resolution that failed, which
/// holds the failure, from one that never ran, which holds nothing.
#[derive(Clone, Copy, Debug)]
pub struct Extensions {
    result_ctx: Option<Result<Ctx, Error>>,
}

impl View for Extensions {
    type V = Option<Result<Ctx, Error>>;

    closed spec fn view(&self) -> Option<Result<Ctx, Error>> {
        self.result_ctx
    }
}

impl Extensions {
    /// The storage of a request whose context nobody has resolved yet.
    pub fn new() -> (extensions: Self)
        ensures
            extensions@ is None,
    {
        Extensions { result_ctx: None }
    }

    /// Stores the outcome of the resolution, in place of an earlier one.
    pub fn insert(&mut self, result_ctx: Result<Ctx, Error>)
        ensures
            final(self)@ == Some(result_ctx),
    {
        self.result_ctx = Some(result_ctx);
    }

    /// The outcome stored, if the resolution has run.
    pub fn get(&self) -> (result_ctx: Option<Result<Ctx, Error>>)
        ensures
            result_ctx == self@,
    {
        self.result_ctx
    }
}

} // verus!
