//! The ticket routes. Each of them is protected: its handler asks for the
//! context of the request first, and does nothing without it.

use vstd::prelude::*;

use crate::ctx::Ctx;
use crate::error::{ClientError, Error};
use crate::model::{holds_ticket, live_tickets, next_ticket, ModelController, Ticket, TicketForCreate};
use crate::web::mw_auth::{
    extracted_ctx, jar_after_resolution, parsed_token, required_auth, resolved_ctx, session_token,
};
use crate::web::mw_res_map::{client_error_body, error_response, ErrorResponseView};
use crate::web::{Extensions, AUTH_TOKEN};

verus! {

/// What creating a ticket makes of a store and answers, from what the
/// request carries.
pub open spec fn create_ticket_outcome(
    slots: Seq<Option<Ticket>>,
    stored: Option<Result<Ctx, Error>>,
    ticket_fc: TicketForCreate,
) -> (Seq<Option<Ticket>>, Result<Ticket, Error>) {
    match extracted_ctx(stored) {
        Ok(ctx) => (
            slots.push(Some(next_ticket(slots, ctx, ticket_fc))),
            Ok(next_ticket(slots, ctx, ticket_fc)),
        ),
        Err(e) => (slots, Err(e)),
    }
}

/// What listing the tickets of a store answers, from what the request
/// carries.
pub open spec fn list_tickets_outcome(
    slots: Seq<Option<Ticket>>,
    stored: Option<Result<Ctx, Error>>,
) -> Result<Seq<Ticket>, Error> {
    match extracted_ctx(stored) {
        Ok(_) => Ok(live_tickets(slots)),
        Err(e) => Err(e),
    }
}

/// What deleting a ticket makes of a store and answers, from what the
/// request carries.
pub open spec fn delete_ticket_outcome(
    slots: Seq<Option<Ticket>>,
    stored: Option<Result<Ctx, Error>>,
    id: u64,
) -> (Seq<Option<Ticket>>, Result<Ticket, Error>) {
    match extracted_ctx(stored) {
        Ok(_) => if holds_ticket(slots, id) {
            (slots.update(id as int, None), Ok(slots[id as int]->0))
        } else {
            (slots, Err(Error::TicketDeleteFailIdNotFound { id }))
        },
        Err(e) => (slots, Err(e)),
    }
}

/// The guard and the handlers ask for the context of a request one after
/// the other, and get the same: where the guard refuses a request, each
/// handler answers with the error of the guard and leaves the store as it
/// is; where the guard lets a request pass, each handler has the context.
pub proof fn lemma_guard_and_handlers_agree(
    stored: Option<Result<Ctx, Error>>,
    slots: Seq<Option<Ticket>>,
    ticket_fc: TicketForCreate,
    id: u64,
)
    ensures
        match required_auth(extracted_ctx(stored)) {
            Ok(_) => {
                &&& extracted_ctx(stored) matches Ok(ctx)
                &&& create_ticket_outcome(slots, stored, ticket_fc).1 == Ok::<Ticket, Error>(
                    next_ticket(slots, ctx, ticket_fc),
                )
                &&& list_tickets_outcome(slots, stored) == Ok::<Seq<Ticket>, Error>(
                    live_tickets(slots),
                )
            },
            Err(e) => {
                &&& create_ticket_outcome(slots, stored, ticket_fc) == (
                    slots,
                    Err::<Ticket, Error>(e),
                )
                &&& list_tickets_outcome(slots, stored) == Err::<Seq<Ticket>, Error>(e)
                &&& delete_ticket_outcome(slots, stored, id) == (slots, Err::<Ticket, Error>(e))
            },
        },
{
}

/// What the client is told of a request that came without a context: the
/// status `403` and the kind `NO_AUTH` under the identifier of the request.
pub open spec fn no_auth_response(req_uuid: Seq<char>) -> ErrorResponseView {
    ErrorResponseView { status: 403, body: client_error_body(ClientError::NO_AUTH, req_uuid) }
}

/// A request that lacks the session cookie gets nowhere on a protected
/// route: the guard refuses it, each handler answers with the same error
/// and leaves the store as it is, and the client is told `403` and
/// `NO_AUTH`.
pub proof fn lemma_no_cookie_is_refused(
    jar: Map<Seq<char>, Seq<char>>,
    slots: Seq<Option<Ticket>>,
    ticket_fc: TicketForCreate,
    id: u64,
    req_uuid: Seq<char>,
)
    requires
        !jar.contains_key(AUTH_TOKEN@),
    ensures
        ({
            let stored = Some(resolved_ctx(session_token(jar)));
            let refusal = Error::AuthFailNoAuthTokenCookie;
            &&& required_auth(extracted_ctx(stored)) == Err::<(), Error>(refusal)
            &&& create_ticket_outcome(slots, stored, ticket_fc) == (
                slots,
                Err::<Ticket, Error>(refusal),
            )
            &&& list_tickets_outcome(slots, stored) == Err::<Seq<Ticket>, Error>(refusal)
            &&& delete_ticket_outcome(slots, stored, id) == (slots, Err::<Ticket, Error>(refusal))
            &&& refusal.client_status_and_error() == (403u16, ClientError::NO_AUTH)
            &&& error_response(refusal, req_uuid) == no_auth_response(req_uuid)
        }),
{
}

/// A request whose session cookie is no token gets nowhere on a protected
/// route either: the guard refuses it, each handler answers with the same
/// error and leaves the store as it is, the client is told `403` and
/// `NO_AUTH`, and the cookie is gone from what goes back to the client.
pub proof fn lemma_malformed_cookie_is_refused(
    jar: Map<Seq<char>, Seq<char>>,
    slots: Seq<Option<Ticket>>,
    ticket_fc: TicketForCreate,
    id: u64,
    req_uuid: Seq<char>,
)
    requires
        jar.contains_key(AUTH_TOKEN@),
        parsed_token(jar[AUTH_TOKEN@]) is None,
    ensures
        ({
            let stored = Some(resolved_ctx(session_token(jar)));
            let refusal = Error::AuthFailTokenWrongFormat;
            &&& required_auth(extracted_ctx(stored)) == Err::<(), Error>(refusal)
            &&& create_ticket_outcome(slots, stored, ticket_fc) == (
                slots,
                Err::<Ticket, Error>(refusal),
            )
            &&& list_tickets_outcome(slots, stored) == Err::<Seq<Ticket>, Error>(refusal)
            &&& delete_ticket_outcome(slots, stored, id) == (slots, Err::<Ticket, Error>(refusal))
            &&& refusal.client_status_and_error() == (403u16, ClientError::NO_AUTH)
            &&& error_response(refusal, req_uuid) == no_auth_response(req_uuid)
            &&& !jar_after_resolution(jar).contains_key(AUTH_TOKEN@)
        }),
{
}

/// Creates a ticket that belongs to the user of the request.
pub fn create_ticket(mc: &mut ModelController, parts: &Extensions, ticket_fc: TicketForCreate) -> (r:
    Result<Ticket, Error>)
    ensures
        (final(mc)@, r) == create_ticket_outcome(old(mc)@, parts@, ticket_fc),
{
    let ctx = match Ctx::from_request_parts(parts) {
        Ok(ctx) => ctx,
        Err(e) => {
            return Err(e);
        },
    };
    mc.create_ticket(ctx, ticket_fc)
}

/// Lists the tickets that were not deleted, in the order of creation.
pub fn list_tickets(mc: &ModelController, parts: &Extensions) -> (r: Result<Vec<Ticket>, Error>)
    ensures
        match r {
            Ok(tickets) => list_tickets_outcome(mc@, parts@) == Ok::<Seq<Ticket>, Error>(tickets@),
            Err(e) => list_tickets_outcome(mc@, parts@) == Err::<Seq<Ticket>, Error>(e),
        },
{
    let ctx = match Ctx::from_request_parts(parts) {
        Ok(ctx) => ctx,
        Err(e) => {
            return Err(e);
        },
    };
    mc.list_tickets(ctx)
}

/// Deletes the ticket with the given identifier and answers with it.
pub fn delete_ticket(mc: &mut ModelController, parts: &Extensions, id: u64) -> (r: Result<
    Ticket,
    Error,
>)
    ensures
        (final(mc)@, r) == delete_ticket_outcome(old(mc)@, parts@, id),
{
    let ctx = match Ctx::from_request_parts(parts) {
        Ok(ctx) => ctx,
        Err(e) => {
            return Err(e);
        },
    };
    mc.delete_ticket(ctx, id)
}

} // verus!
