//! The model layer: the tickets and their store, held in memory.

use vstd::prelude::*;

use crate::ctx::Ctx;
use crate::error::Error;

verus! {

/// A ticket as the store keeps it.
#[derive(Debug)]
pub struct Ticket {
    pub id: u64,
    pub cid: u64,  // creator user_id
    pub title: String,
}

impl Clone for Ticket {
    fn clone(&self) -> (ticket: Self)
        ensures
            ticket == *self,
    {
        Ticket { id: self.id, cid: self.cid, title: self.title.clone() }
    }
}

/// What a caller gives to have a ticket created.
#[derive(Debug)]
pub struct TicketForCreate {
    pub title: String,
}

/// What a slot of the store keeps of a ticket. The identifier is not kept:
/// it is the position of the slot.
struct Slot {
    cid: u64,
    title: String,
}

/// The ticket store. Every ticket ever created has a slot, in the order
/// of creation, and the identifier of a ticket is the position of its
/// slot. Deleting a ticket empties its slot and keeps it, so that no
/// identifier is given out twice.
pub struct ModelController {
    tickets_store: Vec<Option<Slot>>,
}

impl View for ModelController {
    type V = Seq<Option<Ticket>>;

    /// The slots of the store, each with the ticket that it holds.
    closed spec fn view(&self) -> Seq<Option<Ticket>> {
        Seq::new(
            self.tickets_store@.len(),
            |i: int|
                match self.tickets_store@[i] {
                    Some(slot) => Some(Ticket { id: i as u64, cid: slot.cid, title: slot.title }),
                    None => None,
                },
        )
    }
}

/// Whether every ticket of a store sits in the slot that its identifier
/// names.
pub open spec fn ids_are_positions(slots: Seq<Option<Ticket>>) -> bool {
    forall|i: int| 0 <= i < slots.len() ==> (#[trigger] slots[i] matches Some(t) ==> t.id == i)
}

/// The tickets of a store that were not deleted, in the order of creation.
pub open spec fn live_tickets(slots: Seq<Option<Ticket>>) -> Seq<Ticket> {
    slots.filter_map(|slot: Option<Ticket>| slot)
}

/// The ticket that a store creates next for a user.
pub open spec fn next_ticket(slots: Seq<Option<Ticket>>, ctx: Ctx, ticket_fc: TicketForCreate) -> Ticket {
    Ticket { id: slots.len() as u64, cid: ctx.user_id(), title: ticket_fc.title }
}

/// Whether a store holds a ticket under an identifier.
pub open spec fn holds_ticket(slots: Seq<Option<Ticket>>, id: u64) -> bool {
    id < slots.len() && slots[id as int] is Some
}

/// Identifiers are given out in ascending order and never twice: the
/// tickets of a store are listed with ascending identifiers, and each of
/// them is below the number of slots, which is where the identifier of the
/// next ticket starts.
pub proof fn lemma_live_tickets_ascend(slots: Seq<Option<Ticket>>)
    requires
        ids_are_positions(slots),
    ensures
        forall|i: int, j: int|
            0 <= i < j < live_tickets(slots).len() ==> (#[trigger] live_tickets(slots)[i]).id < (
            #[trigger] live_tickets(slots)[j]).id,
        forall|i: int|
            0 <= i < live_tickets(slots).len() ==> (#[trigger] live_tickets(slots)[i]).id
                < slots.len(),
    decreases slots.len(),
{
    if slots.len() > 0 {
        let earlier = slots.drop_last();
        assert forall|i: int| 0 <= i < earlier.len() implies (#[trigger] earlier[i] matches Some(
            t,
        ) ==> t.id == i) by {
            assert(earlier[i] == slots[i]);
        }
        lemma_live_tickets_ascend(earlier);
        let before = live_tickets(earlier);
        match slots.last() {
            Some(t) => {
                assert(live_tickets(slots) == before + seq![t]);
                assert(slots[slots.len() - 1] == Some(t));
                assert(t.id == slots.len() - 1);
                assert forall|i: int| 0 <= i < live_tickets(slots).len() implies (
                #[trigger] live_tickets(slots)[i]).id < slots.len() by {
                    if i < before.len() {
                        assert(live_tickets(slots)[i] == before[i]);
                    }
                }
                assert forall|i: int, j: int| 0 <= i < j < live_tickets(slots).len() implies (
                #[trigger] live_tickets(slots)[i]).id < (#[trigger] live_tickets(slots)[j]).id by {
                    assert(live_tickets(slots)[i] == before[i]);
                    if j < before.len() {
                        assert(live_tickets(slots)[j] == before[j]);
                    }
                }
            },
            None => {
                assert(live_tickets(slots) == before);
            },
        }
    }
}

impl ModelController {
    /// In every store each ticket sits in the slot of its identifier.
    pub proof fn lemma_ids_are_positions(&self)
        ensures
            ids_are_positions(self@),
    {
        assert(self.tickets_store.len() == self.tickets_store@.len());
    }

    /// A store without tickets.
    pub fn new() -> (r: Result<Self, Error>)
        ensures
            r matches Ok(mc) && mc@ == Seq::<Option<Ticket>>::empty(),
    {
        Ok(Self { tickets_store: Vec::new() })
    }

    /// Creates a ticket for the user of the context. The ticket takes the
    /// next slot of the store and has its position for identifier.
    pub fn create_ticket(&mut self, ctx: Ctx, ticket_fc: TicketForCreate) -> (r: Result<
        Ticket,
        Error,
    >)
        ensures
            r matches Ok(ticket) && ticket == next_ticket(old(self)@, ctx, ticket_fc),
            final(self)@ == old(self)@.push(Some(next_ticket(old(self)@, ctx, ticket_fc))),
    {
        let id = self.tickets_store.len() as u64;
        let ticket = Ticket { id, cid: ctx.user_id(), title: ticket_fc.title };
        self.tickets_store.push(Some(Slot { cid: ticket.cid, title: ticket.title.clone() }));
        assert(self@ =~= old(self)@.push(Some(ticket)));
        Ok(ticket)
    }

    /// The tickets that were not deleted, in the order of creation, which
    /// is the order of their identifiers.
    pub fn list_tickets(&self, _ctx: Ctx) -> (r: Result<Vec<Ticket>, Error>)
        ensures
            r matches Ok(tickets) && tickets@ == live_tickets(self@),
    {
        let mut tickets: Vec<Ticket> = Vec::new();
        let mut i: usize = 0;
        assert(self@.take(0) =~= Seq::<Option<Ticket>>::empty());
        while i < self.tickets_store.len()
            invariant
                i <= self.tickets_store.len(),
                tickets@ == live_tickets(self@.take(i as int)),
            decreases self.tickets_store.len() - i,
        {
            proof {
                self@.lemma_filter_map_take_succ(|slot: Option<Ticket>| slot, i as int);
            }
            match &self.tickets_store[i] {
                Some(slot) => {
                    tickets.push(Ticket { id: i as u64, cid: slot.cid, title: slot.title.clone() });
                },
                None => {},
            }
            i += 1;
        }
        assert(self@.take(i as int) =~= self@);
        Ok(tickets)
    }

    /// Deletes the ticket with the given identifier and hands it out. Its
    /// slot stays, empty. Where the store holds no such ticket, nothing
    /// changes.
    pub fn delete_ticket(&mut self, _ctx: Ctx, id: u64) -> (r: Result<Ticket, Error>)
        ensures
            match r {
                Ok(ticket) => holds_ticket(old(self)@, id) && old(self)@[id as int] == Some(ticket)
                    && ticket.id == id && final(self)@ == old(self)@.update(id as int, None),
                Err(e) => !holds_ticket(old(self)@, id) && e == (Error::TicketDeleteFailIdNotFound {
                    id,
                }) && final(self)@ == old(self)@,
            },
    {
        if id >= self.tickets_store.len() as u64 {
            return Err(Error::TicketDeleteFailIdNotFound { id });
        }
        let slot = self.tickets_store[id as usize].take();
        match slot {
            Some(slot) => {
                assert(self@ =~= old(self)@.update(id as int, None));
                Ok(Ticket { id, cid: slot.cid, title: slot.title })
            },
            None => {
                assert(self@ =~= old(self)@);
                Err(Error::TicketDeleteFailIdNotFound { id })
            },
        }
    }
}

} // verus!
