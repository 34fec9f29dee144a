//! Event tickets as ledger assets: minting with seat and venue data,
//! lookup, and transfer by the owner.
use std::collections::HashMap;
use vstd::prelude::*;
use crate::common::Address;

verus! {

broadcast use vstd::std_specs::hash::group_hash_axioms;

/// Data printed on a ticket.
#[derive(Clone, Debug, PartialEq, Eq)]
pub struct TicketMetadata {
    pub event_id: u32,
    pub seat: String,
    pub date: u64,
    pub venue: String,
    pub qr_code_hash: String,
    pub face_value: i128,
}

#[derive(Copy, Clone, Debug, PartialEq, Eq, Structural)]
pub enum TicketingError {
    NotAuthorized,
    TicketNotFound,
    InvalidPrice,
}

/// Storage of the ticketing contract.
pub struct NftTicketingContract {
    pub admin: Option<Address>,
    /// Id of the last minted ticket.
    pub counter: u32,
    pub tickets: HashMap<u32, TicketMetadata>,
    pub owners: HashMap<u32, Address>,
    /// Ticket ids per event, in order of minting.
    pub event_tickets: HashMap<u32, Vec<u32>>,
}

impl NftTicketingContract {
    pub open spec fn tickets_of(&self, event_id: u32) -> Seq<u32> {
        if self.event_tickets@.contains_key(event_id) { self.event_tickets@[event_id]@ } else { Seq::empty() }
    }

    /// Fresh storage.
    pub fn new() -> (c: Self)
        ensures
            c.admin is None && c.counter == 0,
            c.tickets@ == Map::<u32, TicketMetadata>::empty(),
            c.owners@ == Map::<u32, Address>::empty(),
            c.event_tickets@ == Map::<u32, Vec<u32>>::empty(),
    {
        NftTicketingContract {
            admin: None,
            counter: 0,
            tickets: HashMap::new(),
            owners: HashMap::new(),
            event_tickets: HashMap::new(),
        }
    }

    /// Set the admin and restart the ticket counter at 0.
    pub fn init(&mut self, admin: Address)
        ensures
            final(self).admin == Some(admin),
            final(self).counter == 0,
            final(self).tickets == old(self).tickets,
            final(self).owners == old(self).owners,
            final(self).event_tickets == old(self).event_tickets,
    {
        self.admin = Some(admin);
        self.counter = 0;
    }

    /// Mint a ticket for event `event_id`, owned by `to`. Returns its id.
    pub fn mint_ticket(
        &mut self,
        caller: Address,
        to: Address,
        event_id: u32,
        seat: String,
        date: u64,
        venue: String,
        qr_code_hash: String,
        face_value: i128,
    ) -> (r: u32)
        requires
            old(self).counter < u32::MAX,
        ensures
            r == old(self).counter + 1,
            final(self).counter == r,
            final(self).admin == old(self).admin,
            final(self).tickets@ == old(self).tickets@.insert(r, TicketMetadata {
                event_id, seat, date, venue, qr_code_hash, face_value }),
            final(self).owners@ == old(self).owners@.insert(r, to),
            final(self).event_tickets@.dom() == old(self).event_tickets@.dom().insert(event_id),
            final(self).tickets_of(event_id) == old(self).tickets_of(event_id).push(r),
            forall|e: u32| e != event_id ==> #[trigger] final(self).tickets_of(e) == old(self).tickets_of(e),
    {
        let counter = self.counter + 1;
        self.tickets.insert(counter, TicketMetadata { event_id, seat, date, venue, qr_code_hash, face_value });
        self.owners.insert(counter, to);
        self.counter = counter;
        let mut list = match self.event_tickets.remove(&event_id) {
            Some(v) => v,
            None => Vec::new(),
        };
        list.push(counter);
        self.event_tickets.insert(event_id, list);
        proof {
            assert forall|e: u32| e != event_id implies #[trigger] self.tickets_of(e) == old(self).tickets_of(e) by {}
            assert(self.event_tickets@.dom() =~= old(self).event_tickets@.dom().insert(event_id));
        }
        counter
    }

    /// The data of ticket `ticket_id`.
    pub fn get_ticket(&self, ticket_id: u32) -> (r: Result<&TicketMetadata, TicketingError>)
        ensures
            r is Err <==> !self.tickets@.contains_key(ticket_id),
            r is Err ==> r == Err::<&TicketMetadata, TicketingError>(TicketingError::TicketNotFound),
            r matches Ok(t) ==> *t == self.tickets@[ticket_id],
    {
        match self.tickets.get(&ticket_id) {
            Some(t) => Ok(t),
            None => Err(TicketingError::TicketNotFound),
        }
    }

    /// The owner of ticket `ticket_id`.
    pub fn get_owner(&self, ticket_id: u32) -> (r: Result<Address, TicketingError>)
        ensures
            r == (if self.owners@.contains_key(ticket_id) {
                Ok(self.owners@[ticket_id])
            } else {
                Err(TicketingError::TicketNotFound)
            }),
    {
        match self.owners.get(&ticket_id) {
            Some(o) => Ok(*o),
            None => Err(TicketingError::TicketNotFound),
        }
    }

    /// The owner `from` gives ticket `ticket_id` to `to`.
    pub fn transfer_ticket(&mut self, from: Address, to: Address, ticket_id: u32) -> (r: Result<(), TicketingError>)
        requires
            old(self).owners@.contains_key(ticket_id),
        ensures
            r == (if old(self).owners@[ticket_id] == from { Ok(()) } else { Err(TicketingError::NotAuthorized) }),
            r is Err ==> *final(self) == *old(self),
            r is Ok ==> *final(self) == (NftTicketingContract { owners: final(self).owners, ..*old(self) })
                && final(self).owners@ == old(self).owners@.insert(ticket_id, to),
    {
        let owner = match self.owners.get(&ticket_id) {
            Some(o) => *o,
            None => return Err(TicketingError::TicketNotFound),
        };
        if from != owner {
            return Err(TicketingError::NotAuthorized);
        }
        self.owners.insert(ticket_id, to);
        Ok(())
    }
}

} // verus!
