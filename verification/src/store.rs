//! The ticket store: owns all persisted tickets, keyed by id, and hands
//! out fresh ids. Tickets are kept, and listed, in insertion order.

use vstd::prelude::*;
use crate::ticket::{apply_patch, PatchModel, Status, Ticket, TicketDraft, TicketId, TicketModel, TicketPatch};

verus! {

/// The mathematical value of a store: the tickets it holds, in
/// insertion order, and the next id it will assign.
#[verifier::ext_equal]
pub struct StoreModel {
    pub tickets: Seq<TicketModel>,
    pub next_id: TicketId,
}

/// No two tickets carry the same id.
pub open spec fn ids_unique(tickets: Seq<TicketModel>) -> bool {
    forall|i: int, j: int|
        0 <= i < tickets.len() && 0 <= j < tickets.len() && i != j ==> tickets[i].id != tickets[j].id
}

/// Whether some ticket carries the given id.
pub open spec fn has_ticket(tickets: Seq<TicketModel>, id: TicketId) -> bool {
    exists|i: int| 0 <= i < tickets.len() && tickets[i].id == id
}

/// The position of the ticket carrying the given id; meaningful where
/// `has_ticket` holds and ids are unique.
pub open spec fn ticket_index(tickets: Seq<TicketModel>, id: TicketId) -> int {
    choose|i: int| 0 <= i < tickets.len() && tickets[i].id == id
}

/// Where ids are unique, the position of an id is the one place it
/// occurs.
pub proof fn lemma_ticket_index(tickets: Seq<TicketModel>, id: TicketId, i: int)
    requires
        ids_unique(tickets),
        0 <= i < tickets.len(),
        tickets[i].id == id,
    ensures
        has_ticket(tickets, id),
        ticket_index(tickets, id) == i,
{
    assert(has_ticket(tickets, id));
    let k = ticket_index(tickets, id);
    assert(tickets[k].id == id);
}

/// What creating a ticket means: the draft's fields are appended as a
/// new ticket in the initial state, under the next fresh id.
pub open spec fn store_create(s: StoreModel, title: Seq<char>, description: Seq<char>) -> StoreModel {
    StoreModel {
        tickets: s.tickets.push(
            TicketModel { id: s.next_id, title, description, status: Status::ToDo },
        ),
        next_id: (s.next_id + 1) as TicketId,
    }
}

/// What updating a ticket means: where the id is present, the patch is
/// applied to that ticket in place; where it is absent, nothing changes.
pub open spec fn store_update(s: StoreModel, id: TicketId, p: PatchModel) -> StoreModel {
    if has_ticket(s.tickets, id) {
        let i = ticket_index(s.tickets, id);
        StoreModel { tickets: s.tickets.update(i, apply_patch(s.tickets[i], p)), next_id: s.next_id }
    } else {
        s
    }
}

/// What deleting a ticket means: where the id is present, that ticket
/// leaves the store; where it is absent, nothing changes.
pub open spec fn store_delete(s: StoreModel, id: TicketId) -> StoreModel {
    if has_ticket(s.tickets, id) {
        StoreModel { tickets: s.tickets.remove(ticket_index(s.tickets, id)), next_id: s.next_id }
    } else {
        s
    }
}

/// The mathematical values of a sequence of tickets.
pub open spec fn models(tickets: Seq<Ticket>) -> Seq<TicketModel> {
    tickets.map_values(|t: Ticket| t@)
}

/// The store. Ids are assigned from a counter, so every ticket's id is
/// below the counter and no two tickets share an id.
pub struct TicketStore {
    tickets: Vec<Ticket>,
    next_id: TicketId,
}

impl View for TicketStore {
    type V = StoreModel;

    closed spec fn view(&self) -> StoreModel {
        StoreModel { tickets: models(self.tickets@), next_id: self.next_id }
    }
}

/// Find the position of a ticket by id, scanning in insertion order.
fn find_index(tickets: &Vec<Ticket>, id: TicketId) -> (r: Option<usize>)
    ensures
        match r {
            Some(i) => i < tickets@.len() && tickets@[i as int].id == id,
            None => forall|j: int| 0 <= j < tickets@.len() ==> tickets@[j].id != id,
        },
{
    let mut i: usize = 0;
    while i < tickets.len()
        invariant
            i <= tickets@.len(),
            forall|j: int| 0 <= j < i ==> tickets@[j].id != id,
        decreases tickets@.len() - i,
    {
        if tickets[i].id == id {
            return Some(i);
        }
        i = i + 1;
    }
    None
}

impl TicketStore {
    #[verifier::type_invariant]
    spec fn wf(self) -> bool {
        &&& ids_unique(self@.tickets)
        &&& forall|i: int| 0 <= i < self@.tickets.len() ==> (#[trigger] self@.tickets[i]).id < self.next_id
    }

    /// An empty store; ids start at zero.
    pub fn new() -> (s: Self)
        ensures
            s@.tickets == Seq::<TicketModel>::empty(),
            s@.next_id == 0,
    {
        let s = TicketStore { tickets: Vec::new(), next_id: 0 };
        proof {
            assert(s@.tickets =~= Seq::<TicketModel>::empty());
        }
        s
    }

    /// The store's standing guarantee, stated for callers: ticket ids
    /// are unique, and every id sits below the next one to be assigned.
    /// The laws over the store model that ask for unique ids hold of
    /// every store through this.
    pub fn guarantees(&self)
        ensures
            ids_unique(self@.tickets),
            forall|i: int|
                0 <= i < self@.tickets.len() ==> (#[trigger] self@.tickets[i]).id < self@.next_id,
    {
        proof {
            use_type_invariant(&*self);
        }
    }

    /// Whether a fresh id is still available. Exhausting the id space
    /// takes a create call per id, so in practice this always holds.
    pub fn can_create(&self) -> (b: bool)
        ensures
            b == (self@.next_id < TicketId::MAX),
    {
        self.next_id < TicketId::MAX
    }

    /// Create a ticket from a draft and return its fresh id.
    pub fn create(&mut self, draft: TicketDraft) -> (id: TicketId)
        requires
            old(self)@.next_id < TicketId::MAX,
        ensures
            id == old(self)@.next_id,
            final(self)@ == store_create(old(self)@, draft.title@, draft.description@),
    {
        proof {
            use_type_invariant(&*self);
        }
        let ghost pre = self@;
        let id = self.next_id;
        self.next_id = self.next_id + 1;
        let ticket = Ticket {
            id,
            title: draft.title,
            description: draft.description,
            status: Status::ToDo,
        };
        let mut tickets: Vec<Ticket> = Vec::new();
        std::mem::swap(&mut tickets, &mut self.tickets);
        tickets.push(ticket);
        proof {
            let new_model = TicketModel {
                id: pre.next_id,
                title: draft.title@,
                description: draft.description@,
                status: Status::ToDo,
            };
            assert(models(tickets@) =~= pre.tickets.push(new_model));
            assert(ids_unique(models(tickets@)));
            assert(forall|k: int|
                0 <= k < models(tickets@).len() ==> (#[trigger] models(tickets@)[k]).id
                    < self.next_id);
        }
        self.tickets = tickets;
        proof {
            assert(self@ =~= store_create(pre, draft.title@, draft.description@));
        }
        id
    }

    /// Apply a patch to the ticket under the given id. Returns the
    /// updated ticket, or `None`, leaving the store unchanged, where no
    /// ticket carries the id.
    pub fn update(&mut self, id: TicketId, patch: TicketPatch) -> (r: Option<Ticket>)
        ensures
            final(self)@ == store_update(old(self)@, id, patch@),
            r is Some <==> has_ticket(old(self)@.tickets, id),
            r is Some ==> r->0@ == apply_patch(
                old(self)@.tickets[ticket_index(old(self)@.tickets, id)],
                patch@,
            ),
    {
        proof {
            use_type_invariant(&*self);
        }
        let ghost pre = self@;
        match find_index(&self.tickets, id) {
            Some(i) => {
                proof {
                    lemma_ticket_index(pre.tickets, id, i as int);
                }
                let mut tickets: Vec<Ticket> = Vec::new();
                std::mem::swap(&mut tickets, &mut self.tickets);
                let t = tickets.remove(i);
                let patched = Ticket {
                    id: t.id,
                    title: match patch.title {
                        Some(title) => title,
                        None => t.title,
                    },
                    description: match patch.description {
                        Some(description) => description,
                        None => t.description,
                    },
                    status: match patch.status {
                        Some(status) => status,
                        None => t.status,
                    },
                };
                let result = patched.clone();
                tickets.insert(i, patched);
                proof {
                    assert(models(tickets@) =~= pre.tickets.update(
                        i as int,
                        apply_patch(pre.tickets[i as int], patch@),
                    ));
                }
                self.tickets = tickets;
                proof {
                    assert(self@ =~= store_update(pre, id, patch@));
                }
                Some(result)
            },
            None => {
                proof {
                    assert(!has_ticket(pre.tickets, id));
                }
                None
            },
        }
    }

    /// Remove the ticket under the given id. Returns the removed
    /// ticket, or `None`, leaving the store unchanged, where no ticket
    /// carries the id.
    pub fn delete(&mut self, id: TicketId) -> (r: Option<Ticket>)
        ensures
            final(self)@ == store_delete(old(self)@, id),
            r is Some <==> has_ticket(old(self)@.tickets, id),
            r is Some ==> r->0@ == old(self)@.tickets[ticket_index(old(self)@.tickets, id)],
    {
        proof {
            use_type_invariant(&*self);
        }
        let ghost pre = self@;
        match find_index(&self.tickets, id) {
            Some(i) => {
                proof {
                    lemma_ticket_index(pre.tickets, id, i as int);
                }
                let mut tickets: Vec<Ticket> = Vec::new();
                std::mem::swap(&mut tickets, &mut self.tickets);
                let t = tickets.remove(i);
                proof {
                    assert(models(tickets@) =~= pre.tickets.remove(i as int));
                }
                self.tickets = tickets;
                proof {
                    assert(self@ =~= store_delete(pre, id));
                }
                Some(t)
            },
            None => {
                proof {
                    assert(!has_ticket(pre.tickets, id));
                }
                None
            },
        }
    }

    /// All tickets, in insertion order.
    pub fn list(&self) -> (r: Vec<Ticket>)
        ensures
            models(r@) == self@.tickets,
    {
        let mut out: Vec<Ticket> = Vec::new();
        let mut i: usize = 0;
        while i < self.tickets.len()
            invariant
                i <= self.tickets@.len(),
                models(out@) =~= self@.tickets.subrange(0, i as int),
            decreases self.tickets@.len() - i,
        {
            let ghost out_pre = out@;
            let t = self.tickets[i].clone();
            out.push(t);
            proof {
                assert(models(out@) =~= models(out_pre).push(t@));
                assert(models(out@) =~= self@.tickets.subrange(0, i as int + 1));
            }
            i = i + 1;
        }
        proof {
            assert(models(out@) =~= self@.tickets);
        }
        out
    }
}

} // verus!
