//! The command handler: a stateless dispatcher that applies one command
//! to the store and returns what is to be reported to the user.
//!
//! A command on an unknown id is a reported outcome, not an error: the
//! handler always returns a report.

use vstd::prelude::*;
use crate::store::{
    has_ticket, models, store_create, store_delete, store_update, StoreModel, TicketStore,
    ticket_index,
};
use crate::ticket::{
    apply_patch, description_opt_view, title_opt_view, PatchModel, Status, Ticket,
    TicketDescription, TicketDraft, TicketId, TicketModel, TicketPatch, TicketTitle,
};

verus! {

/// A user intent: a closed set of commands, each carrying validated or
/// optional fields. Consumed exactly once by `handle_command`.
#[derive(Clone, Debug)]
pub enum Command {
    /// Create a ticket from a title and a description.
    Create { title: TicketTitle, description: TicketDescription },
    /// Update the fields present in the patch of the ticket under `id`.
    Edit {
        id: TicketId,
        status: Option<Status>,
        description: Option<TicketDescription>,
        title: Option<TicketTitle>,
    },
    /// Remove the ticket under `ticket_id`.
    Delete { ticket_id: TicketId },
    /// Report every ticket in the store.
    List,
}

/// What a command leaves to report: the observable outcome of one
/// dispatch, for the caller to print.
#[derive(Debug)]
pub enum CommandOutcome {
    /// A ticket was created under a fresh id.
    Created { id: TicketId, ticket: Ticket },
    /// The ticket under the edited id, with the patch applied.
    Updated { ticket: Ticket },
    /// No ticket carried the id given to an edit.
    EditNotFound { id: TicketId },
    /// The removed ticket.
    Deleted { ticket: Ticket },
    /// No ticket carried the id given to a delete.
    DeleteNotFound { id: TicketId },
    /// Every ticket in the store, in insertion order.
    Listed { tickets: Vec<Ticket> },
}

/// The patch carried by an edit command.
pub open spec fn edit_patch(c: Command) -> PatchModel
    recommends
        c is Edit,
{
    PatchModel {
        title: title_opt_view(c->Edit_title),
        description: description_opt_view(c->Edit_description),
        status: c->Edit_status,
    }
}

/// The store a command leaves behind: create appends, edit patches,
/// delete removes, list changes nothing.
pub open spec fn command_post_store(pre: StoreModel, c: Command) -> StoreModel {
    match c {
        Command::Create { title, description } => store_create(pre, title@, description@),
        Command::Edit { id, status, description, title } => store_update(
            pre,
            id,
            PatchModel {
                title: title_opt_view(title),
                description: description_opt_view(description),
                status,
            },
        ),
        Command::Delete { ticket_id } => store_delete(pre, ticket_id),
        Command::List => pre,
    }
}

/// What the outcome of a command reports, against the store the command
/// found: the created ticket under its fresh id; the patched or removed
/// ticket, or that the id was not found; or every ticket held.
pub open spec fn outcome_reports(pre: StoreModel, c: Command, o: CommandOutcome) -> bool {
    match c {
        Command::Create { title, description } => {
            &&& o is Created
            &&& o->Created_id == pre.next_id
            &&& o->Created_ticket@ == TicketModel {
                id: pre.next_id,
                title: title@,
                description: description@,
                status: Status::ToDo,
            }
        },
        Command::Edit { id, status, description, title } => {
            if has_ticket(pre.tickets, id) {
                &&& o is Updated
                &&& o->Updated_ticket@ == apply_patch(
                    pre.tickets[ticket_index(pre.tickets, id)],
                    edit_patch(c),
                )
            } else {
                o == (CommandOutcome::EditNotFound { id })
            }
        },
        Command::Delete { ticket_id } => {
            if has_ticket(pre.tickets, ticket_id) {
                &&& o is Deleted
                &&& o->Deleted_ticket@ == pre.tickets[ticket_index(pre.tickets, ticket_id)]
            } else {
                o == (CommandOutcome::DeleteNotFound { id: ticket_id })
            }
        },
        Command::List => {
            &&& o is Listed
            &&& models(o->Listed_tickets@) == pre.tickets
        },
    }
}

/// Carry out the action a command asks for, against the given store,
/// and return the outcome to report. Create, edit and delete mutate the
/// store; list leaves it unchanged; an unknown id is reported, never an
/// error.
pub fn handle_command(store: &mut TicketStore, command: Command) -> (outcome: CommandOutcome)
    requires
        command is Create ==> old(store)@.next_id < TicketId::MAX,
    ensures
        final(store)@ == command_post_store(old(store)@, command),
        outcome_reports(old(store)@, command, outcome),
{
    match command {
        Command::Create { title, description } => {
            let reported_title = title.clone();
            let reported_description = description.clone();
            let id = store.create(TicketDraft { title, description });
            CommandOutcome::Created {
                id,
                ticket: Ticket {
                    id,
                    title: reported_title,
                    description: reported_description,
                    status: Status::ToDo,
                },
            }
        },
        Command::Edit { id, status, description, title } => {
            match store.update(id, TicketPatch { title, description, status }) {
                Some(ticket) => CommandOutcome::Updated { ticket },
                None => CommandOutcome::EditNotFound { id },
            }
        },
        Command::Delete { ticket_id } => {
            match store.delete(ticket_id) {
                Some(ticket) => CommandOutcome::Deleted { ticket },
                None => CommandOutcome::DeleteNotFound { id: ticket_id },
            }
        },
        Command::List => CommandOutcome::Listed { tickets: store.list() },
    }
}

} // verus!
