//! Laws of the store operations, stated over the store model. Every
//! store the library hands out has unique ticket ids, so the laws that
//! need it ask only for that.

use vstd::prelude::*;
use crate::handler::{command_post_store, edit_patch, Command};
use crate::store::{
    has_ticket, ids_unique, lemma_ticket_index, store_delete, store_update, StoreModel,
    ticket_index,
};
use crate::ticket::{apply_patch, PatchModel, TicketModel};

verus! {

/// Applying a patch a second time changes nothing: each field the patch
/// carries was already set to the patched value, and each field it
/// omits is untouched.
pub proof fn lemma_apply_patch_idempotent(t: TicketModel, p: PatchModel)
    ensures
        apply_patch(apply_patch(t, p), p) == apply_patch(t, p),
{
    assert(apply_patch(apply_patch(t, p), p) =~= apply_patch(t, p));
}

/// Editing is idempotent: issuing the same patch twice against the same
/// id leaves the same store as issuing it once.
pub proof fn lemma_edit_idempotent(s: StoreModel, id: u64, p: PatchModel)
    requires
        ids_unique(s.tickets),
    ensures
        store_update(store_update(s, id, p), id, p) == store_update(s, id, p),
{
    if has_ticket(s.tickets, id) {
        let i = ticket_index(s.tickets, id);
        assert(s.tickets[i].id == id);
        let s1 = store_update(s, id, p);
        assert(s1.tickets == s.tickets.update(i, apply_patch(s.tickets[i], p)));
        assert(ids_unique(s1.tickets));
        lemma_ticket_index(s1.tickets, id, i);
        lemma_apply_patch_idempotent(s.tickets[i], p);
        assert(store_update(s1, id, p).tickets =~= s1.tickets);
        assert(store_update(s1, id, p) =~= s1);
    }
}

/// An all-absent patch is a no-op: the ticket under the id, if any, is
/// unchanged, and so is the store.
pub proof fn lemma_empty_patch_noop(s: StoreModel, id: u64)
    ensures
        store_update(s, id, PatchModel { title: None, description: None, status: None }) == s,
{
    let p = PatchModel { title: None, description: None, status: None };
    if has_ticket(s.tickets, id) {
        let i = ticket_index(s.tickets, id);
        assert(apply_patch(s.tickets[i], p) =~= s.tickets[i]);
        assert(store_update(s, id, p).tickets =~= s.tickets);
        assert(store_update(s, id, p) =~= s);
    }
}

/// Deleting is irreversible within one run: once an id is deleted, no
/// ticket carries it, so deleting it again finds nothing and changes
/// nothing.
pub proof fn lemma_delete_irreversible(s: StoreModel, id: u64)
    requires
        ids_unique(s.tickets),
    ensures
        !has_ticket(store_delete(s, id).tickets, id),
        store_delete(store_delete(s, id), id) == store_delete(s, id),
{
    if has_ticket(s.tickets, id) {
        let i = ticket_index(s.tickets, id);
        assert(s.tickets[i].id == id);
        let rest = s.tickets.remove(i);
        assert forall|j: int| 0 <= j < rest.len() implies rest[j].id != id by {
            if j < i {
                assert(rest[j] == s.tickets[j]);
            } else {
                assert(rest[j] == s.tickets[j + 1]);
            }
        }
    }
}

/// The same law at the command level: issuing one edit command twice
/// leaves the same store as issuing it once.
pub proof fn lemma_edit_command_idempotent(s: StoreModel, c: Command)
    requires
        c is Edit,
        ids_unique(s.tickets),
    ensures
        command_post_store(command_post_store(s, c), c) == command_post_store(s, c),
{
    lemma_edit_idempotent(s, c->Edit_id, edit_patch(c));
}

/// The same law at the command level: after a delete command, the id it
/// named carries no ticket, so issuing it again changes nothing.
pub proof fn lemma_delete_command_irreversible(s: StoreModel, c: Command)
    requires
        c is Delete,
        ids_unique(s.tickets),
    ensures
        !has_ticket(command_post_store(s, c).tickets, c->Delete_ticket_id),
        command_post_store(command_post_store(s, c), c) == command_post_store(s, c),
{
    lemma_delete_irreversible(s, c->Delete_ticket_id);
}

} // verus!
