//! The ticket data model: validated field wrappers, tickets, drafts and
//! patches, together with the ghost models that the contracts speak of.

use vstd::prelude::*;

verus! {

/// The identifier of a ticket, unique for the lifetime of a store.
pub type TicketId = u64;

/// The workflow state of a ticket: a closed set, nothing else is
/// representable once parsed.
#[derive(Clone, Copy, Debug, PartialEq, Eq, Structural)]
pub enum Status {
    ToDo,
    InProgress,
    Done,
}

/// A ticket title: non-empty text. Values are constructed only by
/// `parse::parse_title`, so a title is never empty.
#[derive(Debug)]
pub struct TicketTitle {
    text: String,
}

impl View for TicketTitle {
    type V = Seq<char>;

    closed spec fn view(&self) -> Seq<char> {
        self.text@
    }
}

impl TicketTitle {
    #[verifier::type_invariant]
    spec fn inv(self) -> bool {
        self.text@.len() > 0
    }

    /// Wrap already-validated text. Kept within the crate so that every
    /// title a caller can hold went through the parser.
    pub(crate) fn from_checked(text: String) -> (t: Self)
        requires
            text@.len() > 0,
        ensures
            t@ == text@,
    {
        TicketTitle { text }
    }

    /// The textual content of the title; never empty, by the invariant
    /// of the wrapper.
    pub fn text(&self) -> (r: &str)
        ensures
            r@ == self@,
            r@.len() > 0,
    {
        proof {
            use_type_invariant(self);
        }
        self.text.as_str()
    }
}

impl Clone for TicketTitle {
    fn clone(&self) -> (r: Self)
        ensures
            r == *self,
    {
        proof {
            use_type_invariant(self);
        }
        TicketTitle { text: self.text.clone() }
    }
}

/// A ticket description: non-empty text, constructed only by
/// `parse::parse_description`.
#[derive(Debug)]
pub struct TicketDescription {
    text: String,
}

impl View for TicketDescription {
    type V = Seq<char>;

    closed spec fn view(&self) -> Seq<char> {
        self.text@
    }
}

impl TicketDescription {
    #[verifier::type_invariant]
    spec fn inv(self) -> bool {
        self.text@.len() > 0
    }

    /// Wrap already-validated text; within the crate only.
    pub(crate) fn from_checked(text: String) -> (d: Self)
        requires
            text@.len() > 0,
        ensures
            d@ == text@,
    {
        TicketDescription { text }
    }

    /// The textual content of the description; never empty, by the
    /// invariant of the wrapper.
    pub fn text(&self) -> (r: &str)
        ensures
            r@ == self@,
            r@.len() > 0,
    {
        proof {
            use_type_invariant(self);
        }
        self.text.as_str()
    }
}

impl Clone for TicketDescription {
    fn clone(&self) -> (r: Self)
        ensures
            r == *self,
    {
        proof {
            use_type_invariant(self);
        }
        TicketDescription { text: self.text.clone() }
    }
}

/// A unit of tracked work held by the store.
#[derive(Debug)]
pub struct Ticket {
    pub id: TicketId,
    pub title: TicketTitle,
    pub description: TicketDescription,
    pub status: Status,
}

/// The mathematical value of a ticket: plain sequences in place of the
/// validated wrappers.
#[verifier::ext_equal]
pub struct TicketModel {
    pub id: TicketId,
    pub title: Seq<char>,
    pub description: Seq<char>,
    pub status: Status,
}

impl View for Ticket {
    type V = TicketModel;

    open spec fn view(&self) -> TicketModel {
        TicketModel {
            id: self.id,
            title: self.title@,
            description: self.description@,
            status: self.status,
        }
    }
}

impl Clone for Ticket {
    fn clone(&self) -> (r: Self)
        ensures
            r == *self,
    {
        Ticket {
            id: self.id,
            title: self.title.clone(),
            description: self.description.clone(),
            status: self.status,
        }
    }
}

/// The data needed to create a ticket; its status starts at the store's
/// initial state, `Status::ToDo`.
#[derive(Debug)]
pub struct TicketDraft {
    pub title: TicketTitle,
    pub description: TicketDescription,
}

/// A sparse update: an absent field means "leave unchanged", never
/// "clear".
#[derive(Debug)]
pub struct TicketPatch {
    pub title: Option<TicketTitle>,
    pub description: Option<TicketDescription>,
    pub status: Option<Status>,
}

/// The mathematical value of a patch.
#[verifier::ext_equal]
pub struct PatchModel {
    pub title: Option<Seq<char>>,
    pub description: Option<Seq<char>>,
    pub status: Option<Status>,
}

pub open spec fn title_opt_view(o: Option<TicketTitle>) -> Option<Seq<char>> {
    match o {
        Some(t) => Some(t@),
        None => None,
    }
}

pub open spec fn description_opt_view(o: Option<TicketDescription>) -> Option<Seq<char>> {
    match o {
        Some(d) => Some(d@),
        None => None,
    }
}

impl View for TicketPatch {
    type V = PatchModel;

    open spec fn view(&self) -> PatchModel {
        PatchModel {
            title: title_opt_view(self.title),
            description: description_opt_view(self.description),
            status: self.status,
        }
    }
}

/// What an update means for one ticket: each field present in the patch
/// replaces the ticket's field, each absent field leaves it unchanged,
/// and the id never changes.
pub open spec fn apply_patch(t: TicketModel, p: PatchModel) -> TicketModel {
    TicketModel {
        id: t.id,
        title: match p.title {
            Some(title) => title,
            None => t.title,
        },
        description: match p.description {
            Some(description) => description,
            None => t.description,
        },
        status: match p.status {
            Some(status) => status,
            None => t.status,
        },
    }
}

} // verus!
