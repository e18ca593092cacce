//! The index of the search engine: when it is created and when it is deleted.

use vstd::prelude::*;

verus! {

pub const INIT_ES_COMMAND: &'static str = "init_es";

pub const DELETE_ES_COMMAND: &'static str = "delete_es";

/// What the search engine says of the index.
#[derive(Clone, Copy, Debug, PartialEq, Eq, Structural)]
pub enum Existence {
    Present,
    Absent,
    /// The engine gave another answer.
    Unclear,
}

/// What the status of the engine's answer says of the index: it is there on success, not
/// there on 404, and unclear otherwise.
pub fn existence(status: u16) -> (out: Existence)
    ensures
        out == (if 200 <= status < 300 {
            Existence::Present
        } else if status == 404 {
            Existence::Absent
        } else {
            Existence::Unclear
        }),
{
    if 200 <= status && status < 300 {
        Existence::Present
    } else if status == 404 {
        Existence::Absent
    } else {
        Existence::Unclear
    }
}

/// What is done about the index.
#[derive(Clone, Copy, Debug, PartialEq, Eq, Structural)]
pub enum IndexAction {
    /// Create the index with the mapping of the common frame.
    Create,
    Delete,
    /// Say that the index would be created, and do nothing.
    AnnounceCreate,
    /// Say that the index would be deleted, and do nothing.
    AnnounceDelete,
    /// Refuse: the index is there already.
    RefuseExisting,
    /// Refuse: there is no index to delete.
    RefuseMissing,
    /// Nothing.
    Nothing,
}

/// What is done about the index: it is created only where it is absent and deleted only
/// where it is present, and either only when the change is to be applied.
pub open spec fn decided(found: Existence, delete: bool, apply: bool) -> IndexAction {
    match found {
        Existence::Present => if !delete {
            IndexAction::RefuseExisting
        } else if !apply {
            IndexAction::AnnounceDelete
        } else {
            IndexAction::Delete
        },
        Existence::Absent => if delete {
            IndexAction::RefuseMissing
        } else if !apply {
            IndexAction::AnnounceCreate
        } else {
            IndexAction::Create
        },
        Existence::Unclear => IndexAction::Nothing,
    }
}

pub fn index_action(found: Existence, delete: bool, apply: bool) -> (out: IndexAction)
    ensures
        out == decided(found, delete, apply),
{
    match found {
        Existence::Present => if !delete {
            IndexAction::RefuseExisting
        } else if !apply {
            IndexAction::AnnounceDelete
        } else {
            IndexAction::Delete
        },
        Existence::Absent => if delete {
            IndexAction::RefuseMissing
        } else if !apply {
            IndexAction::AnnounceCreate
        } else {
            IndexAction::Create
        },
        Existence::Unclear => IndexAction::Nothing,
    }
}

} // verus!
