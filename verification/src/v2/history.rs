//! The entries of a changelog.

use crate::v2::user::User;
use vstd::prelude::*;

verus! {

/// One change to an issue: who made it, when, and what it changed.
#[derive(Debug)]
pub struct History {
    /// The author of a change
    pub author: User,
    /// When the change was made
    pub created: String,
    /// A list of items changed including previous and new values
    pub items: Vec<HistoryItem>,
}

/// One field as a change left it, with what it held before.
#[derive(Debug)]
pub struct HistoryItem {
    /// Name of field changed
    pub field: String,
    /// What the field was changed from in its object form. Depending on what
    /// field this was you may be able to deserialize it further but that
    /// would have to be done inside your application where you are able to
    /// determine the context.
    pub from: serde_json::Value,
    /// What the field was changed from in string form.
    pub from_string: String,
    /// What the field was changed to in its object form. Depending on what
    /// field this was you may be able to deserialize it futher but that would
    /// have to be done inside your application where you are able to
    /// determine the context.
    pub to: serde_json::Value,
    /// What the field was changed to in string form.
    pub to_string: String,
}

} // verus!
