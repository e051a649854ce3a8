//! Some fields share one structure: a size and the items themselves, which
//! are left undecoded until someone asks for them.

use vstd::prelude::*;

verus! {

/// A list of items whose kind depends on where the list stands.
#[derive(Debug)]
pub struct Item {
    /// Size of the items array
    pub size: i64,
    /// The items, as JSON
    pub items: serde_json::Value,
}

} // verus!
