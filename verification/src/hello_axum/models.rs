//! The items that the item service keeps.

use vstd::prelude::*;

use crate::text::copy_opt;

verus! {

/// A stored item.
#[derive(Debug, Clone)]
pub struct Item {
    pub id: u64,
    pub name: String,
    pub description: Option<String>,
}

impl Item {
    /// A copy of this item.
    pub fn duplicate(&self) -> (r: Item)
        ensures
            r == *self,
    {
        Item { id: self.id, name: self.name.clone(), description: copy_opt(&self.description) }
    }
}

} // verus!
