//! What the item service's handlers compute.

use vstd::prelude::*;

use crate::text::join2;

verus! {

/// The body of a request to create an item.
#[derive(Debug)]
pub struct CreateItem {
    pub name: String,
    pub description: Option<String>,
}

/// The greeting for `name`: `Hello, ` followed by the name.
pub fn hello(name: &str) -> (r: String)
    ensures
        r@ == "Hello, "@ + name@,
{
    join2("Hello, ", name)
}

} // verus!
