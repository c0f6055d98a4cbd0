//! A schema (namespace) descriptor: the schema's name and the module whose
//! declarations belong to it.

use vstd::prelude::*;

verus! {

#[derive(Debug, Clone)]
pub struct InventorySchema {
    pub module_name: String,
    pub name: String,
    pub file: String,
    pub line: u32,
}

} // verus!
