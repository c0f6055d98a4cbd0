//! A descriptor asking for a hash operator class over a type, wired to a
//! hash function named after the type.

use vstd::prelude::*;

verus! {

#[derive(Debug, Clone)]
pub struct InventoryPostgresHash {
    pub name: String,
    pub file: String,
    pub line: u32,
    pub full_path: String,
    pub id: u64,
}

} // verus!
