//! An enumeration descriptor: its name, source location, type identities and
//! the variant labels in declaration order.

use vstd::prelude::*;

verus! {

#[derive(Debug, Clone)]
pub struct InventoryPostgresEnum {
    pub name: String,
    pub file: String,
    pub line: u32,
    pub full_path: String,
    pub module_name: String,
    pub id: u64,
    pub option_id: u64,
    pub vec_id: u64,
    pub variants: Vec<String>,
}

} // verus!
