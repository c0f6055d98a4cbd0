//! A value-type descriptor: a type that needs an opaque on-disk
//! representation, with its input and output function names.

use vstd::prelude::*;

verus! {

#[derive(Debug, Clone)]
pub struct InventoryPostgresType {
    pub name: String,
    pub file: String,
    pub line: u32,
    pub full_path: String,
    pub module_name: String,
    pub id: u64,
    pub option_id: u64,
    pub vec_id: u64,
    pub in_fn: String,
    pub out_fn: String,
}

} // verus!
