//! A callable-function descriptor: its arguments, return shape, extern
//! attribute flags, optional search path, optional raw-SQL override and
//! optional operator metadata.

use vstd::prelude::*;
use vstd::string::StringExecFns;

verus! {

/// An attribute flag carried by a function declaration, rendered as the
/// corresponding SQL keyword.
#[derive(Debug, Clone, Copy, PartialEq, Eq, Structural)]
pub enum ExternArgs {
    Immutable,
    Strict,
    Stable,
    Volatile,
    ParallelSafe,
    ParallelUnsafe,
    ParallelRestricted,
}

/// The SQL keyword for an attribute flag.
pub open spec fn spec_attr_sql(a: ExternArgs) -> Seq<char> {
    match a {
        ExternArgs::Immutable => "IMMUTABLE"@,
        ExternArgs::Strict => "STRICT"@,
        ExternArgs::Stable => "STABLE"@,
        ExternArgs::Volatile => "VOLATILE"@,
        ExternArgs::ParallelSafe => "PARALLEL SAFE"@,
        ExternArgs::ParallelUnsafe => "PARALLEL UNSAFE"@,
        ExternArgs::ParallelRestricted => "PARALLEL RESTRICTED"@,
    }
}

impl ExternArgs {
    pub fn as_sql(&self) -> (r: String)
        ensures
            r@ == spec_attr_sql(*self),
    {
        match self {
            ExternArgs::Immutable => "IMMUTABLE".to_owned(),
            ExternArgs::Strict => "STRICT".to_owned(),
            ExternArgs::Stable => "STABLE".to_owned(),
            ExternArgs::Volatile => "VOLATILE".to_owned(),
            ExternArgs::ParallelSafe => "PARALLEL SAFE".to_owned(),
            ExternArgs::ParallelUnsafe => "PARALLEL UNSAFE".to_owned(),
            ExternArgs::ParallelRestricted => "PARALLEL RESTRICTED".to_owned(),
        }
    }
}

/// One declared argument: the binding pattern, the argument type's identity
/// key and display name, whether it is optional (nullable), and an optional
/// default literal.
#[derive(Debug, Clone)]
pub struct InventoryPgExternInput {
    pub pattern: String,
    pub ty_id: u64,
    pub ty_name: String,
    pub default: Option<String>,
    pub is_optional: bool,
}

/// The return shape of a declared function.
#[derive(Debug, Clone)]
pub enum InventoryPgExternReturn {
    /// No value: `RETURNS void`.
    Void,
    /// A single value of one type.
    Type { id: u64, name: String },
    /// A set of rows of one type: `RETURNS SETOF`.
    SetOf { id: u64, name: String },
    /// A set of rows of named columns: `RETURNS TABLE`. Each entry is the
    /// column type's identity key, its display name, and the column name,
    /// which every well-formed descriptor carries.
    Iterated(Vec<(u64, String, Option<String>)>),
}

/// Operator metadata attached to a two-argument function.
#[derive(Debug, Clone)]
pub struct InventoryPgOperator {
    pub opname: Option<String>,
    pub commutator: Option<String>,
    pub negator: Option<String>,
    pub restrict: Option<String>,
    pub join: Option<String>,
    pub hashes: bool,
    pub merges: bool,
}

#[derive(Debug, Clone)]
pub struct InventoryPgExtern {
    pub name: String,
    pub module_name: String,
    pub file: String,
    pub line: u32,
    pub full_path: String,
    pub fn_args: Vec<InventoryPgExternInput>,
    pub fn_return: InventoryPgExternReturn,
    pub extern_attrs: Vec<ExternArgs>,
    pub search_path: Option<Vec<String>>,
    pub overridden: Option<String>,
    pub operator: Option<InventoryPgOperator>,
}

impl InventoryPgExtern {
    /// A function descriptor is structurally legal when operator metadata
    /// comes with an operator name and at least the two arguments the
    /// operator statement references, and every named-column return entry
    /// carries a column name.
    pub open spec fn wf(self) -> bool {
        &&& (self.operator is Some ==> self.fn_args.len() >= 2
            && self.operator->Some_0.opname is Some)
        &&& (self.fn_return matches InventoryPgExternReturn::Iterated(cols) ==> forall|j: int|
            0 <= j < cols.len() ==> (#[trigger] cols[j].2) is Some)
    }

    /// Structural legality, decided at run time; true exactly when `wf`
    /// holds.
    pub fn check_wf(&self) -> (b: bool)
        ensures
            b == self.wf(),
    {
        let mut ok = true;
        if let Some(op) = &self.operator {
            if self.fn_args.len() < 2 || op.opname.is_none() {
                ok = false;
            }
        }
        if let InventoryPgExternReturn::Iterated(cols) = &self.fn_return {
            let mut j: usize = 0;
            let mut named = true;
            while j < cols.len()
                invariant
                    j <= cols@.len(),
                    named == (forall|k: int| 0 <= k < j ==> (#[trigger] cols@[k].2) is Some),
                decreases cols@.len() - j,
            {
                if cols[j].2.is_none() {
                    named = false;
                }
                j += 1;
            }
            if !named {
                ok = false;
            }
        }
        ok
    }
}

} // verus!
