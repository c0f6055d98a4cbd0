//! Raw SQL fragments: hand-written SQL injected verbatim, with positioning
//! flags (bootstrap, finalize), the entities a fragment declares, and the
//! references it requires.

use vstd::prelude::*;
use vstd::string::StringExecFns;
use crate::declared_entity::{InventorySqlDeclaredEntity, SqlDeclaredEntity};
use crate::strutil::{join_strings, push_u64, spec_dec, spec_join};

verus! {

/// A minimal raw fragment: literal SQL plus its source location.
#[derive(Debug, Clone)]
pub struct ExtensionSql {
    pub sql: String,
    pub file: String,
    pub line: u32,
}

/// A dependency reference a fragment carries: the full path of a declaration
/// or a bare name.
#[derive(Debug, Clone, PartialEq, Eq)]
pub enum InventoryPositioningRef {
    FullPath(String),
    Name(String),
}

impl InventoryPositioningRef {
    /// The referenced path or name.
    pub open spec fn spec_describe(self) -> Seq<char> {
        match self {
            InventoryPositioningRef::FullPath(p) => p@,
            InventoryPositioningRef::Name(n) => n@,
        }
    }

    pub fn describe(&self) -> (r: String)
        ensures
            r@ == self.spec_describe(),
    {
        match self {
            InventoryPositioningRef::FullPath(p) => p.clone(),
            InventoryPositioningRef::Name(n) => n.clone(),
        }
    }
}

/// A positioned raw fragment with everything it declares and requires.
#[derive(Debug, Clone)]
pub struct InventoryExtensionSql {
    pub module_name: String,
    pub full_path: String,
    pub sql: String,
    pub file: String,
    pub line: u32,
    pub name: String,
    pub bootstrap: bool,
    pub finalize: bool,
    pub requires: Vec<InventoryPositioningRef>,
    pub creates: Vec<InventorySqlDeclaredEntity>,
}

/// The listing comment over a fragment's declared entities.
pub open spec fn spec_creates_piece(e: InventoryExtensionSql) -> Seq<char> {
    if e.creates@.len() > 0 {
        "-- creates:\n"@ + spec_join(
            Seq::new(e.creates@.len(), |i: int| "--   "@ + e.creates@[i].spec_describe()),
            "\n"@,
        ) + "\n\n"@
    } else {
        Seq::empty()
    }
}

/// The listing comment over a fragment's dependency references.
pub open spec fn spec_requires_piece(e: InventoryExtensionSql) -> Seq<char> {
    if e.requires@.len() > 0 {
        "-- requires:\n"@ + spec_join(
            Seq::new(e.requires@.len(), |i: int| "--   "@ + e.requires@[i].spec_describe()),
            "\n"@,
        ) + "\n\n"@
    } else {
        Seq::empty()
    }
}

/// The full rendering of one fragment: source location comment, bootstrap
/// marker, declared-entity listing, dependency listing, finalize marker,
/// then the literal SQL.
pub open spec fn spec_fragment_sql(e: InventoryExtensionSql) -> Seq<char> {
    "\n-- "@ + e.file@ + ":"@ + spec_dec(e.line as int) + "\n"@ + (if e.bootstrap {
        "-- bootstrap\n"@
    } else {
        Seq::empty()
    }) + spec_creates_piece(e) + spec_requires_piece(e) + (if e.finalize {
        "-- finalize\n"@
    } else {
        Seq::empty()
    }) + e.sql@
}

impl InventoryExtensionSql {
    /// An identifier preceded by `sql `, for graph labels.
    pub fn dot_identifier(&self) -> (r: String)
        ensures
            r@ == "sql "@ + self.name@,
    {
        let mut b = "sql ".to_owned();
        b.append(self.name.as_str());
        b
    }

    /// The fragment's declared name.
    pub fn rust_identifier(&self) -> (r: String)
        ensures
            r@ == self.name@,
    {
        self.name.clone()
    }

    /// The source file the fragment came from.
    pub fn file(&self) -> (r: Option<&str>)
        ensures
            r matches Some(f) && f@ == self.file@,
    {
        Some(self.file.as_str())
    }

    /// The source line the fragment came from.
    pub fn line(&self) -> (r: Option<u32>)
        ensures
            r == Some(self.line),
    {
        Some(self.line)
    }

    /// The first declared entity of this fragment that `identifier` names,
    /// in declaration order.
    pub fn has_sql_declared_entity(&self, identifier: &SqlDeclaredEntity) -> (r: Option<
        &InventorySqlDeclaredEntity,
    >)
        ensures
            match r {
                Some(d) => exists|i: int|
                    0 <= i < self.creates@.len() && (#[trigger] self.creates@[i]).spec_matches(
                        *identifier,
                    ) && *d == self.creates@[i] && (forall|j: int|
                        0 <= j < i ==> !(#[trigger] self.creates@[j]).spec_matches(*identifier)),
                None => forall|i: int|
                    0 <= i < self.creates@.len() ==> !(#[trigger] self.creates@[i]).spec_matches(
                        *identifier,
                    ),
            },
    {
        let mut i: usize = 0;
        while i < self.creates.len()
            invariant
                i <= self.creates@.len(),
                forall|j: int|
                    0 <= j < i ==> !(#[trigger] self.creates@[j]).spec_matches(*identifier),
            decreases self.creates@.len() - i,
        {
            if self.creates[i].has_sql_declared_entity(identifier) {
                return Some(&self.creates[i]);
            }
            i += 1;
        }
        None
    }

    /// Renders the fragment, exactly as `spec_fragment_sql` lays it out.
    pub fn to_sql(&self) -> (r: String)
        ensures
            r@ == spec_fragment_sql(*self),
    {
        let mut buf = "\n-- ".to_owned();
        buf.append(self.file.as_str());
        buf.append(":");
        push_u64(&mut buf, self.line as u64);
        buf.append("\n");
        if self.bootstrap {
            buf.append("-- bootstrap\n");
        }
        if self.creates.len() > 0 {
            buf.append("-- creates:\n");
            let mut parts: Vec<String> = Vec::new();
            let mut i: usize = 0;
            while i < self.creates.len()
                invariant
                    i <= self.creates@.len(),
                    parts@.len() == i,
                    forall|j: int|
                        0 <= j < i ==> (#[trigger] parts@[j])@ == "--   "@
                            + self.creates@[j].spec_describe(),
                decreases self.creates@.len() - i,
            {
                let d = self.creates[i].describe();
                let mut p = "--   ".to_owned();
                p.append(d.as_str());
                parts.push(p);
                i += 1;
            }
            let joined = join_strings(&parts, "\n");
            proof {
                assert(parts@.map_values(|p: String| p@) =~= Seq::new(
                    self.creates@.len(),
                    |j: int| "--   "@ + self.creates@[j].spec_describe(),
                ));
            }
            buf.append(joined.as_str());
            buf.append("\n\n");
        }
        if self.requires.len() > 0 {
            buf.append("-- requires:\n");
            let mut parts: Vec<String> = Vec::new();
            let mut i: usize = 0;
            while i < self.requires.len()
                invariant
                    i <= self.requires@.len(),
                    parts@.len() == i,
                    forall|j: int|
                        0 <= j < i ==> (#[trigger] parts@[j])@ == "--   "@
                            + self.requires@[j].spec_describe(),
                decreases self.requires@.len() - i,
            {
                let d = self.requires[i].describe();
                let mut p = "--   ".to_owned();
                p.append(d.as_str());
                parts.push(p);
                i += 1;
            }
            let joined = join_strings(&parts, "\n");
            proof {
                assert(parts@.map_values(|p: String| p@) =~= Seq::new(
                    self.requires@.len(),
                    |j: int| "--   "@ + self.requires@[j].spec_describe(),
                ));
            }
            buf.append(joined.as_str());
            buf.append("\n\n");
        }
        if self.finalize {
            buf.append("-- finalize\n");
        }
        buf.append(self.sql.as_str());
        proof {
            assert(buf@ =~= spec_fragment_sql(*self));
        }
        buf
    }
}

} // verus!
