//! The entity graph and its renderer: all collected descriptors, the
//! type-identity registry, schema-prefix resolution, and the staged emission
//! of the final data-definition script.

use vstd::prelude::*;
use vstd::string::StringExecFns;
use std::collections::HashMap;
use crate::control_file::ControlFile;
use crate::extension_sql::{spec_fragment_sql, InventoryExtensionSql};
use crate::pg_extern::{spec_attr_sql, ExternArgs, InventoryPgExtern, InventoryPgExternReturn, InventoryPgOperator};
use crate::pg_schema::InventorySchema;
use crate::postgres_enum::InventoryPostgresEnum;
use crate::postgres_hash::InventoryPostgresHash;
use crate::postgres_ord::InventoryPostgresOrd;
use crate::postgres_type::InventoryPostgresType;
use crate::strutil::{append_commented, join_strings, push_u64, spec_commented, spec_dec, spec_join, spec_starts_with, str_starts_with};

verus! {

broadcast use vstd::std_specs::hash::group_hash_axioms;

/// The aggregate of all collected descriptors plus the shared lookup state,
/// compiled into one output document.
#[derive(Debug)]
pub struct PgxSql {
    /// Caller-curated (file name, literal SQL) pairs, emitted first, in the
    /// caller's order.
    pub load_order: Vec<(String, String)>,
    /// Type identity key to database type name.
    pub type_mappings: HashMap<u64, String>,
    pub control: ControlFile,
    pub schemas: Vec<InventorySchema>,
    pub extension_sql: Vec<InventoryExtensionSql>,
    pub externs: Vec<InventoryPgExtern>,
    pub types: Vec<InventoryPostgresType>,
    pub enums: Vec<InventoryPostgresEnum>,
    pub ords: Vec<InventoryPostgresOrd>,
    pub hashes: Vec<InventoryPostgresHash>,
}

/// The registry as a mathematical map from identity key to type name.
pub open spec fn spec_mappings_of(m: Map<u64, String>) -> Map<u64, Seq<char>> {
    m.map_values(|s: String| s@)
}

pub proof fn lemma_mappings_insert(m: Map<u64, String>, k: u64, v: String)
    ensures
        spec_mappings_of(m.insert(k, v)) == spec_mappings_of(m).insert(k, v@),
{
    assert(spec_mappings_of(m.insert(k, v)) =~= spec_mappings_of(m).insert(k, v@));
}

/// Everything but the registry is unchanged between two graph values.
pub open spec fn spec_same_but_mappings(a: PgxSql, b: PgxSql) -> bool {
    &&& a.load_order@ == b.load_order@
    &&& a.control == b.control
    &&& a.schemas@ == b.schemas@
    &&& a.extension_sql@ == b.extension_sql@
    &&& a.externs@ == b.externs@
    &&& a.types@ == b.types@
    &&& a.enums@ == b.enums@
    &&& a.ords@ == b.ords@
    &&& a.hashes@ == b.hashes@
}

/// The registry after registering the first `i` enum descriptors: each
/// contributes its identity and optional identity under its name, and its
/// collection identity under the array-marked name.
pub open spec fn spec_register_enum_upto(
    m: Map<u64, Seq<char>>,
    es: Seq<InventoryPostgresEnum>,
    i: int,
) -> Map<u64, Seq<char>>
    decreases i,
{
    if i <= 0 {
        m
    } else {
        let e = es[i - 1];
        spec_register_enum_upto(m, es, i - 1).insert(e.id, e.name@).insert(
            e.option_id,
            e.name@,
        ).insert(e.vec_id, e.name@ + "[]"@)
    }
}

/// The registry after also registering the first `i` type descriptors.
pub open spec fn spec_register_type_upto(
    m: Map<u64, Seq<char>>,
    ts: Seq<InventoryPostgresType>,
    i: int,
) -> Map<u64, Seq<char>>
    decreases i,
{
    if i <= 0 {
        m
    } else {
        let t = ts[i - 1];
        spec_register_type_upto(m, ts, i - 1).insert(t.id, t.name@).insert(
            t.option_id,
            t.name@,
        ).insert(t.vec_id, t.name@ + "[]"@)
    }
}

/// The registry after the one-time registration pass over a graph.
pub open spec fn spec_registered(g: PgxSql) -> Map<u64, Seq<char>> {
    spec_register_type_upto(
        spec_register_enum_upto(g.spec_mappings(), g.enums@, g.enums@.len() as int),
        g.types@,
        g.types@.len() as int,
    )
}

/// One load-order entry, wrapped in start and end markers.
pub open spec fn spec_load_order_item(p: (String, String)) -> Seq<char> {
    "\n-- start of `sql/"@ + p.0@ + "`\n"@ + p.1@ + "-- end of `sql/"@ + p.0@ + "`\n"@
}

pub open spec fn spec_load_order_upto(g: PgxSql, i: int) -> Seq<char>
    decreases i,
{
    if i <= 0 {
        Seq::empty()
    } else {
        spec_load_order_upto(g, i - 1) + spec_load_order_item(g.load_order@[i - 1])
    }
}

/// Stage 1: the caller-supplied load order, verbatim, in order.
pub open spec fn spec_load_order_stage(g: PgxSql) -> Seq<char> {
    spec_load_order_upto(g, g.load_order@.len() as int)
}

pub open spec fn spec_extension_sql_upto(g: PgxSql, i: int) -> Seq<char>
    decreases i,
{
    if i <= 0 {
        Seq::empty()
    } else {
        spec_extension_sql_upto(g, i - 1) + spec_fragment_sql(g.extension_sql@[i - 1])
    }
}

/// Stage 2: the raw fragments, in collection order.
pub open spec fn spec_extension_sql_stage(g: PgxSql) -> Seq<char> {
    spec_extension_sql_upto(g, g.extension_sql@.len() as int)
}

/// The creation statement one schema descriptor contributes; the reserved
/// names `public` and `pg_catalog` contribute nothing.
pub open spec fn spec_schema_stmt(s: InventorySchema) -> Seq<char> {
    if s.name@ == "public"@ || s.name@ == "pg_catalog"@ {
        Seq::empty()
    } else {
        "CREATE SCHEMA IF NOT EXISTS "@ + s.name@ + "; /* "@ + s.module_name@ + " */\n"@
    }
}

/// The statement for the manifest's default schema, when one is set.
pub open spec fn spec_control_schema_stmt(g: PgxSql) -> Seq<char> {
    match g.control.schema {
        Some(s) => "CREATE SCHEMA IF NOT EXISTS "@ + s@ + ";\n"@,
        None => Seq::empty(),
    }
}

pub open spec fn spec_schemas_upto(g: PgxSql, i: int) -> Seq<char>
    decreases i,
{
    if i <= 0 {
        spec_control_schema_stmt(g)
    } else {
        spec_schemas_upto(g, i - 1) + spec_schema_stmt(g.schemas@[i - 1])
    }
}

/// Stage 3: the manifest default schema, then every non-reserved schema.
pub open spec fn spec_schemas_stage(g: PgxSql) -> Seq<char> {
    spec_schemas_upto(g, g.schemas@.len() as int)
}

pub open spec fn spec_enum_variants_upto(e: InventoryPostgresEnum, i: int) -> Seq<char>
    decreases i,
{
    if i <= 0 {
        Seq::empty()
    } else {
        spec_enum_variants_upto(e, i - 1) + ("\t'"@ + e.variants@[i - 1]@ + "',\n"@)
    }
}

/// Stage 4, one enum: an idempotent creation statement listing the variant
/// labels as quoted literals in declared order, annotated with the source
/// location and the underlying type identity.
pub open spec fn spec_enum_stmt(g: PgxSql, e: InventoryPostgresEnum) -> Seq<char> {
    "-- "@ + e.file@ + ":"@ + spec_dec(e.line as int) + "\n-- "@ + e.full_path@ + " - TypeId("@
        + spec_dec(e.id as int) + ")\nCREATE TYPE "@ + g.spec_schema_prefix_for(e.module_name@)
        + e.name@ + " AS ENUM (\n"@ + spec_enum_variants_upto(e, e.variants@.len() as int)
        + ");\n"@
}

pub open spec fn spec_enums_upto(g: PgxSql, i: int) -> Seq<char>
    decreases i,
{
    if i <= 0 {
        Seq::empty()
    } else {
        spec_enums_upto(g, i - 1) + spec_enum_stmt(g, g.enums@[i - 1])
    }
}

pub open spec fn spec_enums_stage(g: PgxSql) -> Seq<char> {
    spec_enums_upto(g, g.enums@.len() as int)
}

/// Stage 5, one type: the forward-declaring shell statement with no body.
pub open spec fn spec_shell_stmt(g: PgxSql, t: InventoryPostgresType) -> Seq<char> {
    "\n-- "@ + t.file@ + ":"@ + spec_dec(t.line as int) + "\n-- "@ + t.full_path@
        + "\nCREATE TYPE "@ + g.spec_schema_prefix_for(t.module_name@) + t.name@ + ";\n"@
}

pub open spec fn spec_shell_types_upto(g: PgxSql, i: int) -> Seq<char>
    decreases i,
{
    if i <= 0 {
        Seq::empty()
    } else {
        spec_shell_types_upto(g, i - 1) + spec_shell_stmt(g, g.types@[i - 1])
    }
}

pub open spec fn spec_shell_types_stage(g: PgxSql) -> Seq<char> {
    spec_shell_types_upto(g, g.types@.len() as int)
}

/// Stage 7, one type: the full definition, wired to its input and output
/// functions, with variable length and extended storage.
pub open spec fn spec_materialized_stmt(g: PgxSql, t: InventoryPostgresType) -> Seq<char> {
    "\n-- "@ + t.file@ + ":"@ + spec_dec(t.line as int) + "\n-- "@ + t.full_path@ + " - TypeId("@
        + spec_dec(t.id as int) + ")\nCREATE TYPE "@ + g.spec_schema_prefix_for(t.module_name@)
        + t.name@ + " (\n\tINTERNALLENGTH = variable,\n\tINPUT = "@ + t.in_fn@ + ",\n\tOUTPUT = "@
        + t.out_fn@ + ",\n\tSTORAGE = extended\n);\n"@
        + "                            "@
}

pub open spec fn spec_materialized_upto(g: PgxSql, i: int) -> Seq<char>
    decreases i,
{
    if i <= 0 {
        Seq::empty()
    } else {
        spec_materialized_upto(g, i - 1) + spec_materialized_stmt(g, g.types@[i - 1])
    }
}

pub open spec fn spec_materialized_stage(g: PgxSql) -> Seq<char> {
    spec_materialized_upto(g, g.types@.len() as int)
}

/// Stage 8, one hash class: a hash operator family and class wired to the
/// equality operator and the `_hash` function of the type.
pub open spec fn spec_hash_stmt(h: InventoryPostgresHash) -> Seq<char> {
    "\n-- "@ + h.file@ + ":"@ + spec_dec(h.line as int) + "\n-- "@ + h.full_path@ + "\n-- TypeId("@
        + spec_dec(h.id as int) + ")\nCREATE OPERATOR FAMILY "@ + h.name@
        + "_hash_ops USING hash;\nCREATE OPERATOR CLASS "@ + h.name@
        + "_hash_ops DEFAULT FOR TYPE "@ + h.name@ + " USING hash FAMILY "@ + h.name@
        + "_hash_ops AS\n\tOPERATOR    1   =  ("@ + h.name@ + ", "@ + h.name@
        + "),\n\tFUNCTION    1   "@ + h.name@ + "_hash("@ + h.name@ + ");"@
}

/// Stage 8, one ord class: a btree operator family and class with the five
/// comparison operators and the `_cmp` function of the type.
pub open spec fn spec_ord_stmt(o: InventoryPostgresOrd) -> Seq<char> {
    "\n-- "@ + o.file@ + ":"@ + spec_dec(o.line as int) + "\n-- "@ + o.full_path@ + "\n-- TypeId("@
        + spec_dec(o.id as int) + ")\nCREATE OPERATOR FAMILY "@ + o.name@
        + "_btree_ops USING btree;\nCREATE OPERATOR CLASS "@ + o.name@
        + "_btree_ops DEFAULT FOR TYPE "@ + o.name@ + " USING btree FAMILY "@ + o.name@
        + "_btree_ops AS\n\tOPERATOR 1 < ,\n\tOPERATOR 2 <= ,\n\tOPERATOR 3 = ,\n\tOPERATOR 4 >= ,\n\tOPERATOR 5 > ,\n\tFUNCTION 1 "@
        + o.name@ + "_cmp("@ + o.name@ + ", "@ + o.name@ + ");\n"@
}

pub open spec fn spec_hashes_upto(g: PgxSql, i: int) -> Seq<char>
    decreases i,
{
    if i <= 0 {
        Seq::empty()
    } else {
        spec_hashes_upto(g, i - 1) + spec_hash_stmt(g.hashes@[i - 1])
    }
}

pub open spec fn spec_ords_upto(g: PgxSql, i: int) -> Seq<char>
    decreases i,
{
    if i <= 0 {
        spec_hashes_upto(g, g.hashes@.len() as int)
    } else {
        spec_ords_upto(g, i - 1) + spec_ord_stmt(g.ords@[i - 1])
    }
}

/// Stage 8: every hash class, then every ord class.
pub open spec fn spec_operator_classes_stage(g: PgxSql) -> Seq<char> {
    spec_ords_upto(g, g.ords@.len() as int)
}

impl PgxSql {
    /// The registry as a mathematical map.
    pub open spec fn spec_mappings(self) -> Map<u64, Seq<char>> {
        spec_mappings_of(self.type_mappings@)
    }

    /// The name the registry gives `id`, or `fallback` when the registry
    /// has no entry: resolution gaps are never fatal.
    pub open spec fn spec_resolve(self, id: u64, fallback: Seq<char>) -> Seq<char> {
        if self.spec_mappings().contains_key(id) {
            self.spec_mappings()[id]
        } else {
            fallback
        }
    }

    /// The name of the first schema whose module the path lies under, by
    /// prefix match in descriptor order.
    pub open spec fn spec_schema_alias_of(self, module_name: Seq<char>) -> Option<Seq<char>> {
        spec_alias_from(self.schemas@, module_name, 0)
    }

    /// The schema alias, else the manifest default schema, formatted as
    /// `name.`, or empty when neither exists.
    pub open spec fn spec_schema_prefix_for(self, module_name: Seq<char>) -> Seq<char> {
        match self.spec_schema_alias_of(module_name) {
            Some(n) => n + "."@,
            None => match self.control.schema {
                Some(s) => s@ + "."@,
                None => Seq::empty(),
            },
        }
    }

    /// Every function descriptor is structurally legal.
    pub open spec fn wf(self) -> bool {
        forall|i: int| 0 <= i < self.externs@.len() ==> (#[trigger] self.externs@[i]).wf()
    }

    /// The position of the first structurally illegal function descriptor,
    /// in collection order, or nothing when the graph is well formed. A
    /// caller surfacing a structural input error names the offending
    /// descriptor through this index.
    pub fn first_structural_error(&self) -> (r: Option<usize>)
        ensures
            match r {
                Some(i) => i < self.externs@.len() && !self.externs@[i as int].wf() && (forall|
                    j: int,
                |
                    0 <= j < i ==> (#[trigger] self.externs@[j]).wf()),
                None => self.wf(),
            },
    {
        let mut i: usize = 0;
        while i < self.externs.len()
            invariant
                i <= self.externs@.len(),
                forall|j: int| 0 <= j < i ==> (#[trigger] self.externs@[j]).wf(),
            decreases self.externs@.len() - i,
        {
            if !self.externs[i].check_wf() {
                return Some(i);
            }
            i += 1;
        }
        None
    }

    /// Decides structural legality at run time; true exactly when `wf`
    /// holds. Callers test this before rendering: a graph that fails it
    /// carries a structural input error.
    pub fn check_structure(&self) -> (b: bool)
        ensures
            b == self.wf(),
    {
        match self.first_structural_error() {
            Some(i) => {
                proof {
                    assert(!self.externs@[i as int].wf());
                }
                false
            },
            None => true,
        }
    }

    /// Looks `id` up in the registry.
    pub fn type_id_to_sql_type(&self, id: u64) -> (r: Option<String>)
        ensures
            match r {
                Some(s) => self.spec_mappings().contains_key(id) && s@ == self.spec_mappings()[id],
                None => !self.spec_mappings().contains_key(id),
            },
    {
        match self.type_mappings.get(&id) {
            Some(s) => Some(s.clone()),
            None => None,
        }
    }

    /// Looks `id` up and falls back to the given display name.
    fn resolve_or(&self, id: u64, fallback: &str) -> (r: String)
        ensures
            r@ == self.spec_resolve(id, fallback@),
    {
        match self.type_mappings.get(&id) {
            Some(s) => s.clone(),
            None => fallback.to_owned(),
        }
    }

    /// Inserts a single mapping, without deriving variants.
    pub fn map_type_id_to_sql_type(&mut self, id: u64, sql: String)
        ensures
            final(self).type_mappings@ == old(self).type_mappings@.insert(id, sql),
            spec_same_but_mappings(*old(self), *final(self)),
    {
        self.type_mappings.insert(id, sql);
    }

    /// Registers a base mapping together with its derived optional and
    /// collection mappings: three entries, the collection one under the
    /// array-marked name.
    pub fn map_type_to_sql_type(&mut self, id: u64, option_id: u64, vec_id: u64, sql: &str)
        ensures
            spec_same_but_mappings(*old(self), *final(self)),
            final(self).spec_mappings() == old(self).spec_mappings().insert(id, sql@).insert(
                option_id,
                sql@,
            ).insert(vec_id, sql@ + "[]"@),
    {
        let ghost m0 = self.type_mappings@;
        let base = sql.to_owned();
        let opt = sql.to_owned();
        let mut arr = sql.to_owned();
        arr.append("[]");
        self.type_mappings.insert(id, base);
        self.type_mappings.insert(option_id, opt);
        self.type_mappings.insert(vec_id, arr);
        proof {
            lemma_mappings_insert(m0, id, base);
            lemma_mappings_insert(m0.insert(id, base), option_id, opt);
            lemma_mappings_insert(m0.insert(id, base).insert(option_id, opt), vec_id, arr);
        }
    }

    /// The one-time registration pass: every enum, then every type,
    /// registers its identity and optional identity under its name and its
    /// collection identity under the array-marked name.
    pub fn register_types(&mut self)
        ensures
            spec_same_but_mappings(*old(self), *final(self)),
            final(self).spec_mappings() == spec_registered(*old(self)),
    {
        let ghost g0 = *self;
        let mut i: usize = 0;
        while i < self.enums.len()
            invariant
                i <= self.enums@.len(),
                spec_same_but_mappings(g0, *self),
                self.spec_mappings() == spec_register_enum_upto(
                    g0.spec_mappings(),
                    g0.enums@,
                    i as int,
                ),
            decreases self.enums@.len() - i,
        {
            let ghost m0 = self.type_mappings@;
            let id = self.enums[i].id;
            let option_id = self.enums[i].option_id;
            let vec_id = self.enums[i].vec_id;
            let name = self.enums[i].name.clone();
            let name_opt = self.enums[i].name.clone();
            let mut arr = self.enums[i].name.clone();
            arr.append("[]");
            self.map_type_id_to_sql_type(id, name);
            self.map_type_id_to_sql_type(option_id, name_opt);
            self.map_type_id_to_sql_type(vec_id, arr);
            proof {
                lemma_mappings_insert(m0, id, name);
                lemma_mappings_insert(m0.insert(id, name), option_id, name_opt);
                lemma_mappings_insert(m0.insert(id, name).insert(option_id, name_opt), vec_id, arr);
            }
            i += 1;
        }
        let mut j: usize = 0;
        while j < self.types.len()
            invariant
                j <= self.types@.len(),
                spec_same_but_mappings(g0, *self),
                self.spec_mappings() == spec_register_type_upto(
                    spec_register_enum_upto(
                        g0.spec_mappings(),
                        g0.enums@,
                        g0.enums@.len() as int,
                    ),
                    g0.types@,
                    j as int,
                ),
            decreases self.types@.len() - j,
        {
            let ghost m0 = self.type_mappings@;
            let id = self.types[j].id;
            let option_id = self.types[j].option_id;
            let vec_id = self.types[j].vec_id;
            let name = self.types[j].name.clone();
            let name_opt = self.types[j].name.clone();
            let mut arr = self.types[j].name.clone();
            arr.append("[]");
            self.map_type_id_to_sql_type(id, name);
            self.map_type_id_to_sql_type(option_id, name_opt);
            self.map_type_id_to_sql_type(vec_id, arr);
            proof {
                lemma_mappings_insert(m0, id, name);
                lemma_mappings_insert(m0.insert(id, name), option_id, name_opt);
                lemma_mappings_insert(m0.insert(id, name).insert(option_id, name_opt), vec_id, arr);
            }
            j += 1;
        }
    }

    /// The first schema whose module the path lies under, in descriptor
    /// order; first match wins.
    pub fn schema_alias_of(&self, module_name: &str) -> (r: Option<String>)
        ensures
            match r {
                Some(s) => self.spec_schema_alias_of(module_name@) == Some(s@),
                None => self.spec_schema_alias_of(module_name@) is None,
            },
    {
        let mut i: usize = 0;
        while i < self.schemas.len()
            invariant
                i <= self.schemas@.len(),
                spec_alias_from(self.schemas@, module_name@, 0) == spec_alias_from(
                    self.schemas@,
                    module_name@,
                    i as int,
                ),
            decreases self.schemas@.len() - i,
        {
            if str_starts_with(module_name, self.schemas[i].module_name.as_str()) {
                return Some(self.schemas[i].name.clone());
            }
            i += 1;
        }
        None
    }

    /// The schema alias, else the manifest default schema, as a `name.`
    /// prefix; empty when neither exists.
    pub fn schema_prefix_for(&self, module_name: &str) -> (r: String)
        ensures
            r@ == self.spec_schema_prefix_for(module_name@),
    {
        match self.schema_alias_of(module_name) {
            Some(mut n) => {
                n.append(".");
                n
            },
            None => match &self.control.schema {
                Some(s) => {
                    let mut b = s.clone();
                    b.append(".");
                    b
                },
                None => String::new(),
            },
        }
    }

    /// Stage 1: the caller-supplied load order, each entry wrapped in
    /// start and end markers.
    pub fn load_order_items(&self) -> (r: String)
        ensures
            r@ == spec_load_order_stage(*self),
    {
        let mut buf = String::new();
        let mut i: usize = 0;
        while i < self.load_order.len()
            invariant
                i <= self.load_order@.len(),
                buf@ == spec_load_order_upto(*self, i as int),
            decreases self.load_order@.len() - i,
        {
            buf.append("\n-- start of `sql/");
            buf.append(self.load_order[i].0.as_str());
            buf.append("`\n");
            buf.append(self.load_order[i].1.as_str());
            buf.append("-- end of `sql/");
            buf.append(self.load_order[i].0.as_str());
            buf.append("`\n");
            proof {
                assert(buf@ =~= spec_load_order_upto(*self, i as int + 1));
            }
            i += 1;
        }
        buf
    }

    /// Stage 2: every raw fragment, rendered in collection order.
    pub fn extension_sql(&self) -> (r: String)
        ensures
            r@ == spec_extension_sql_stage(*self),
    {
        let mut buf = String::new();
        let mut i: usize = 0;
        while i < self.extension_sql.len()
            invariant
                i <= self.extension_sql@.len(),
                buf@ == spec_extension_sql_upto(*self, i as int),
            decreases self.extension_sql@.len() - i,
        {
            let item = self.extension_sql[i].to_sql();
            buf.append(item.as_str());
            i += 1;
        }
        buf
    }

    /// Stage 3: the manifest default schema, then every schema descriptor
    /// except the reserved `public` and `pg_catalog`.
    pub fn schemas(&self) -> (r: String)
        ensures
            r@ == spec_schemas_stage(*self),
    {
        let mut buf = String::new();
        if let Some(schema) = &self.control.schema {
            buf.append("CREATE SCHEMA IF NOT EXISTS ");
            buf.append(schema.as_str());
            buf.append(";\n");
        }
        proof {
            assert(buf@ =~= spec_schemas_upto(*self, 0));
        }
        let mut i: usize = 0;
        while i < self.schemas.len()
            invariant
                i <= self.schemas@.len(),
                buf@ == spec_schemas_upto(*self, i as int),
            decreases self.schemas@.len() - i,
        {
            let name = &self.schemas[i].name;
            if !(crate::strutil::str_eq(name.as_str(), "pg_catalog") || crate::strutil::str_eq(
                name.as_str(),
                "public",
            )) {
                buf.append("CREATE SCHEMA IF NOT EXISTS ");
                buf.append(name.as_str());
                buf.append("; /* ");
                buf.append(self.schemas[i].module_name.as_str());
                buf.append(" */\n");
            }
            proof {
                assert(buf@ =~= spec_schemas_upto(*self, i as int + 1));
            }
            i += 1;
        }
        buf
    }

    /// Stage 4: every enum's creation statement, variants in declared
    /// order.
    pub fn enums(&self) -> (r: String)
        ensures
            r@ == spec_enums_stage(*self),
    {
        let mut buf = String::new();
        let mut i: usize = 0;
        while i < self.enums.len()
            invariant
                i <= self.enums@.len(),
                buf@ == spec_enums_upto(*self, i as int),
            decreases self.enums@.len() - i,
        {
            let item = self.enum_stmt(&self.enums[i]);
            buf.append(item.as_str());
            i += 1;
        }
        buf
    }

    fn enum_stmt(&self, e: &InventoryPostgresEnum) -> (r: String)
        ensures
            r@ == spec_enum_stmt(*self, *e),
    {
        let mut buf = "-- ".to_owned();
        buf.append(e.file.as_str());
        buf.append(":");
        push_u64(&mut buf, e.line as u64);
        buf.append("\n-- ");
        buf.append(e.full_path.as_str());
        buf.append(" - TypeId(");
        push_u64(&mut buf, e.id);
        buf.append(")\nCREATE TYPE ");
        let prefix = self.schema_prefix_for(e.module_name.as_str());
        buf.append(prefix.as_str());
        buf.append(e.name.as_str());
        buf.append(" AS ENUM (\n");
        let mut j: usize = 0;
        let mut variants = String::new();
        while j < e.variants.len()
            invariant
                j <= e.variants@.len(),
                variants@ == spec_enum_variants_upto(*e, j as int),
            decreases e.variants@.len() - j,
        {
            variants.append("\t'");
            variants.append(e.variants[j].as_str());
            variants.append("',\n");
            proof {
                assert(variants@ =~= spec_enum_variants_upto(*e, j as int + 1));
            }
            j += 1;
        }
        buf.append(variants.as_str());
        buf.append(");\n");
        proof {
            assert(buf@ =~= spec_enum_stmt(*self, *e));
        }
        buf
    }

    /// Stage 5: a bodyless shell statement for every type, so later
    /// function signatures may already reference it.
    pub fn shell_types(&self) -> (r: String)
        ensures
            r@ == spec_shell_types_stage(*self),
    {
        let mut buf = String::new();
        let mut i: usize = 0;
        while i < self.types.len()
            invariant
                i <= self.types@.len(),
                buf@ == spec_shell_types_upto(*self, i as int),
            decreases self.types@.len() - i,
        {
            let t = &self.types[i];
            buf.append("\n-- ");
            buf.append(t.file.as_str());
            buf.append(":");
            push_u64(&mut buf, t.line as u64);
            buf.append("\n-- ");
            buf.append(t.full_path.as_str());
            buf.append("\nCREATE TYPE ");
            let prefix = self.schema_prefix_for(t.module_name.as_str());
            buf.append(prefix.as_str());
            buf.append(t.name.as_str());
            buf.append(";\n");
            proof {
                assert(buf@ =~= spec_shell_types_upto(*self, i as int + 1));
            }
            i += 1;
        }
        buf
    }

    /// Stage 7: the full definition of every type.
    pub fn materialized_types(&self) -> (r: String)
        ensures
            r@ == spec_materialized_stage(*self),
    {
        let mut buf = String::new();
        let mut i: usize = 0;
        while i < self.types.len()
            invariant
                i <= self.types@.len(),
                buf@ == spec_materialized_upto(*self, i as int),
            decreases self.types@.len() - i,
        {
            let item = self.materialized_stmt(&self.types[i]);
            buf.append(item.as_str());
            i += 1;
        }
        buf
    }

    fn materialized_stmt(&self, t: &InventoryPostgresType) -> (r: String)
        ensures
            r@ == spec_materialized_stmt(*self, *t),
    {
        let mut buf = "\n-- ".to_owned();
        buf.append(t.file.as_str());
        buf.append(":");
        push_u64(&mut buf, t.line as u64);
        buf.append("\n-- ");
        buf.append(t.full_path.as_str());
        buf.append(" - TypeId(");
        push_u64(&mut buf, t.id);
        buf.append(")\nCREATE TYPE ");
        let prefix = self.schema_prefix_for(t.module_name.as_str());
        buf.append(prefix.as_str());
        buf.append(t.name.as_str());
        buf.append(" (\n\tINTERNALLENGTH = variable,\n\tINPUT = ");
        buf.append(t.in_fn.as_str());
        buf.append(",\n\tOUTPUT = ");
        buf.append(t.out_fn.as_str());
        buf.append(",\n\tSTORAGE = extended\n);\n");
        buf.append("                            ");
        proof {
            assert(buf@ =~= spec_materialized_stmt(*self, *t));
        }
        buf
    }

    /// Stage 8: a hash operator class for every hash descriptor, then a
    /// btree operator class for every ord descriptor.
    pub fn operator_classes(&self) -> (r: String)
        ensures
            r@ == spec_operator_classes_stage(*self),
    {
        let mut buf = String::new();
        let mut i: usize = 0;
        while i < self.hashes.len()
            invariant
                i <= self.hashes@.len(),
                buf@ == spec_hashes_upto(*self, i as int),
            decreases self.hashes@.len() - i,
        {
            let item = hash_stmt(&self.hashes[i]);
            buf.append(item.as_str());
            i += 1;
        }
        let mut j: usize = 0;
        while j < self.ords.len()
            invariant
                j <= self.ords@.len(),
                buf@ == spec_ords_upto(*self, j as int),
            decreases self.ords@.len() - j,
        {
            let item = ord_stmt(&self.ords[j]);
            buf.append(item.as_str());
            j += 1;
        }
        buf
    }
}

fn hash_stmt(h: &InventoryPostgresHash) -> (r: String)
    ensures
        r@ == spec_hash_stmt(*h),
{
    let mut buf = "\n-- ".to_owned();
    buf.append(h.file.as_str());
    buf.append(":");
    push_u64(&mut buf, h.line as u64);
    buf.append("\n-- ");
    buf.append(h.full_path.as_str());
    buf.append("\n-- TypeId(");
    push_u64(&mut buf, h.id);
    buf.append(")\nCREATE OPERATOR FAMILY ");
    buf.append(h.name.as_str());
    buf.append("_hash_ops USING hash;\nCREATE OPERATOR CLASS ");
    buf.append(h.name.as_str());
    buf.append("_hash_ops DEFAULT FOR TYPE ");
    buf.append(h.name.as_str());
    buf.append(" USING hash FAMILY ");
    buf.append(h.name.as_str());
    buf.append("_hash_ops AS\n\tOPERATOR    1   =  (");
    buf.append(h.name.as_str());
    buf.append(", ");
    buf.append(h.name.as_str());
    buf.append("),\n\tFUNCTION    1   ");
    buf.append(h.name.as_str());
    buf.append("_hash(");
    buf.append(h.name.as_str());
    buf.append(");");
    proof {
        assert(buf@ =~= spec_hash_stmt(*h));
    }
    buf
}

fn ord_stmt(o: &InventoryPostgresOrd) -> (r: String)
    ensures
        r@ == spec_ord_stmt(*o),
{
    let mut buf = "\n-- ".to_owned();
    buf.append(o.file.as_str());
    buf.append(":");
    push_u64(&mut buf, o.line as u64);
    buf.append("\n-- ");
    buf.append(o.full_path.as_str());
    buf.append("\n-- TypeId(");
    push_u64(&mut buf, o.id);
    buf.append(")\nCREATE OPERATOR FAMILY ");
    buf.append(o.name.as_str());
    buf.append("_btree_ops USING btree;\nCREATE OPERATOR CLASS ");
    buf.append(o.name.as_str());
    buf.append("_btree_ops DEFAULT FOR TYPE ");
    buf.append(o.name.as_str());
    buf.append(" USING btree FAMILY ");
    buf.append(o.name.as_str());
    buf.append(
        "_btree_ops AS\n\tOPERATOR 1 < ,\n\tOPERATOR 2 <= ,\n\tOPERATOR 3 = ,\n\tOPERATOR 4 >= ,\n\tOPERATOR 5 > ,\n\tFUNCTION 1 ",
    );
    buf.append(o.name.as_str());
    buf.append("_cmp(");
    buf.append(o.name.as_str());
    buf.append(", ");
    buf.append(o.name.as_str());
    buf.append(");\n");
    proof {
        assert(buf@ =~= spec_ord_stmt(*o));
    }
    buf
}

/// The function's explicit attribute flags include STRICT.
pub open spec fn spec_has_strict(e: InventoryPgExtern) -> bool {
    exists|i: int| 0 <= i < e.extern_attrs@.len() && e.extern_attrs@[i] == ExternArgs::Strict
}

/// Some argument of the function is optional (nullable).
pub open spec fn spec_any_optional(e: InventoryPgExtern) -> bool {
    exists|i: int| 0 <= i < e.fn_args@.len() && (#[trigger] e.fn_args@[i]).is_optional
}

/// The attribute flags the rendering uses: the declared flags, with STRICT
/// appended exactly when no flag already says so and no argument is
/// optional — a function with no nullable argument cannot meaningfully
/// take a null.
pub open spec fn spec_effective_attrs(e: InventoryPgExtern) -> Seq<ExternArgs> {
    if !spec_has_strict(e) && !spec_any_optional(e) {
        e.extern_attrs@.push(ExternArgs::Strict)
    } else {
        e.extern_attrs@
    }
}

/// The attribute words, space-separated and newline-terminated; empty when
/// there is no flag.
pub open spec fn spec_attrs_piece(e: InventoryPgExtern) -> Seq<char> {
    let eff = spec_effective_attrs(e);
    if eff.len() == 0 {
        Seq::empty()
    } else {
        spec_join(eff.map_values(|a: ExternArgs| spec_attr_sql(a)), " "@) + "\n"@
    }
}

/// One rendered argument: quoted pattern, resolved or fallback type name,
/// optional default, a comma on all but the last, and the display name as
/// a trailing comment.
pub open spec fn spec_arg_sql(g: PgxSql, e: InventoryPgExtern, i: int) -> Seq<char> {
    let a = e.fn_args@[i];
    "\t\""@ + a.pattern@ + "\" "@ + g.spec_resolve(a.ty_id, a.ty_name@) + " "@ + (match a.default {
        Some(d) => "DEFAULT "@ + d@ + " "@,
        None => Seq::empty(),
    }) + (if i + 1 < e.fn_args@.len() {
        ","@
    } else {
        Seq::empty()
    }) + "/* "@ + a.ty_name@ + " */"@
}

/// The argument list between the parentheses: empty, or one line per
/// argument in declared order.
pub open spec fn spec_args_piece(g: PgxSql, e: InventoryPgExtern) -> Seq<char> {
    if e.fn_args@.len() == 0 {
        Seq::empty()
    } else {
        "\n"@ + spec_join(Seq::new(e.fn_args@.len(), |i: int| spec_arg_sql(g, e, i)), "\n"@)
            + "\n"@
    }
}

/// One rendered named column of a table-shaped return.
pub open spec fn spec_col_sql(g: PgxSql, c: (u64, String, Option<String>)) -> Seq<char> {
    "\n\t\""@ + (match c.2 {
        Some(n) => n@,
        None => Seq::empty(),
    }) + "\" "@ + g.spec_resolve(c.0, c.1@) + " /* "@ + c.1@ + " */"@
}

/// The return clause, by return shape.
pub open spec fn spec_returns_piece(g: PgxSql, e: InventoryPgExtern) -> Seq<char> {
    match e.fn_return {
        InventoryPgExternReturn::Void => "RETURNS void"@,
        InventoryPgExternReturn::Type { id, name } => "RETURNS "@ + g.spec_resolve(id, name@)
            + " /* "@ + name@ + " */"@,
        InventoryPgExternReturn::SetOf { id, name } => "RETURNS SETOF "@ + g.spec_resolve(
            id,
            name@,
        ) + " /* "@ + name@ + " */"@,
        InventoryPgExternReturn::Iterated(cols) => "RETURNS TABLE ("@ + spec_join(
            Seq::new(cols@.len(), |i: int| spec_col_sql(g, cols@[i])),
            ","@,
        ) + "\n)"@,
    }
}

/// The optional search-path clause.
pub open spec fn spec_search_path_piece(e: InventoryPgExtern) -> Seq<char> {
    match e.search_path {
        Some(sp) => "SET search_path TO "@ + spec_join(sp@.map_values(|s: String| s@), ", "@)
            + "\n"@,
        None => Seq::empty(),
    }
}

/// The generated creation statement for one function, ending in the fixed
/// call-convention clause that binds it to its compiled entry point.
pub open spec fn spec_fn_sql(g: PgxSql, e: InventoryPgExtern) -> Seq<char> {
    "CREATE OR REPLACE FUNCTION "@ + g.spec_schema_prefix_for(e.module_name@) + "\""@ + e.name@
        + "\"("@ + spec_args_piece(g, e) + ") "@ + spec_returns_piece(g, e) + "\n"@
        + spec_attrs_piece(e) + spec_search_path_piece(e)
        + "LANGUAGE c /* Rust */\nAS 'MODULE_PATHNAME', '"@ + e.name@ + "_wrapper';"@
}

/// One function's emission: location and path comments, then the generated
/// statement — commented out and followed by the override text when the
/// descriptor carries one.
pub open spec fn spec_ext_sql(g: PgxSql, e: InventoryPgExtern) -> Seq<char> {
    "\n-- "@ + e.file@ + ":"@ + spec_dec(e.line as int) + "\n-- "@ + e.module_name@ + "::"@
        + e.name@ + "\n"@ + (if e.overridden is Some {
        spec_commented(spec_fn_sql(g, e))
            + "\n--\n-- Overridden as (due to a `//` comment with a `sql` code block):"@
    } else {
        spec_fn_sql(g, e)
    }) + "\n"@ + (match e.overridden {
        Some(o) => o@ + "\n"@,
        None => Seq::empty(),
    })
}

/// Appends `pre + c` when the clause is present.
pub open spec fn spec_opt_push(
    s: Seq<Seq<char>>,
    o: Option<String>,
    pre: Seq<char>,
) -> Seq<Seq<char>> {
    match o {
        Some(c) => s.push(pre + c@),
        None => s,
    }
}

/// Appends the literal when the flag is set.
pub open spec fn spec_flag_push(s: Seq<Seq<char>>, b: bool, lit: Seq<char>) -> Seq<Seq<char>> {
    if b {
        s.push(lit)
    } else {
        s
    }
}

/// The optional operator clauses, in their fixed order, only those present.
pub open spec fn spec_operator_optionals(op: InventoryPgOperator) -> Seq<Seq<char>> {
    spec_flag_push(
        spec_flag_push(
            spec_opt_push(
                spec_opt_push(
                    spec_opt_push(
                        spec_opt_push(Seq::empty(), op.commutator, "\tCOMMUTATOR = "@),
                        op.negator,
                        "\tNEGATOR = "@,
                    ),
                    op.restrict,
                    "\tRESTRICT = "@,
                ),
                op.join,
                "\tJOIN = "@,
            ),
            op.hashes,
            "\tHASHES"@,
        ),
        op.merges,
        "\tMERGES"@,
    )
}

/// The operator statement for a two-argument function carrying operator
/// metadata.
pub open spec fn spec_operator_sql(g: PgxSql, e: InventoryPgExtern, op: InventoryPgOperator) -> Seq<
    char,
> {
    "\n-- "@ + e.file@ + ":"@ + spec_dec(e.line as int) + "\n-- "@ + e.module_name@ + "::"@
        + e.name@ + "\nCREATE OPERATOR "@ + (match op.opname {
        Some(n) => n@,
        None => Seq::empty(),
    }) + " (\n\tPROCEDURE=\""@ + e.name@ + "\",\n\tLEFTARG="@ + g.spec_resolve(
        e.fn_args@[0].ty_id,
        e.fn_args@[0].ty_name@,
    ) + ", /* "@ + e.fn_args@[0].ty_name@ + " */\n\tRIGHTARG="@ + g.spec_resolve(
        e.fn_args@[1].ty_id,
        e.fn_args@[1].ty_name@,
    ) + ", /* "@ + e.fn_args@[1].ty_name@ + " */\n"@ + spec_join(
        spec_operator_optionals(op),
        ",\n"@,
    ) + "\n"@ + ");\n                                    "@
}

/// Stage 6, one function: its emission, followed by its operator statement
/// when it carries operator metadata and is not textually overridden.
pub open spec fn spec_extern_stmt(g: PgxSql, e: InventoryPgExtern) -> Seq<char> {
    spec_ext_sql(g, e) + (if e.overridden is None && e.operator is Some {
        spec_operator_sql(g, e, e.operator->Some_0)
    } else {
        Seq::empty()
    })
}

pub open spec fn spec_externs_upto(g: PgxSql, i: int) -> Seq<char>
    decreases i,
{
    if i <= 0 {
        Seq::empty()
    } else {
        spec_externs_upto(g, i - 1) + spec_extern_stmt(g, g.externs@[i - 1])
    }
}

/// Stage 6: every function, in collection order.
pub open spec fn spec_externs_stage(g: PgxSql) -> Seq<char> {
    spec_externs_upto(g, g.externs@.len() as int)
}

/// The whole script: the eight stages in their fixed order, each under its
/// descriptive comment header.
pub open spec fn spec_to_sql(g: PgxSql) -> Seq<char> {
    "-- This file is auto generated by pgx.\n-- `./sql/load-order.txt` items.\n                "@
        + spec_load_order_stage(g) + "\n-- `extension_sql!()` defined SQL.\n"@
        + spec_extension_sql_stage(g)
        + "\n-- Schemas defined by `#[pg_schema] mod { /* ... */ }` blocks (except `public` & `pg_catalog`)\n"@
        + spec_schemas_stage(g) + "\n-- Enums derived via `#[derive(PostgresEnum)]`\n"@
        + spec_enums_stage(g)
        + "\n-- Shell types for types defined by `#[derive(PostgresType)]`\n"@
        + spec_shell_types_stage(g) + "\n-- Functions defined by `#[pg_extern]`\n"@
        + spec_externs_stage(g) + "\n-- Types defined by `#[derive(PostgresType)]`\n"@
        + spec_materialized_stage(g)
        + "\n-- Operator classes defined by `#[derive(PostgresHash, PostgresOrd)]`\n"@
        + spec_operator_classes_stage(g) + "\n"@
}

/// The first schema at or after position `i` whose module prefixes the
/// path.
pub open spec fn spec_alias_from(
    schemas: Seq<InventorySchema>,
    module_name: Seq<char>,
    i: int,
) -> Option<Seq<char>>
    decreases schemas.len() - i,
{
    if i < 0 || i >= schemas.len() {
        None
    } else if spec_starts_with(module_name, schemas[i].module_name@) {
        Some(schemas[i].name@)
    } else {
        spec_alias_from(schemas, module_name, i + 1)
    }
}

impl PgxSql {
    fn attrs_piece_of(e: &InventoryPgExtern) -> (r: String)
        ensures
            r@ == spec_attrs_piece(*e),
    {
        let mut has_strict = false;
        let mut i: usize = 0;
        while i < e.extern_attrs.len()
            invariant
                i <= e.extern_attrs@.len(),
                has_strict == exists|j: int|
                    0 <= j < i && e.extern_attrs@[j] == ExternArgs::Strict,
            decreases e.extern_attrs@.len() - i,
        {
            if e.extern_attrs[i] == ExternArgs::Strict {
                has_strict = true;
            }
            i += 1;
        }
        let mut any_optional = false;
        let mut k: usize = 0;
        while k < e.fn_args.len()
            invariant
                k <= e.fn_args@.len(),
                any_optional == exists|j: int|
                    0 <= j < k && (#[trigger] e.fn_args@[j]).is_optional,
            decreases e.fn_args@.len() - k,
        {
            if e.fn_args[k].is_optional {
                any_optional = true;
            }
            k += 1;
        }
        let mut parts: Vec<String> = Vec::new();
        let mut a: usize = 0;
        while a < e.extern_attrs.len()
            invariant
                a <= e.extern_attrs@.len(),
                parts@.len() == a,
                forall|j: int|
                    0 <= j < a ==> (#[trigger] parts@[j])@ == spec_attr_sql(e.extern_attrs@[j]),
            decreases e.extern_attrs@.len() - a,
        {
            parts.push(e.extern_attrs[a].as_sql());
            a += 1;
        }
        if !has_strict && !any_optional {
            parts.push(ExternArgs::Strict.as_sql());
        }
        proof {
            assert(parts@.map_values(|p: String| p@) =~= spec_effective_attrs(*e).map_values(
                |at: ExternArgs| spec_attr_sql(at),
            ));
        }
        if parts.len() == 0 {
            String::new()
        } else {
            let mut joined = join_strings(&parts, " ");
            joined.append("\n");
            joined
        }
    }

    fn search_piece_of(e: &InventoryPgExtern) -> (r: String)
        ensures
            r@ == spec_search_path_piece(*e),
    {
        match &e.search_path {
            Some(sp) => {
                let mut parts: Vec<String> = Vec::new();
                let mut i: usize = 0;
                while i < sp.len()
                    invariant
                        i <= sp@.len(),
                        parts@.len() == i,
                        forall|j: int| 0 <= j < i ==> (#[trigger] parts@[j])@ == sp@[j]@,
                    decreases sp@.len() - i,
                {
                    parts.push(sp[i].clone());
                    i += 1;
                }
                proof {
                    assert(parts@.map_values(|p: String| p@) =~= sp@.map_values(
                        |s: String| s@,
                    ));
                }
                let joined = join_strings(&parts, ", ");
                let mut buf = "SET search_path TO ".to_owned();
                buf.append(joined.as_str());
                buf.append("\n");
                buf
            },
            None => String::new(),
        }
    }

    fn returns_piece_of(&self, e: &InventoryPgExtern) -> (r: String)
        ensures
            r@ == spec_returns_piece(*self, *e),
    {
        match &e.fn_return {
            InventoryPgExternReturn::Void => "RETURNS void".to_owned(),
            InventoryPgExternReturn::Type { id, name } => {
                let mut buf = "RETURNS ".to_owned();
                let t = self.resolve_or(*id, name.as_str());
                buf.append(t.as_str());
                buf.append(" /* ");
                buf.append(name.as_str());
                buf.append(" */");
                buf
            },
            InventoryPgExternReturn::SetOf { id, name } => {
                let mut buf = "RETURNS SETOF ".to_owned();
                let t = self.resolve_or(*id, name.as_str());
                buf.append(t.as_str());
                buf.append(" /* ");
                buf.append(name.as_str());
                buf.append(" */");
                buf
            },
            InventoryPgExternReturn::Iterated(cols) => {
                let mut parts: Vec<String> = Vec::new();
                let mut i: usize = 0;
                while i < cols.len()
                    invariant
                        i <= cols@.len(),
                        parts@.len() == i,
                        forall|j: int|
                            0 <= j < i ==> (#[trigger] parts@[j])@ == spec_col_sql(
                                *self,
                                cols@[j],
                            ),
                    decreases cols@.len() - i,
                {
                    let mut p = "\n\t\"".to_owned();
                    match &cols[i].2 {
                        Some(n) => p.append(n.as_str()),
                        None => {},
                    }
                    p.append("\" ");
                    let t = self.resolve_or(cols[i].0, cols[i].1.as_str());
                    p.append(t.as_str());
                    p.append(" /* ");
                    p.append(cols[i].1.as_str());
                    p.append(" */");
                    proof {
                        assert(p@ =~= spec_col_sql(*self, cols@[i as int]));
                    }
                    parts.push(p);
                    i += 1;
                }
                proof {
                    assert(parts@.map_values(|p: String| p@) =~= Seq::new(
                        cols@.len(),
                        |j: int| spec_col_sql(*self, cols@[j]),
                    ));
                }
                let joined = join_strings(&parts, ",");
                let mut buf = "RETURNS TABLE (".to_owned();
                buf.append(joined.as_str());
                buf.append("\n)");
                buf
            },
        }
    }

    fn fn_sql_of(&self, e: &InventoryPgExtern) -> (r: String)
        ensures
            r@ == spec_fn_sql(*self, *e),
    {
        let mut buf = "CREATE OR REPLACE FUNCTION ".to_owned();
        let prefix = self.schema_prefix_for(e.module_name.as_str());
        buf.append(prefix.as_str());
        buf.append("\"");
        buf.append(e.name.as_str());
        buf.append("\"(");
        if e.fn_args.len() > 0 {
            buf.append("\n");
            let mut parts: Vec<String> = Vec::new();
            let mut i: usize = 0;
            while i < e.fn_args.len()
                invariant
                    i <= e.fn_args@.len(),
                    parts@.len() == i,
                    forall|j: int|
                        0 <= j < i ==> (#[trigger] parts@[j])@ == spec_arg_sql(*self, *e, j),
                decreases e.fn_args@.len() - i,
            {
                let arg = &e.fn_args[i];
                let mut p = "\t\"".to_owned();
                p.append(arg.pattern.as_str());
                p.append("\" ");
                let t = self.resolve_or(arg.ty_id, arg.ty_name.as_str());
                p.append(t.as_str());
                p.append(" ");
                match &arg.default {
                    Some(d) => {
                        p.append("DEFAULT ");
                        p.append(d.as_str());
                        p.append(" ");
                    },
                    None => {},
                }
                if i + 1 < e.fn_args.len() {
                    p.append(",");
                }
                p.append("/* ");
                p.append(arg.ty_name.as_str());
                p.append(" */");
                proof {
                    assert(p@ =~= spec_arg_sql(*self, *e, i as int));
                }
                parts.push(p);
                i += 1;
            }
            proof {
                assert(parts@.map_values(|p: String| p@) =~= Seq::new(
                    e.fn_args@.len(),
                    |j: int| spec_arg_sql(*self, *e, j),
                ));
            }
            let joined = join_strings(&parts, "\n");
            buf.append(joined.as_str());
            buf.append("\n");
        }
        buf.append(") ");
        let ret = self.returns_piece_of(e);
        buf.append(ret.as_str());
        buf.append("\n");
        let attrs = Self::attrs_piece_of(e);
        buf.append(attrs.as_str());
        let search = Self::search_piece_of(e);
        buf.append(search.as_str());
        buf.append("LANGUAGE c /* Rust */\nAS 'MODULE_PATHNAME', '");
        buf.append(e.name.as_str());
        buf.append("_wrapper';");
        proof {
            assert(buf@ =~= spec_fn_sql(*self, *e));
        }
        buf
    }

    fn operator_optionals(op: &InventoryPgOperator) -> (r: Vec<String>)
        ensures
            r@.map_values(|p: String| p@) == spec_operator_optionals(*op),
    {
        let mut parts: Vec<String> = Vec::new();
        if let Some(c) = &op.commutator {
            let mut p = "\tCOMMUTATOR = ".to_owned();
            p.append(c.as_str());
            parts.push(p);
        }
        proof {
            assert(parts@.map_values(|p: String| p@) =~= spec_opt_push(
                Seq::empty(),
                op.commutator,
                "\tCOMMUTATOR = "@,
            ));
        }
        let ghost s1 = spec_opt_push(Seq::empty(), op.commutator, "\tCOMMUTATOR = "@);
        if let Some(c) = &op.negator {
            let mut p = "\tNEGATOR = ".to_owned();
            p.append(c.as_str());
            parts.push(p);
        }
        proof {
            assert(parts@.map_values(|p: String| p@) =~= spec_opt_push(
                s1,
                op.negator,
                "\tNEGATOR = "@,
            ));
        }
        let ghost s2 = spec_opt_push(s1, op.negator, "\tNEGATOR = "@);
        if let Some(c) = &op.restrict {
            let mut p = "\tRESTRICT = ".to_owned();
            p.append(c.as_str());
            parts.push(p);
        }
        proof {
            assert(parts@.map_values(|p: String| p@) =~= spec_opt_push(
                s2,
                op.restrict,
                "\tRESTRICT = "@,
            ));
        }
        let ghost s3 = spec_opt_push(s2, op.restrict, "\tRESTRICT = "@);
        if let Some(c) = &op.join {
            let mut p = "\tJOIN = ".to_owned();
            p.append(c.as_str());
            parts.push(p);
        }
        proof {
            assert(parts@.map_values(|p: String| p@) =~= spec_opt_push(s3, op.join, "\tJOIN = "@));
        }
        let ghost s4 = spec_opt_push(s3, op.join, "\tJOIN = "@);
        if op.hashes {
            parts.push("\tHASHES".to_owned());
        }
        proof {
            assert(parts@.map_values(|p: String| p@) =~= spec_flag_push(s4, op.hashes, "\tHASHES"@));
        }
        let ghost s5 = spec_flag_push(s4, op.hashes, "\tHASHES"@);
        if op.merges {
            parts.push("\tMERGES".to_owned());
        }
        proof {
            assert(parts@.map_values(|p: String| p@) =~= spec_flag_push(s5, op.merges, "\tMERGES"@));
        }
        parts
    }

    fn operator_sql_of(&self, e: &InventoryPgExtern, op: &InventoryPgOperator) -> (r: String)
        requires
            e.fn_args@.len() >= 2,
        ensures
            r@ == spec_operator_sql(*self, *e, *op),
    {
        let mut buf = "\n-- ".to_owned();
        buf.append(e.file.as_str());
        buf.append(":");
        push_u64(&mut buf, e.line as u64);
        buf.append("\n-- ");
        buf.append(e.module_name.as_str());
        buf.append("::");
        buf.append(e.name.as_str());
        buf.append("\nCREATE OPERATOR ");
        match &op.opname {
            Some(n) => buf.append(n.as_str()),
            None => {},
        }
        buf.append(" (\n\tPROCEDURE=\"");
        buf.append(e.name.as_str());
        buf.append("\",\n\tLEFTARG=");
        let left = self.resolve_or(e.fn_args[0].ty_id, e.fn_args[0].ty_name.as_str());
        buf.append(left.as_str());
        buf.append(", /* ");
        buf.append(e.fn_args[0].ty_name.as_str());
        buf.append(" */\n\tRIGHTARG=");
        let right = self.resolve_or(e.fn_args[1].ty_id, e.fn_args[1].ty_name.as_str());
        buf.append(right.as_str());
        buf.append(", /* ");
        buf.append(e.fn_args[1].ty_name.as_str());
        buf.append(" */\n");
        let parts = Self::operator_optionals(op);
        let joined = join_strings(&parts, ",\n");
        buf.append(joined.as_str());
        buf.append("\n");
        buf.append(");\n                                    ");
        proof {
            assert(buf@ =~= spec_operator_sql(*self, *e, *op));
        }
        buf
    }

    fn extern_stmt(&self, e: &InventoryPgExtern) -> (r: String)
        requires
            e.wf(),
        ensures
            r@ == spec_extern_stmt(*self, *e),
    {
        let fn_sql = self.fn_sql_of(e);
        let mut buf = "\n-- ".to_owned();
        buf.append(e.file.as_str());
        buf.append(":");
        push_u64(&mut buf, e.line as u64);
        buf.append("\n-- ");
        buf.append(e.module_name.as_str());
        buf.append("::");
        buf.append(e.name.as_str());
        buf.append("\n");
        if e.overridden.is_some() {
            append_commented(&mut buf, fn_sql.as_str());
            buf.append("\n--\n-- Overridden as (due to a `//` comment with a `sql` code block):");
        } else {
            buf.append(fn_sql.as_str());
        }
        buf.append("\n");
        match &e.overridden {
            Some(o) => {
                buf.append(o.as_str());
                buf.append("\n");
            },
            None => {},
        }
        proof {
            assert(buf@ =~= spec_ext_sql(*self, *e));
        }
        if e.overridden.is_none() {
            if let Some(op) = &e.operator {
                let opsql = self.operator_sql_of(e, op);
                buf.append(opsql.as_str());
            }
        }
        proof {
            assert(buf@ =~= spec_extern_stmt(*self, *e));
        }
        buf
    }

    /// Stage 6: every function's creation statement, each followed by its
    /// operator statement where one is declared and not overridden.
    pub fn externs_with_operators(&self) -> (r: String)
        requires
            self.wf(),
        ensures
            r@ == spec_externs_stage(*self),
    {
        let mut buf = String::new();
        let mut i: usize = 0;
        while i < self.externs.len()
            invariant
                self.wf(),
                i <= self.externs@.len(),
                buf@ == spec_externs_upto(*self, i as int),
            decreases self.externs@.len() - i,
        {
            let item = self.extern_stmt(&self.externs[i]);
            buf.append(item.as_str());
            i += 1;
        }
        buf
    }

    /// The whole script, stages in their fixed order. The graph must be
    /// structurally legal — test `check_structure` first.
    pub fn to_sql(&self) -> (r: String)
        requires
            self.wf(),
        ensures
            r@ == spec_to_sql(*self),
    {
        let mut buf =
            "-- This file is auto generated by pgx.\n-- `./sql/load-order.txt` items.\n                ".to_owned();
        let s1 = self.load_order_items();
        buf.append(s1.as_str());
        buf.append("\n-- `extension_sql!()` defined SQL.\n");
        let s2 = self.extension_sql();
        buf.append(s2.as_str());
        buf.append(
            "\n-- Schemas defined by `#[pg_schema] mod { /* ... */ }` blocks (except `public` & `pg_catalog`)\n",
        );
        let s3 = self.schemas();
        buf.append(s3.as_str());
        buf.append("\n-- Enums derived via `#[derive(PostgresEnum)]`\n");
        let s4 = self.enums();
        buf.append(s4.as_str());
        buf.append("\n-- Shell types for types defined by `#[derive(PostgresType)]`\n");
        let s5 = self.shell_types();
        buf.append(s5.as_str());
        buf.append("\n-- Functions defined by `#[pg_extern]`\n");
        let s6 = self.externs_with_operators();
        buf.append(s6.as_str());
        buf.append("\n-- Types defined by `#[derive(PostgresType)]`\n");
        let s7 = self.materialized_types();
        buf.append(s7.as_str());
        buf.append("\n-- Operator classes defined by `#[derive(PostgresHash, PostgresOrd)]`\n");
        let s8 = self.operator_classes();
        buf.append(s8.as_str());
        buf.append("\n");
        proof {
            assert(buf@ =~= spec_to_sql(*self));
        }
        buf
    }
}

/// The identity keys the first `i` enum descriptors register.
pub open spec fn spec_enum_ids(es: Seq<InventoryPostgresEnum>, i: int) -> Set<u64>
    decreases i,
{
    if i <= 0 {
        Set::empty()
    } else {
        spec_enum_ids(es, i - 1).insert(es[i - 1].id).insert(es[i - 1].option_id).insert(
            es[i - 1].vec_id,
        )
    }
}

/// The identity keys the first `i` type descriptors register.
pub open spec fn spec_type_ids(ts: Seq<InventoryPostgresType>, i: int) -> Set<u64>
    decreases i,
{
    if i <= 0 {
        Set::empty()
    } else {
        spec_type_ids(ts, i - 1).insert(ts[i - 1].id).insert(ts[i - 1].option_id).insert(
            ts[i - 1].vec_id,
        )
    }
}

proof fn lemma_enum_fold_passthrough(
    m: Map<u64, Seq<char>>,
    es: Seq<InventoryPostgresEnum>,
    i: int,
    k: u64,
)
    requires
        !spec_enum_ids(es, i).contains(k),
    ensures
        spec_register_enum_upto(m, es, i).contains_key(k) <==> m.contains_key(k),
        m.contains_key(k) ==> spec_register_enum_upto(m, es, i)[k] == m[k],
    decreases i,
{
    if i > 0 {
        lemma_enum_fold_passthrough(m, es, i - 1, k);
    }
}

proof fn lemma_enum_fold_agreement(
    m1: Map<u64, Seq<char>>,
    m2: Map<u64, Seq<char>>,
    es: Seq<InventoryPostgresEnum>,
    i: int,
    k: u64,
)
    requires
        spec_enum_ids(es, i).contains(k),
    ensures
        spec_register_enum_upto(m1, es, i).contains_key(k),
        spec_register_enum_upto(m2, es, i).contains_key(k),
        spec_register_enum_upto(m1, es, i)[k] == spec_register_enum_upto(m2, es, i)[k],
    decreases i,
{
    if i > 0 {
        let e = es[i - 1];
        if k == e.id || k == e.option_id || k == e.vec_id {
        } else {
            lemma_enum_fold_agreement(m1, m2, es, i - 1, k);
        }
    }
}

proof fn lemma_type_fold_passthrough(
    m: Map<u64, Seq<char>>,
    ts: Seq<InventoryPostgresType>,
    i: int,
    k: u64,
)
    requires
        !spec_type_ids(ts, i).contains(k),
    ensures
        spec_register_type_upto(m, ts, i).contains_key(k) <==> m.contains_key(k),
        m.contains_key(k) ==> spec_register_type_upto(m, ts, i)[k] == m[k],
    decreases i,
{
    if i > 0 {
        lemma_type_fold_passthrough(m, ts, i - 1, k);
    }
}

proof fn lemma_type_fold_agreement(
    m1: Map<u64, Seq<char>>,
    m2: Map<u64, Seq<char>>,
    ts: Seq<InventoryPostgresType>,
    i: int,
    k: u64,
)
    requires
        spec_type_ids(ts, i).contains(k),
    ensures
        spec_register_type_upto(m1, ts, i).contains_key(k),
        spec_register_type_upto(m2, ts, i).contains_key(k),
        spec_register_type_upto(m1, ts, i)[k] == spec_register_type_upto(m2, ts, i)[k],
    decreases i,
{
    if i > 0 {
        let t = ts[i - 1];
        if k == t.id || k == t.option_id || k == t.vec_id {
        } else {
            lemma_type_fold_agreement(m1, m2, ts, i - 1, k);
        }
    }
}

/// Running the registration pass again over an already registered graph
/// changes nothing: registration is idempotent.
pub proof fn lemma_registration_idempotent(g0: PgxSql, g1: PgxSql)
    requires
        spec_same_but_mappings(g0, g1),
        g1.spec_mappings() == spec_registered(g0),
    ensures
        spec_registered(g1) == g1.spec_mappings(),
{
    let m = g0.spec_mappings();
    let r = g1.spec_mappings();
    let es = g0.enums@;
    let ts = g0.types@;
    let ne = es.len() as int;
    let nt = ts.len() as int;
    assert(g1.enums@ == es && g1.types@ == ts);
    assert forall|k: u64| #[trigger] spec_registered(g1).contains_key(k) implies r.contains_key(
        k,
    ) && spec_registered(g1)[k] == r[k] by {
        lemma_key_after_pass(m, r, es, ts, k);
    }
    assert forall|k: u64| #[trigger] r.contains_key(k) implies spec_registered(g1).contains_key(
        k,
    ) by {
        lemma_key_after_pass(m, r, es, ts, k);
    }
    assert(spec_registered(g1) =~= r);
}

proof fn lemma_key_after_pass(
    m: Map<u64, Seq<char>>,
    r: Map<u64, Seq<char>>,
    es: Seq<InventoryPostgresEnum>,
    ts: Seq<InventoryPostgresType>,
    k: u64,
)
    requires
        r == spec_register_type_upto(
            spec_register_enum_upto(m, es, es.len() as int),
            ts,
            ts.len() as int,
        ),
    ensures
        ({
            let again = spec_register_type_upto(
                spec_register_enum_upto(r, es, es.len() as int),
                ts,
                ts.len() as int,
            );
            &&& (again.contains_key(k) <==> r.contains_key(k))
            &&& (r.contains_key(k) ==> again[k] == r[k])
        }),
{
    let ne = es.len() as int;
    let nt = ts.len() as int;
    let fe_m = spec_register_enum_upto(m, es, ne);
    let fe_r = spec_register_enum_upto(r, es, ne);
    let again = spec_register_type_upto(fe_r, ts, nt);
    if spec_type_ids(ts, nt).contains(k) {
        lemma_type_fold_agreement(fe_r, fe_m, ts, nt, k);
    } else {
        lemma_type_fold_passthrough(fe_r, ts, nt, k);
        lemma_type_fold_passthrough(fe_m, ts, nt, k);
        if spec_enum_ids(es, ne).contains(k) {
            lemma_enum_fold_agreement(r, m, es, ne, k);
        } else {
            lemma_enum_fold_passthrough(r, es, ne, k);
            lemma_enum_fold_passthrough(m, es, ne, k);
        }
    }
}

/// After a base registration, the optional identity resolves to the base
/// name and the collection identity to the array-marked name, provided the
/// three identity keys are distinct — as the keys of distinct source types
/// always are.
pub proof fn lemma_register_lookup(
    g0: PgxSql,
    g1: PgxSql,
    id: u64,
    option_id: u64,
    vec_id: u64,
    name: Seq<char>,
)
    requires
        g1.spec_mappings() == g0.spec_mappings().insert(id, name).insert(option_id, name).insert(
            vec_id,
            name + "[]"@,
        ),
        id != option_id,
        id != vec_id,
        option_id != vec_id,
    ensures
        g1.spec_mappings().contains_key(id) && g1.spec_mappings()[id] == name,
        g1.spec_mappings().contains_key(option_id) && g1.spec_mappings()[option_id] == name,
        g1.spec_mappings().contains_key(vec_id) && g1.spec_mappings()[vec_id] == name + "[]"@,
{
}

/// Rendering is deterministic: any two renderings of one unmodified graph
/// are character-for-character identical, since each equals `spec_to_sql`
/// of the graph.
pub proof fn lemma_render_deterministic(g: PgxSql, r1: Seq<char>, r2: Seq<char>)
    requires
        r1 == spec_to_sql(g),
        r2 == spec_to_sql(g),
    ensures
        r1 == r2,
{
}

/// The number of STRICT flags in a list.
pub open spec fn spec_strict_count(s: Seq<ExternArgs>) -> int {
    s.filter(|a: ExternArgs| a == ExternArgs::Strict).len() as int
}

proof fn lemma_no_strict_filter_empty(s: Seq<ExternArgs>)
    requires
        forall|i: int| 0 <= i < s.len() ==> s[i] != ExternArgs::Strict,
    ensures
        spec_strict_count(s) == 0,
    decreases s.len(),
{
    reveal(Seq::filter);
    if s.len() > 0 {
        lemma_no_strict_filter_empty(s.drop_last());
    }
}

/// STRICT derivation: an explicit STRICT flag leaves the attribute list
/// unchanged, so it is never doubled; without one, STRICT is appended
/// exactly when no argument is optional, and it is then the only STRICT
/// flag; the effective list carries a STRICT flag exactly when one was
/// declared or no argument is optional.
pub proof fn lemma_strict_derivation(e: InventoryPgExtern)
    ensures
        spec_has_strict(e) ==> spec_effective_attrs(e) == e.extern_attrs@,
        !spec_has_strict(e) && spec_any_optional(e) ==> spec_effective_attrs(e) == e.extern_attrs@,
        !spec_has_strict(e) && !spec_any_optional(e) ==> spec_effective_attrs(e)
            == e.extern_attrs@.push(ExternArgs::Strict) && spec_strict_count(
            spec_effective_attrs(e),
        ) == 1,
        (exists|i: int|
            0 <= i < spec_effective_attrs(e).len() && spec_effective_attrs(e)[i]
                == ExternArgs::Strict) <==> (spec_has_strict(e) || !spec_any_optional(e)),
{
    let eff = spec_effective_attrs(e);
    if !spec_has_strict(e) && !spec_any_optional(e) {
        assert(forall|i: int|
            0 <= i < e.extern_attrs@.len() ==> e.extern_attrs@[i] != ExternArgs::Strict);
        lemma_no_strict_filter_empty(e.extern_attrs@);
        reveal(Seq::filter);
        assert(eff.drop_last() =~= e.extern_attrs@);
        assert(eff[eff.len() - 1] == ExternArgs::Strict);
        assert(spec_strict_count(eff) == 1);
    }
    if spec_has_strict(e) {
        let i = choose|i: int|
            0 <= i < e.extern_attrs@.len() && e.extern_attrs@[i] == ExternArgs::Strict;
        assert(eff[i] == ExternArgs::Strict);
    }
}

/// Reserved schema names contribute no creation statement, wherever the
/// descriptor stands in the collection: its statement text is empty, and
/// the schema stage is insensitive to it.
pub proof fn lemma_reserved_schema_skipped(g: PgxSql, i: int)
    requires
        0 <= i < g.schemas@.len(),
        g.schemas@[i].name@ == "public"@ || g.schemas@[i].name@ == "pg_catalog"@,
    ensures
        spec_schema_stmt(g.schemas@[i]) == Seq::<char>::empty(),
        spec_schemas_upto(g, i + 1) == spec_schemas_upto(g, i),
{
    assert(spec_schemas_upto(g, i + 1) =~= spec_schemas_upto(g, i));
}

proof fn lemma_schemas_upto_prefix_eq(g: PgxSql, g2: PgxSql, i: int, j: int)
    requires
        0 <= j <= i <= g.schemas@.len(),
        g2.control == g.control,
        forall|k: int| 0 <= k < i ==> g2.schemas@[k] == g.schemas@[k],
    ensures
        spec_schemas_upto(g2, j) == spec_schemas_upto(g, j),
    decreases j,
{
    if j > 0 {
        lemma_schemas_upto_prefix_eq(g, g2, i, j - 1);
    }
}

proof fn lemma_schemas_upto_remove(g: PgxSql, g2: PgxSql, i: int, j: int)
    requires
        0 <= i < g.schemas@.len(),
        spec_schema_stmt(g.schemas@[i]) == Seq::<char>::empty(),
        g2.schemas@ == g.schemas@.remove(i),
        g2.control == g.control,
        i <= j <= g2.schemas@.len(),
    ensures
        spec_schemas_upto(g2, j) == spec_schemas_upto(g, j + 1),
    decreases j,
{
    if j == i {
        lemma_schemas_upto_prefix_eq(g, g2, i, i);
        assert(spec_schemas_upto(g, i + 1) =~= spec_schemas_upto(g, i));
    } else {
        lemma_schemas_upto_remove(g, g2, i, j - 1);
        assert(g2.schemas@[j - 1] == g.schemas@[j]);
    }
}

/// A reserved-name schema descriptor can be removed without changing the
/// schema stage at all: it produces no statement, regardless of its
/// position in the collection.
pub proof fn lemma_reserved_schema_removal(g: PgxSql, g2: PgxSql, i: int)
    requires
        0 <= i < g.schemas@.len(),
        g.schemas@[i].name@ == "public"@ || g.schemas@[i].name@ == "pg_catalog"@,
        g2.schemas@ == g.schemas@.remove(i),
        g2.control == g.control,
    ensures
        spec_schemas_stage(g2) == spec_schemas_stage(g),
{
    lemma_schemas_upto_remove(g, g2, i, g2.schemas@.len() as int);
}

/// The script up to and including the shell-type stage header.
pub open spec fn spec_before_shell(g: PgxSql) -> Seq<char> {
    "-- This file is auto generated by pgx.\n-- `./sql/load-order.txt` items.\n                "@
        + spec_load_order_stage(g) + "\n-- `extension_sql!()` defined SQL.\n"@
        + spec_extension_sql_stage(g)
        + "\n-- Schemas defined by `#[pg_schema] mod { /* ... */ }` blocks (except `public` & `pg_catalog`)\n"@
        + spec_schemas_stage(g) + "\n-- Enums derived via `#[derive(PostgresEnum)]`\n"@
        + spec_enums_stage(g)
        + "\n-- Shell types for types defined by `#[derive(PostgresType)]`\n"@
}

/// The script after the shell-type stage: the functions stage, the
/// materialized-type stage and the operator-class stage, each under its
/// header.
pub open spec fn spec_after_shell(g: PgxSql) -> Seq<char> {
    "\n-- Functions defined by `#[pg_extern]`\n"@ + spec_externs_stage(g)
        + "\n-- Types defined by `#[derive(PostgresType)]`\n"@ + spec_materialized_stage(g)
        + "\n-- Operator classes defined by `#[derive(PostgresHash, PostgresOrd)]`\n"@
        + spec_operator_classes_stage(g) + "\n"@
}

proof fn lemma_shell_contained(g: PgxSql, i: int, n: int)
    requires
        0 <= i < n <= g.types@.len(),
    ensures
        spec_shell_types_upto(g, i).len() + spec_shell_stmt(g, g.types@[i]).len()
            <= spec_shell_types_upto(g, n).len(),
        spec_shell_types_upto(g, n).subrange(
            spec_shell_types_upto(g, i).len() as int,
            (spec_shell_types_upto(g, i).len() + spec_shell_stmt(g, g.types@[i]).len()) as int,
        ) == spec_shell_stmt(g, g.types@[i]),
    decreases n,
{
    if i == n - 1 {
        assert(spec_shell_types_upto(g, n).subrange(
            spec_shell_types_upto(g, i).len() as int,
            (spec_shell_types_upto(g, i).len() + spec_shell_stmt(g, g.types@[i]).len()) as int,
        ) =~= spec_shell_stmt(g, g.types@[i]));
    } else {
        lemma_shell_contained(g, i, n - 1);
        assert(spec_shell_types_upto(g, n).subrange(
            spec_shell_types_upto(g, i).len() as int,
            (spec_shell_types_upto(g, i).len() + spec_shell_stmt(g, g.types@[i]).len()) as int,
        ) =~= spec_shell_types_upto(g, n - 1).subrange(
            spec_shell_types_upto(g, i).len() as int,
            (spec_shell_types_upto(g, i).len() + spec_shell_stmt(g, g.types@[i]).len()) as int,
        ));
    }
}

proof fn lemma_materialized_contained(g: PgxSql, i: int, n: int)
    requires
        0 <= i < n <= g.types@.len(),
    ensures
        spec_materialized_upto(g, i).len() + spec_materialized_stmt(g, g.types@[i]).len()
            <= spec_materialized_upto(g, n).len(),
        spec_materialized_upto(g, n).subrange(
            spec_materialized_upto(g, i).len() as int,
            (spec_materialized_upto(g, i).len() + spec_materialized_stmt(g, g.types@[i]).len()) as int,
        ) == spec_materialized_stmt(g, g.types@[i]),
    decreases n,
{
    if i == n - 1 {
        assert(spec_materialized_upto(g, n).subrange(
            spec_materialized_upto(g, i).len() as int,
            (spec_materialized_upto(g, i).len() + spec_materialized_stmt(g, g.types@[i]).len()) as int,
        ) =~= spec_materialized_stmt(g, g.types@[i]));
    } else {
        lemma_materialized_contained(g, i, n - 1);
        assert(spec_materialized_upto(g, n).subrange(
            spec_materialized_upto(g, i).len() as int,
            (spec_materialized_upto(g, i).len() + spec_materialized_stmt(g, g.types@[i]).len()) as int,
        ) =~= spec_materialized_upto(g, n - 1).subrange(
            spec_materialized_upto(g, i).len() as int,
            (spec_materialized_upto(g, i).len() + spec_materialized_stmt(g, g.types@[i]).len()) as int,
        ));
    }
}

/// The script splits exactly at the shell-type stage.
#[verifier::rlimit(100)]
proof fn lemma_to_sql_split_shell(g: PgxSql)
    ensures
        spec_to_sql(g) == spec_before_shell(g) + spec_shell_types_stage(g) + spec_after_shell(g),
{
    assert(spec_to_sql(g) =~= spec_before_shell(g) + spec_shell_types_stage(g) + spec_after_shell(
        g,
    ));
}

/// The script splits exactly at the materialized-type stage.
#[verifier::rlimit(100)]
proof fn lemma_to_sql_split_materialized(g: PgxSql)
    ensures
        spec_to_sql(g) == (spec_before_shell(g) + spec_shell_types_stage(g)
            + "\n-- Functions defined by `#[pg_extern]`\n"@ + spec_externs_stage(g)
            + "\n-- Types defined by `#[derive(PostgresType)]`\n"@) + spec_materialized_stage(g)
            + ("\n-- Operator classes defined by `#[derive(PostgresHash, PostgresOrd)]`\n"@
            + spec_operator_classes_stage(g) + "\n"@),
{
    assert(spec_to_sql(g) =~= (spec_before_shell(g) + spec_shell_types_stage(g)
        + "\n-- Functions defined by `#[pg_extern]`\n"@ + spec_externs_stage(g)
        + "\n-- Types defined by `#[derive(PostgresType)]`\n"@) + spec_materialized_stage(g) + (
    "\n-- Operator classes defined by `#[derive(PostgresHash, PostgresOrd)]`\n"@
        + spec_operator_classes_stage(g) + "\n"@));
}

/// Stage ordering: the script splits at the shell-type stage, whose end
/// precedes the whole functions, materialized-type and operator-class
/// stages; the shell statement of the `i`-th type descriptor occupies a
/// span ending at or before that split, and its materialized statement a
/// span beginning at or after the end of the functions stage. So every
/// shell statement stands strictly before every functions-stage statement
/// and strictly before its own materialized statement.
#[verifier::rlimit(80)]
pub proof fn lemma_stage_order(g: PgxSql, i: int)
    requires
        0 <= i < g.types@.len(),
    ensures
        spec_to_sql(g) == spec_before_shell(g) + spec_shell_types_stage(g) + spec_after_shell(g),
        ({
            let out = spec_to_sql(g);
            let shell = spec_shell_stmt(g, g.types@[i]);
            let mat = spec_materialized_stmt(g, g.types@[i]);
            let a = spec_before_shell(g).len() + spec_shell_types_upto(g, i).len();
            let fstart = spec_before_shell(g).len() + spec_shell_types_stage(g).len();
            let b = fstart + "\n-- Functions defined by `#[pg_extern]`\n"@.len()
                + spec_externs_stage(g).len()
                + "\n-- Types defined by `#[derive(PostgresType)]`\n"@.len()
                + spec_materialized_upto(g, i).len();
            &&& a + shell.len() <= fstart
            &&& fstart <= b
            &&& b + mat.len() <= out.len()
            &&& out.subrange(a as int, (a + shell.len()) as int) == shell
            &&& out.subrange(b as int, (b + mat.len()) as int) == mat
        }),
{
    let out = spec_to_sql(g);
    let shell = spec_shell_stmt(g, g.types@[i]);
    let mat = spec_materialized_stmt(g, g.types@[i]);
    let pre = spec_before_shell(g);
    let stage = spec_shell_types_stage(g);
    lemma_to_sql_split_shell(g);
    lemma_shell_contained(g, i, g.types@.len() as int);
    let a = pre.len() + spec_shell_types_upto(g, i).len();
    assert(out.subrange(a as int, (a + shell.len()) as int) =~= stage.subrange(
        spec_shell_types_upto(g, i).len() as int,
        (spec_shell_types_upto(g, i).len() + shell.len()) as int,
    ));
    lemma_to_sql_split_materialized(g);
    lemma_materialized_contained(g, i, g.types@.len() as int);
    let fstart = pre.len() + stage.len();
    let b = fstart + "\n-- Functions defined by `#[pg_extern]`\n"@.len()
        + spec_externs_stage(g).len() + "\n-- Types defined by `#[derive(PostgresType)]`\n"@.len()
        + spec_materialized_upto(g, i).len();
    assert(out.subrange(b as int, (b + mat.len()) as int) =~= spec_materialized_stage(g).subrange(
        spec_materialized_upto(g, i).len() as int,
        (spec_materialized_upto(g, i).len() + mat.len()) as int,
    ));
}

} // verus!
