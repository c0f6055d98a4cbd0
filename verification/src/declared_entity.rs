//! What named SQL objects a raw fragment introduces: a type, an enum or a
//! function, under its canonical path and all the derived spellings that a
//! fragment may use to reference it.

use vstd::prelude::*;
use vstd::string::StrSliceExecFns;
use vstd::string::StringExecFns;
use crate::strutil::{last_segment_of, spec_last_segment, str_eq};

verus! {

/// An identifier to test a fragment's declarations against.
#[derive(Debug, Clone, PartialEq, Eq)]
pub enum SqlDeclaredEntity {
    Type(String),
    Enum(String),
    Function(String),
}

/// Why a declared entity could not be built.
#[derive(Debug, Clone, PartialEq, Eq)]
pub enum DeclaredEntityError {
    /// The canonical name has no non-empty trailing path segment.
    NoSimpleName(String),
    /// The kind is not one of the accepted spellings.
    UnknownKind,
}

impl DeclaredEntityError {
    /// A human-readable account of the failure.
    pub fn message(&self) -> (r: String)
        ensures
            *self matches DeclaredEntityError::NoSimpleName(n) ==> r@ == "Did not get SQL for `"@
                + n@ + "`"@,
            *self is UnknownKind ==> r@
                == "Can only declare `Type(Ident)`, `Enum(Ident)` or `Function(Ident)`"@,
    {
        match self {
            DeclaredEntityError::NoSimpleName(n) => {
                let mut m = "Did not get SQL for `".to_owned();
                m.append(n.as_str());
                m.append("`");
                m
            },
            DeclaredEntityError::UnknownKind => {
                "Can only declare `Type(Ident)`, `Enum(Ident)` or `Function(Ident)`".to_owned()
            },
        }
    }
}

/// A declared entity: the canonical name, its simple trailing name (the SQL
/// spelling), and every derived spelling a fragment may declare.
#[derive(Debug, Clone, PartialEq, Eq)]
pub enum InventorySqlDeclaredEntity {
    Type {
        sql: String,
        name: String,
        option: String,
        vec: String,
        vec_option: String,
        option_vec: String,
        option_vec_option: String,
        array: String,
        option_array: String,
        varlena: String,
        pg_box: String,
    },
    Enum {
        sql: String,
        name: String,
        option: String,
        vec: String,
        vec_option: String,
        option_vec: String,
        option_vec_option: String,
        array: String,
        option_array: String,
        varlena: String,
        pg_box: String,
    },
    Function {
        sql: String,
        name: String,
        option: String,
        vec: String,
        vec_option: String,
        option_vec: String,
        option_vec_option: String,
        array: String,
        option_array: String,
        varlena: String,
        pg_box: String,
    },
}

pub open spec fn spec_option_form(s: Seq<char>) -> Seq<char> {
    "Option<"@ + s + ">"@
}

pub open spec fn spec_vec_form(s: Seq<char>) -> Seq<char> {
    "Vec<"@ + s + ">"@
}

pub open spec fn spec_vec_option_form(s: Seq<char>) -> Seq<char> {
    "Vec<Option<"@ + s + ">>"@
}

pub open spec fn spec_option_vec_form(s: Seq<char>) -> Seq<char> {
    "Option<Vec<"@ + s + ">>"@
}

pub open spec fn spec_option_vec_option_form(s: Seq<char>) -> Seq<char> {
    "Option<Vec<Option<"@ + s + ">>>"@
}

pub open spec fn spec_array_form(s: Seq<char>) -> Seq<char> {
    "Array<"@ + s + ">"@
}

pub open spec fn spec_varlena_form(s: Seq<char>) -> Seq<char> {
    "Varlena<"@ + s + ">"@
}

pub open spec fn spec_pg_box_form(s: Seq<char>) -> Seq<char> {
    "pgx::pgbox::PgBox<"@ + s + ">"@
}

/// The field values every well-built entity carries: the simple name and
/// the derived spellings templated over it.
pub open spec fn spec_fields_wf(
    sql: String,
    name: String,
    option: String,
    vec: String,
    vec_option: String,
    option_vec: String,
    option_vec_option: String,
    array: String,
    option_array: String,
    varlena: String,
    pg_box: String,
) -> bool {
    let s = spec_last_segment(name@);
    &&& sql@ == s
    &&& option@ == spec_option_form(s)
    &&& vec@ == spec_vec_form(s)
    &&& vec_option@ == spec_vec_option_form(s)
    &&& option_vec@ == spec_option_vec_form(s)
    &&& option_vec_option@ == spec_option_vec_option_form(s)
    &&& array@ == spec_array_form(s)
    &&& option_array@ == spec_option_form(spec_array_form(s))
    &&& varlena@ == spec_varlena_form(s)
    &&& pg_box@ == spec_pg_box_form(s)
}

/// `ident` equals one of the spellings carried by an entity's fields.
pub open spec fn spec_ident_in_fields(
    ident: Seq<char>,
    sql: String,
    name: String,
    option: String,
    vec: String,
    vec_option: String,
    option_vec: String,
    option_vec_option: String,
    array: String,
    option_array: String,
    varlena: String,
    pg_box: String,
) -> bool {
    ||| ident == name@
    ||| ident == sql@
    ||| ident == option@
    ||| ident == vec@
    ||| ident == vec_option@
    ||| ident == option_vec@
    ||| ident == option_vec_option@
    ||| ident == array@
    ||| ident == option_array@
    ||| ident == varlena@
    ||| ident == pg_box@
}

impl InventorySqlDeclaredEntity {
    /// The fields are exactly the derived spellings of the canonical name.
    pub open spec fn wf(self) -> bool {
        match self {
            InventorySqlDeclaredEntity::Type {
                sql, name, option, vec, vec_option, option_vec, option_vec_option, array,
                option_array, varlena, pg_box,
            } => spec_fields_wf(sql, name, option, vec, vec_option, option_vec,
                option_vec_option, array, option_array, varlena, pg_box),
            InventorySqlDeclaredEntity::Enum {
                sql, name, option, vec, vec_option, option_vec, option_vec_option, array,
                option_array, varlena, pg_box,
            } => spec_fields_wf(sql, name, option, vec, vec_option, option_vec,
                option_vec_option, array, option_array, varlena, pg_box),
            InventorySqlDeclaredEntity::Function {
                sql, name, option, vec, vec_option, option_vec, option_vec_option, array,
                option_array, varlena, pg_box,
            } => spec_fields_wf(sql, name, option, vec, vec_option, option_vec,
                option_vec_option, array, option_array, varlena, pg_box),
        }
    }

    /// The canonical name the entity was built from.
    pub open spec fn spec_canonical(self) -> Seq<char> {
        match self {
            InventorySqlDeclaredEntity::Type { name, .. } => name@,
            InventorySqlDeclaredEntity::Enum { name, .. } => name@,
            InventorySqlDeclaredEntity::Function { name, .. } => name@,
        }
    }

    /// The simple SQL spelling of the entity.
    pub open spec fn spec_sql(self) -> Seq<char> {
        match self {
            InventorySqlDeclaredEntity::Type { sql, .. } => sql@,
            InventorySqlDeclaredEntity::Enum { sql, .. } => sql@,
            InventorySqlDeclaredEntity::Function { sql, .. } => sql@,
        }
    }

    /// The identifier names this entity: the kinds agree and the
    /// identifier's string is one of the entity's spellings.
    pub open spec fn spec_matches(self, ident: SqlDeclaredEntity) -> bool {
        match (ident, self) {
            (
                SqlDeclaredEntity::Type(i),
                InventorySqlDeclaredEntity::Type {
                    sql, name, option, vec, vec_option, option_vec, option_vec_option, array,
                    option_array, varlena, pg_box,
                },
            ) => spec_ident_in_fields(i@, sql, name, option, vec, vec_option, option_vec,
                option_vec_option, array, option_array, varlena, pg_box),
            (
                SqlDeclaredEntity::Enum(i),
                InventorySqlDeclaredEntity::Enum {
                    sql, name, option, vec, vec_option, option_vec, option_vec_option, array,
                    option_array, varlena, pg_box,
                },
            ) => spec_ident_in_fields(i@, sql, name, option, vec, vec_option, option_vec,
                option_vec_option, array, option_array, varlena, pg_box),
            (
                SqlDeclaredEntity::Function(i),
                InventorySqlDeclaredEntity::Function {
                    sql, name, option, vec, vec_option, option_vec, option_vec_option, array,
                    option_array, varlena, pg_box,
                },
            ) => spec_ident_in_fields(i@, sql, name, option, vec, vec_option, option_vec,
                option_vec_option, array, option_array, varlena, pg_box),
            _ => false,
        }
    }

    /// The textual form used when a fragment lists what it declares.
    pub open spec fn spec_describe(self) -> Seq<char> {
        match self {
            InventorySqlDeclaredEntity::Type { name, .. } => "Type("@ + name@ + ")"@,
            InventorySqlDeclaredEntity::Enum { name, .. } => "Enum("@ + name@ + ")"@,
            InventorySqlDeclaredEntity::Function { name, .. } => "Function "@ + name@ + ")"@,
        }
    }

    /// Builds the entity for `name` under the given kind spelling, deriving
    /// every spelling from the trailing path segment of `name`.
    pub fn build(variant: &str, name: &str) -> (r: Result<Self, DeclaredEntityError>)
        ensures
            r is Ok <==> ((variant@ == "Type"@ || variant@ == "Enum"@ || variant@ == "function"@)
                && spec_last_segment(name@).len() > 0),
            r matches Ok(e) ==> e.wf() && e.spec_canonical() == name@ && (e is Type <==> variant@
                == "Type"@) && (e is Enum <==> variant@ == "Enum"@) && (e is Function <==> variant@
                == "function"@),
            r matches Err(err) ==> (err is UnknownKind <==> !(variant@ == "Type"@ || variant@
                == "Enum"@ || variant@ == "function"@)),
            r matches Err(DeclaredEntityError::NoSimpleName(n)) ==> n@ == name@,
    {
        proof {
            reveal_strlit("Type");
            reveal_strlit("Enum");
            reveal_strlit("function");
            assert("Type"@[0] == 'T' && "Enum"@[0] == 'E');
            assert("Type"@.len() == 4 && "Enum"@.len() == 4 && "function"@.len() == 8);
            assert("Type"@ != "Enum"@ && "Type"@ != "function"@ && "Enum"@ != "function"@);
        }
        let is_type = str_eq(variant, "Type");
        let is_enum = str_eq(variant, "Enum");
        let is_fn = str_eq(variant, "function");
        if !(is_type || is_enum || is_fn) {
            return Err(DeclaredEntityError::UnknownKind);
        }
        let simple = last_segment_of(name);
        if simple.as_str().is_empty() {
            return Err(DeclaredEntityError::NoSimpleName(name.to_owned()));
        }
        let sql = simple.clone();
        let canonical = name.to_owned();
        let option = wrap("Option<", simple.as_str(), ">");
        let vec = wrap("Vec<", simple.as_str(), ">");
        let vec_option = wrap("Vec<Option<", simple.as_str(), ">>");
        let option_vec = wrap("Option<Vec<", simple.as_str(), ">>");
        let option_vec_option = wrap("Option<Vec<Option<", simple.as_str(), ">>>");
        let array = wrap("Array<", simple.as_str(), ">");
        let option_array = wrap("Option<", array.as_str(), ">");
        let varlena = wrap("Varlena<", simple.as_str(), ">");
        let pg_box = wrap("pgx::pgbox::PgBox<", simple.as_str(), ">");
        if is_type {
            Ok(InventorySqlDeclaredEntity::Type {
                sql,
                name: canonical,
                option,
                vec,
                vec_option,
                option_vec,
                option_vec_option,
                array,
                option_array,
                varlena,
                pg_box,
            })
        } else if is_enum {
            Ok(InventorySqlDeclaredEntity::Enum {
                sql,
                name: canonical,
                option,
                vec,
                vec_option,
                option_vec,
                option_vec_option,
                array,
                option_array,
                varlena,
                pg_box,
            })
        } else {
            Ok(InventorySqlDeclaredEntity::Function {
                sql,
                name: canonical,
                option,
                vec,
                vec_option,
                option_vec,
                option_vec_option,
                array,
                option_array,
                varlena,
                pg_box,
            })
        }
    }

    /// The simple SQL spelling.
    pub fn sql(&self) -> (r: String)
        ensures
            r@ == self.spec_sql(),
    {
        match self {
            InventorySqlDeclaredEntity::Type { sql, .. } => sql.clone(),
            InventorySqlDeclaredEntity::Enum { sql, .. } => sql.clone(),
            InventorySqlDeclaredEntity::Function { sql, .. } => sql.clone(),
        }
    }

    /// The textual form used in fragment listings.
    pub fn describe(&self) -> (r: String)
        ensures
            r@ == self.spec_describe(),
    {
        match self {
            InventorySqlDeclaredEntity::Type { name, .. } => wrap("Type(", name.as_str(), ")"),
            InventorySqlDeclaredEntity::Enum { name, .. } => wrap("Enum(", name.as_str(), ")"),
            InventorySqlDeclaredEntity::Function { name, .. } => wrap(
                "Function ",
                name.as_str(),
                ")",
            ),
        }
    }

    /// Does `identifier` name what this entity declares?
    pub fn has_sql_declared_entity(&self, identifier: &SqlDeclaredEntity) -> (r: bool)
        ensures
            r == self.spec_matches(*identifier),
    {
        match (identifier, self) {
            (
                SqlDeclaredEntity::Type(i),
                InventorySqlDeclaredEntity::Type {
                    sql, name, option, vec, vec_option, option_vec, option_vec_option, array,
                    option_array, varlena, pg_box,
                },
            ) => ident_in_fields(i, sql, name, option, vec, vec_option, option_vec,
                option_vec_option, array, option_array, varlena, pg_box),
            (
                SqlDeclaredEntity::Enum(i),
                InventorySqlDeclaredEntity::Enum {
                    sql, name, option, vec, vec_option, option_vec, option_vec_option, array,
                    option_array, varlena, pg_box,
                },
            ) => ident_in_fields(i, sql, name, option, vec, vec_option, option_vec,
                option_vec_option, array, option_array, varlena, pg_box),
            (
                SqlDeclaredEntity::Function(i),
                InventorySqlDeclaredEntity::Function {
                    sql, name, option, vec, vec_option, option_vec, option_vec_option, array,
                    option_array, varlena, pg_box,
                },
            ) => ident_in_fields(i, sql, name, option, vec, vec_option, option_vec,
                option_vec_option, array, option_array, varlena, pg_box),
            _ => false,
        }
    }
}

/// `pre`, then `s`, then `post`, concatenated.
fn wrap(pre: &str, s: &str, post: &str) -> (r: String)
    ensures
        r@ == pre@ + s@ + post@,
{
    let mut b = pre.to_owned();
    b.append(s);
    b.append(post);
    b
}

fn ident_in_fields(
    i: &String,
    sql: &String,
    name: &String,
    option: &String,
    vec: &String,
    vec_option: &String,
    option_vec: &String,
    option_vec_option: &String,
    array: &String,
    option_array: &String,
    varlena: &String,
    pg_box: &String,
) -> (r: bool)
    ensures
        r == spec_ident_in_fields(i@, *sql, *name, *option, *vec, *vec_option, *option_vec,
            *option_vec_option, *array, *option_array, *varlena, *pg_box),
{
    str_eq(i.as_str(), name.as_str()) || str_eq(i.as_str(), sql.as_str()) || str_eq(
        i.as_str(),
        option.as_str(),
    ) || str_eq(i.as_str(), vec.as_str()) || str_eq(i.as_str(), vec_option.as_str()) || str_eq(
        i.as_str(),
        option_vec.as_str(),
    ) || str_eq(i.as_str(), option_vec_option.as_str()) || str_eq(i.as_str(), array.as_str())
        || str_eq(i.as_str(), option_array.as_str()) || str_eq(i.as_str(), varlena.as_str())
        || str_eq(i.as_str(), pg_box.as_str())
}

/// The string an identifier carries, whatever its kind.
pub open spec fn spec_ident_str(ident: SqlDeclaredEntity) -> Seq<char> {
    match ident {
        SqlDeclaredEntity::Type(i) => i@,
        SqlDeclaredEntity::Enum(i) => i@,
        SqlDeclaredEntity::Function(i) => i@,
    }
}

/// The kinds of an identifier and an entity agree.
pub open spec fn spec_same_kind(e: InventorySqlDeclaredEntity, ident: SqlDeclaredEntity) -> bool {
    ||| (e is Type && ident is Type)
    ||| (e is Enum && ident is Enum)
    ||| (e is Function && ident is Function)
}

/// Every entity built from a canonical name answers the matcher exactly on
/// the canonical name, the simple trailing name, and the derived spellings
/// of the simple name — and on nothing else; an identifier of another kind
/// never matches.
pub proof fn lemma_matches_derived_forms(e: InventorySqlDeclaredEntity, ident: SqlDeclaredEntity)
    requires
        e.wf(),
    ensures
        spec_same_kind(e, ident) ==> ({
            let s = spec_last_segment(e.spec_canonical());
            let i = spec_ident_str(ident);
            e.spec_matches(ident) <==> (i == e.spec_canonical() || i == s || i
                == spec_option_form(s) || i == spec_vec_form(s) || i == spec_vec_option_form(s)
                || i == spec_option_vec_form(s) || i == spec_option_vec_option_form(s) || i
                == spec_array_form(s) || i == spec_option_form(spec_array_form(s)) || i
                == spec_varlena_form(s) || i == spec_pg_box_form(s))
        }),
        !spec_same_kind(e, ident) ==> !e.spec_matches(ident),
{
}

} // verus!
