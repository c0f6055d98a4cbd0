use pg_inventory::declared_entity::{
    DeclaredEntityError, InventorySqlDeclaredEntity, SqlDeclaredEntity,
};

fn build(kind: &str, name: &str) -> Result<InventorySqlDeclaredEntity, DeclaredEntityError> {
    InventorySqlDeclaredEntity::build(kind, name)
}

#[test]
fn type_entity_matches_simple_and_derived_forms() {
    let e = build("Type", "mod::Name").unwrap();
    assert_eq!(e.sql(), "Name");
    assert!(e.has_sql_declared_entity(&SqlDeclaredEntity::Type(String::from("Name"))));
    assert!(e.has_sql_declared_entity(&SqlDeclaredEntity::Type(String::from("Option<Name>"))));
    assert!(e.has_sql_declared_entity(&SqlDeclaredEntity::Type(String::from("Vec<Name>"))));
    assert!(!e.has_sql_declared_entity(&SqlDeclaredEntity::Type(String::from("Other"))));
}

#[test]
fn type_entity_matches_canonical_name() {
    let e = build("Type", "mod::Name").unwrap();
    assert!(e.has_sql_declared_entity(&SqlDeclaredEntity::Type(String::from("mod::Name"))));
}

#[test]
fn type_entity_matches_every_derived_spelling() {
    let e = build("Type", "mod::Name").unwrap();
    for ident in [
        "Vec<Option<Name>>",
        "Option<Vec<Name>>",
        "Option<Vec<Option<Name>>>",
        "Array<Name>",
        "Option<Array<Name>>",
        "Varlena<Name>",
        "pgx::pgbox::PgBox<Name>",
    ] {
        assert!(
            e.has_sql_declared_entity(&SqlDeclaredEntity::Type(String::from(ident))),
            "expected a match for {}",
            ident
        );
    }
}

#[test]
fn kind_mismatch_never_matches() {
    let e = build("Type", "mod::Name").unwrap();
    assert!(!e.has_sql_declared_entity(&SqlDeclaredEntity::Enum(String::from("Name"))));
    assert!(!e.has_sql_declared_entity(&SqlDeclaredEntity::Function(String::from("Name"))));
}

#[test]
fn enum_and_function_kinds_build() {
    let e = build("Enum", "crate::Mood").unwrap();
    assert_eq!(e.sql(), "Mood");
    assert!(e.has_sql_declared_entity(&SqlDeclaredEntity::Enum(String::from("Option<Mood>"))));
    let f = build("function", "crate::util::lower").unwrap();
    assert_eq!(f.sql(), "lower");
    assert!(f.has_sql_declared_entity(&SqlDeclaredEntity::Function(String::from("lower"))));
}

#[test]
fn unknown_kind_is_rejected() {
    let err = build("Widget", "mod::Name").unwrap_err();
    assert_eq!(err, DeclaredEntityError::UnknownKind);
    assert_eq!(
        err.message(),
        "Can only declare `Type(Ident)`, `Enum(Ident)` or `Function(Ident)`"
    );
    // The kind spelling for functions is lower-case; the capitalized form
    // is not accepted.
    assert!(build("Function", "mod::Name").is_err());
}

#[test]
fn empty_trailing_segment_is_rejected() {
    let err = build("Type", "mod::").unwrap_err();
    assert_eq!(err, DeclaredEntityError::NoSimpleName(String::from("mod::")));
    assert_eq!(err.message(), "Did not get SQL for `mod::`");
    assert!(build("Enum", "").is_err());
}

#[test]
fn simple_name_without_separator_is_its_own_segment() {
    let e = build("Type", "Name").unwrap();
    assert_eq!(e.sql(), "Name");
    assert!(e.has_sql_declared_entity(&SqlDeclaredEntity::Type(String::from("Name"))));
}

#[test]
fn describe_spells_kind_and_canonical_name() {
    assert_eq!(build("Type", "m::T").unwrap().describe(), "Type(m::T)");
    assert_eq!(build("Enum", "m::E").unwrap().describe(), "Enum(m::E)");
    assert_eq!(build("function", "m::f").unwrap().describe(), "Function m::f)");
}
