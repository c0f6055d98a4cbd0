use std::collections::HashMap;

use pg_inventory::control_file::ControlFile;
use pg_inventory::declared_entity::{InventorySqlDeclaredEntity, SqlDeclaredEntity};
use pg_inventory::extension_sql::{InventoryExtensionSql, InventoryPositioningRef};
use pg_inventory::pg_extern::{
    ExternArgs, InventoryPgExtern, InventoryPgExternInput, InventoryPgExternReturn,
    InventoryPgOperator,
};
use pg_inventory::pg_schema::InventorySchema;
use pg_inventory::pgx_sql::PgxSql;
use pg_inventory::postgres_enum::InventoryPostgresEnum;
use pg_inventory::postgres_hash::InventoryPostgresHash;
use pg_inventory::postgres_ord::InventoryPostgresOrd;
use pg_inventory::postgres_type::InventoryPostgresType;

fn graph(schema: Option<&str>) -> PgxSql {
    PgxSql {
        load_order: Vec::new(),
        type_mappings: HashMap::new(),
        control: ControlFile {
            comment: String::from("test extension"),
            default_version: String::from("1.0"),
            module_pathname: String::from("$libdir/test"),
            relocatable: false,
            superuser: false,
            schema: schema.map(String::from),
        },
        schemas: Vec::new(),
        extension_sql: Vec::new(),
        externs: Vec::new(),
        types: Vec::new(),
        enums: Vec::new(),
        ords: Vec::new(),
        hashes: Vec::new(),
    }
}

fn mood_enum() -> InventoryPostgresEnum {
    InventoryPostgresEnum {
        name: String::from("Mood"),
        file: String::from("src/mood.rs"),
        line: 4,
        full_path: String::from("crate::mood::Mood"),
        module_name: String::from("crate::mood"),
        id: 10,
        option_id: 11,
        vec_id: 12,
        variants: vec![String::from("sad"), String::from("ok"), String::from("happy")],
    }
}

fn thing_type() -> InventoryPostgresType {
    InventoryPostgresType {
        name: String::from("Thing"),
        file: String::from("src/thing.rs"),
        line: 9,
        full_path: String::from("crate::thing::Thing"),
        module_name: String::from("crate::thing"),
        id: 20,
        option_id: 21,
        vec_id: 22,
        in_fn: String::from("thing_in"),
        out_fn: String::from("thing_out"),
    }
}

fn arg(pattern: &str, ty_id: u64, ty_name: &str, optional: bool) -> InventoryPgExternInput {
    InventoryPgExternInput {
        pattern: String::from(pattern),
        ty_id,
        ty_name: String::from(ty_name),
        default: None,
        is_optional: optional,
    }
}

fn plain_extern(name: &str, args: Vec<InventoryPgExternInput>) -> InventoryPgExtern {
    InventoryPgExtern {
        name: String::from(name),
        module_name: String::from("crate"),
        file: String::from("src/lib.rs"),
        line: 1,
        full_path: format!("crate::{}", name),
        fn_args: args,
        fn_return: InventoryPgExternReturn::Void,
        extern_attrs: Vec::new(),
        search_path: None,
        overridden: None,
        operator: None,
    }
}

#[test]
fn rendering_is_deterministic() {
    let mut g = graph(Some("app"));
    g.enums.push(mood_enum());
    g.types.push(thing_type());
    g.externs.push(plain_extern("f", vec![arg("x", 77, "Widget", false)]));
    g.register_types();
    assert!(g.check_structure());
    let first = g.to_sql();
    let second = g.to_sql();
    assert_eq!(first, second);
}

#[test]
fn reserved_schemas_are_never_created() {
    let mut g = graph(Some("app"));
    g.schemas.push(InventorySchema {
        module_name: String::from("crate::public_stuff"),
        name: String::from("public"),
        file: String::from("src/a.rs"),
        line: 1,
    });
    g.schemas.push(InventorySchema {
        module_name: String::from("crate::my"),
        name: String::from("myschema"),
        file: String::from("src/b.rs"),
        line: 2,
    });
    g.schemas.push(InventorySchema {
        module_name: String::from("crate::cat"),
        name: String::from("pg_catalog"),
        file: String::from("src/c.rs"),
        line: 3,
    });
    assert_eq!(
        g.schemas(),
        "CREATE SCHEMA IF NOT EXISTS app;\nCREATE SCHEMA IF NOT EXISTS myschema; /* crate::my */\n"
    );
}

#[test]
fn enum_scenario_uses_manifest_schema_and_declared_order() {
    let mut g = graph(Some("app"));
    g.enums.push(mood_enum());
    g.register_types();
    assert!(g.schemas().contains("CREATE SCHEMA IF NOT EXISTS app;\n"));
    assert_eq!(
        g.enums(),
        "-- src/mood.rs:4\n-- crate::mood::Mood - TypeId(10)\nCREATE TYPE app.Mood AS ENUM (\n\t'sad',\n\t'ok',\n\t'happy',\n);\n"
    );
}

#[test]
fn unregistered_argument_type_falls_back_to_display_name() {
    let mut g = graph(Some("app"));
    g.externs.push(plain_extern("f", vec![arg("arg0", 77, "Widget", false)]));
    assert!(g.check_structure());
    let out = g.externs_with_operators();
    assert!(out.contains("\t\"arg0\" Widget /* Widget */"));
}

#[test]
fn strict_is_derived_when_no_argument_is_optional() {
    let mut g = graph(None);
    g.externs.push(plain_extern("f", vec![arg("a", 1, "i32", false)]));
    let out = g.externs_with_operators();
    assert_eq!(out.matches("STRICT").count(), 1);
    assert!(out.contains("STRICT\n"));
}

#[test]
fn strict_is_not_derived_when_an_argument_is_optional() {
    let mut g = graph(None);
    g.externs.push(plain_extern("f", vec![arg("a", 1, "i32", true)]));
    let out = g.externs_with_operators();
    assert_eq!(out.matches("STRICT").count(), 0);
}

#[test]
fn explicit_strict_is_not_doubled() {
    let mut g = graph(None);
    let mut e = plain_extern("f", vec![arg("a", 1, "i32", false)]);
    e.extern_attrs.push(ExternArgs::Strict);
    g.externs.push(e);
    let out = g.externs_with_operators();
    assert_eq!(out.matches("STRICT").count(), 1);

    let mut g2 = graph(None);
    let mut e2 = plain_extern("f", vec![arg("a", 1, "i32", true)]);
    e2.extern_attrs.push(ExternArgs::Strict);
    g2.externs.push(e2);
    let out2 = g2.externs_with_operators();
    assert_eq!(out2.matches("STRICT").count(), 1);
}

#[test]
fn attribute_flags_render_space_separated() {
    let mut g = graph(None);
    let mut e = plain_extern("f", vec![arg("a", 1, "i32", true)]);
    e.extern_attrs.push(ExternArgs::Immutable);
    e.extern_attrs.push(ExternArgs::ParallelSafe);
    g.externs.push(e);
    let out = g.externs_with_operators();
    assert!(out.contains("IMMUTABLE PARALLEL SAFE\n"));
}

#[test]
fn shell_type_precedes_function_references_and_materialized_type() {
    let mut g = graph(Some("app"));
    g.types.push(thing_type());
    let mut e = plain_extern("touch_thing", vec![arg("t", 20, "Thing", false)]);
    e.fn_return = InventoryPgExternReturn::Type { id: 20, name: String::from("Thing") };
    g.externs.push(e);
    g.register_types();
    assert!(g.check_structure());
    let out = g.to_sql();
    let shell = out.find("CREATE TYPE app.Thing;").unwrap();
    let func = out.find("-- Functions defined by `#[pg_extern]`").unwrap();
    let reference = out.find("RETURNS Thing").unwrap();
    let materialized = out.find("CREATE TYPE app.Thing (").unwrap();
    assert!(shell < func);
    assert!(func < reference);
    assert!(reference < materialized);
}

#[test]
fn function_signature_renders_completely() {
    let mut g = graph(Some("app"));
    g.externs.push(plain_extern("f", vec![arg("a", 1, "i32", false)]));
    let out = g.externs_with_operators();
    assert_eq!(
        out,
        "\n-- src/lib.rs:1\n-- crate::f\nCREATE OR REPLACE FUNCTION app.\"f\"(\n\t\"a\" i32 /* i32 */\n) RETURNS void\nSTRICT\nLANGUAGE c /* Rust */\nAS 'MODULE_PATHNAME', 'f_wrapper';\n"
    );
}

#[test]
fn default_literals_and_commas_separate_arguments() {
    let mut g = graph(None);
    let mut a0 = arg("a", 1, "i32", false);
    a0.default = Some(String::from("5"));
    let a1 = arg("b", 2, "text", false);
    g.externs.push(plain_extern("f", vec![a0, a1]));
    let out = g.externs_with_operators();
    assert!(out.contains("\t\"a\" i32 DEFAULT 5 ,/* i32 */\n\t\"b\" text /* text */"));
}

#[test]
fn table_return_lists_named_columns() {
    let mut g = graph(None);
    let mut e = plain_extern("f", Vec::new());
    e.fn_return = InventoryPgExternReturn::Iterated(vec![
        (1, String::from("i32"), Some(String::from("id"))),
        (2, String::from("text"), Some(String::from("title"))),
    ]);
    g.externs.push(e);
    assert!(g.check_structure());
    let out = g.externs_with_operators();
    assert!(out.contains(
        "RETURNS TABLE (\n\t\"id\" i32 /* i32 */,\n\t\"title\" text /* text */\n)"
    ));
}

#[test]
fn setof_return_and_search_path_render() {
    let mut g = graph(None);
    let mut e = plain_extern("f", Vec::new());
    e.fn_return = InventoryPgExternReturn::SetOf { id: 1, name: String::from("Row") };
    e.search_path = Some(vec![String::from("a"), String::from("b")]);
    g.externs.push(e);
    let out = g.externs_with_operators();
    assert!(out.contains("RETURNS SETOF Row /* Row */"));
    assert!(out.contains("SET search_path TO a, b\n"));
}

#[test]
fn operator_statement_follows_its_function() {
    let mut g = graph(None);
    let mut e = plain_extern("eq", vec![arg("l", 20, "Thing", false), arg("r", 20, "Thing", false)]);
    e.operator = Some(InventoryPgOperator {
        opname: Some(String::from("=")),
        commutator: Some(String::from("=")),
        negator: Some(String::from("<>")),
        restrict: None,
        join: None,
        hashes: true,
        merges: false,
    });
    g.externs.push(e);
    assert!(g.check_structure());
    let out = g.externs_with_operators();
    assert!(out.contains("CREATE OPERATOR = (\n\tPROCEDURE=\"eq\","));
    assert!(out.contains("\tLEFTARG=Thing, /* Thing */"));
    assert!(out.contains("\tRIGHTARG=Thing, /* Thing */"));
    assert!(out.contains("\tCOMMUTATOR = =,\n\tNEGATOR = <>,\n\tHASHES\n"));
    assert!(!out.contains("RESTRICT ="));
    assert!(!out.contains("MERGES"));
}

#[test]
fn operator_with_too_few_arguments_is_structurally_illegal() {
    let mut g = graph(None);
    let mut e = plain_extern("eq", vec![arg("l", 20, "Thing", false)]);
    e.operator = Some(InventoryPgOperator {
        opname: Some(String::from("=")),
        commutator: None,
        negator: None,
        restrict: None,
        join: None,
        hashes: false,
        merges: false,
    });
    g.externs.push(e);
    assert!(!g.check_structure());
    assert_eq!(g.first_structural_error(), Some(0));
}

#[test]
fn first_structural_error_names_the_offending_descriptor() {
    let mut g = graph(None);
    g.externs.push(plain_extern("fine", Vec::new()));
    let mut bad = plain_extern("broken", Vec::new());
    bad.fn_return = InventoryPgExternReturn::Iterated(vec![(1, String::from("i32"), None)]);
    g.externs.push(bad);
    assert_eq!(g.first_structural_error(), Some(1));
    let good = graph(None);
    assert_eq!(good.first_structural_error(), None);
}

#[test]
fn unnamed_table_column_is_structurally_illegal() {
    let mut g = graph(None);
    let mut e = plain_extern("f", Vec::new());
    e.fn_return = InventoryPgExternReturn::Iterated(vec![(1, String::from("i32"), None)]);
    g.externs.push(e);
    assert!(!g.check_structure());
}

#[test]
fn overridden_function_keeps_generated_sql_as_comment() {
    let mut g = graph(None);
    let mut e = plain_extern("f", Vec::new());
    e.overridden = Some(String::from("CREATE FUNCTION f() RETURNS void AS 'hand written';"));
    g.externs.push(e);
    let out = g.externs_with_operators();
    assert!(out.contains("-- CREATE OR REPLACE FUNCTION"));
    assert!(out.contains("-- Overridden as (due to a `//` comment with a `sql` code block):"));
    assert!(out.contains("\nCREATE FUNCTION f() RETURNS void AS 'hand written';\n"));
}

#[test]
fn overridden_function_emits_no_operator() {
    let mut g = graph(None);
    let mut e = plain_extern("eq", vec![arg("l", 1, "T", false), arg("r", 1, "T", false)]);
    e.overridden = Some(String::from("SELECT 1;"));
    e.operator = Some(InventoryPgOperator {
        opname: Some(String::from("=")),
        commutator: None,
        negator: None,
        restrict: None,
        join: None,
        hashes: false,
        merges: false,
    });
    g.externs.push(e);
    assert!(g.check_structure());
    let out = g.externs_with_operators();
    assert!(!out.contains("CREATE OPERATOR"));
}

#[test]
fn load_order_entries_are_wrapped_and_ordered() {
    let mut g = graph(None);
    g.load_order.push((String::from("first.sql"), String::from("SELECT 1;\n")));
    g.load_order.push((String::from("second.sql"), String::from("SELECT 2;\n")));
    assert_eq!(
        g.load_order_items(),
        "\n-- start of `sql/first.sql`\nSELECT 1;\n-- end of `sql/first.sql`\n\n-- start of `sql/second.sql`\nSELECT 2;\n-- end of `sql/second.sql`\n"
    );
}

#[test]
fn fragment_renders_markers_creates_and_requires() {
    let frag = InventoryExtensionSql {
        module_name: String::from("crate"),
        full_path: String::from("crate::setup"),
        sql: String::from("SELECT 'bootstrap';\n"),
        file: String::from("src/setup.rs"),
        line: 12,
        name: String::from("setup"),
        bootstrap: true,
        finalize: true,
        requires: vec![InventoryPositioningRef::Name(String::from("other"))],
        creates: vec![InventorySqlDeclaredEntity::build("Type", "crate::Thing").unwrap()],
    };
    assert_eq!(
        frag.to_sql(),
        "\n-- src/setup.rs:12\n-- bootstrap\n-- creates:\n--   Type(crate::Thing)\n\n-- requires:\n--   other\n\n-- finalize\nSELECT 'bootstrap';\n"
    );
    assert_eq!(frag.dot_identifier(), "sql setup");
    assert_eq!(frag.rust_identifier(), "setup");
}

#[test]
fn fragment_find_first_declared_entity() {
    let frag = InventoryExtensionSql {
        module_name: String::from("crate"),
        full_path: String::from("crate::setup"),
        sql: String::new(),
        file: String::from("src/setup.rs"),
        line: 12,
        name: String::from("setup"),
        bootstrap: false,
        finalize: false,
        requires: Vec::new(),
        creates: vec![
            InventorySqlDeclaredEntity::build("Type", "crate::Thing").unwrap(),
            InventorySqlDeclaredEntity::build("Enum", "crate::Mood").unwrap(),
        ],
    };
    let hit = frag.has_sql_declared_entity(&SqlDeclaredEntity::Enum(String::from("Mood")));
    assert_eq!(hit.unwrap().sql(), "Mood");
    assert!(frag.has_sql_declared_entity(&SqlDeclaredEntity::Type(String::from("Nope"))).is_none());
}

#[test]
fn operator_classes_render_hash_then_btree() {
    let mut g = graph(None);
    g.hashes.push(InventoryPostgresHash {
        name: String::from("Thing"),
        file: String::from("src/thing.rs"),
        line: 3,
        full_path: String::from("crate::Thing"),
        id: 20,
    });
    g.ords.push(InventoryPostgresOrd {
        name: String::from("Thing"),
        file: String::from("src/thing.rs"),
        line: 3,
        full_path: String::from("crate::Thing"),
        id: 20,
    });
    let out = g.operator_classes();
    let hash = out.find("CREATE OPERATOR FAMILY Thing_hash_ops USING hash;").unwrap();
    let btree = out.find("CREATE OPERATOR FAMILY Thing_btree_ops USING btree;").unwrap();
    assert!(hash < btree);
    assert!(out.contains("\tOPERATOR    1   =  (Thing, Thing),\n\tFUNCTION    1   Thing_hash(Thing);"));
    assert!(out.contains("\tFUNCTION 1 Thing_cmp(Thing, Thing);\n"));
}

#[test]
fn type_identity_debug_comment_renders_large_keys_in_decimal() {
    let mut g = graph(None);
    g.hashes.push(InventoryPostgresHash {
        name: String::from("Big"),
        file: String::from("src/big.rs"),
        line: 0,
        full_path: String::from("crate::Big"),
        id: 18446744073709551615,
    });
    let out = g.operator_classes();
    assert!(out.contains("-- src/big.rs:0\n"));
    assert!(out.contains("-- TypeId(18446744073709551615)\n"));
}

#[test]
fn schema_alias_takes_the_first_prefix_match() {
    let mut g = graph(Some("app"));
    g.schemas.push(InventorySchema {
        module_name: String::from("crate::a"),
        name: String::from("first"),
        file: String::from("src/a.rs"),
        line: 1,
    });
    g.schemas.push(InventorySchema {
        module_name: String::from("crate::a::b"),
        name: String::from("second"),
        file: String::from("src/b.rs"),
        line: 2,
    });
    assert_eq!(g.schema_alias_of("crate::a::b::f"), Some(String::from("first")));
    assert_eq!(g.schema_alias_of("crate::z"), None);
    assert_eq!(g.schema_prefix_for("crate::a::b::f"), "first.");
    assert_eq!(g.schema_prefix_for("crate::z"), "app.");
}

#[test]
fn schema_prefix_is_empty_without_alias_or_manifest_schema() {
    let g = graph(None);
    assert_eq!(g.schema_prefix_for("crate::anything"), "");
}

#[test]
fn full_script_keeps_the_stage_headers_in_order() {
    let mut g = graph(Some("app"));
    g.enums.push(mood_enum());
    g.types.push(thing_type());
    g.register_types();
    assert!(g.check_structure());
    let out = g.to_sql();
    let headers = [
        "-- This file is auto generated by pgx.",
        "-- `./sql/load-order.txt` items.",
        "-- `extension_sql!()` defined SQL.",
        "-- Schemas defined by `#[pg_schema] mod { /* ... */ }` blocks (except `public` & `pg_catalog`)",
        "-- Enums derived via `#[derive(PostgresEnum)]`",
        "-- Shell types for types defined by `#[derive(PostgresType)]`",
        "-- Functions defined by `#[pg_extern]`",
        "-- Types defined by `#[derive(PostgresType)]`",
        "-- Operator classes defined by `#[derive(PostgresHash, PostgresOrd)]`",
    ];
    let mut last = 0;
    for h in headers {
        let pos = out[last..].find(h).map(|p| p + last).unwrap();
        assert!(pos >= last, "header out of order: {}", h);
        last = pos + h.len();
    }
    assert!(out.contains("\tINTERNALLENGTH = variable,\n\tINPUT = thing_in,\n\tOUTPUT = thing_out,\n\tSTORAGE = extended\n);"));
}
