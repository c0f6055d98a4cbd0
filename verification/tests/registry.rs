use std::collections::HashMap;

use pg_inventory::control_file::ControlFile;
use pg_inventory::pgx_sql::PgxSql;
use pg_inventory::postgres_enum::InventoryPostgresEnum;
use pg_inventory::postgres_type::InventoryPostgresType;

fn empty_graph() -> PgxSql {
    PgxSql {
        load_order: Vec::new(),
        type_mappings: HashMap::new(),
        control: ControlFile {
            comment: String::from("test extension"),
            default_version: String::from("1.0"),
            module_pathname: String::from("$libdir/test"),
            relocatable: false,
            superuser: false,
            schema: None,
        },
        schemas: Vec::new(),
        extension_sql: Vec::new(),
        externs: Vec::new(),
        types: Vec::new(),
        enums: Vec::new(),
        ords: Vec::new(),
        hashes: Vec::new(),
    }
}

fn mood_enum() -> InventoryPostgresEnum {
    InventoryPostgresEnum {
        name: String::from("Mood"),
        file: String::from("src/mood.rs"),
        line: 4,
        full_path: String::from("crate::mood::Mood"),
        module_name: String::from("crate::mood"),
        id: 10,
        option_id: 11,
        vec_id: 12,
        variants: vec![String::from("sad"), String::from("ok"), String::from("happy")],
    }
}

fn thing_type() -> InventoryPostgresType {
    InventoryPostgresType {
        name: String::from("Thing"),
        file: String::from("src/thing.rs"),
        line: 9,
        full_path: String::from("crate::thing::Thing"),
        module_name: String::from("crate::thing"),
        id: 20,
        option_id: 21,
        vec_id: 22,
        in_fn: String::from("thing_in"),
        out_fn: String::from("thing_out"),
    }
}

#[test]
fn register_derives_optional_and_collection_mappings() {
    let mut g = empty_graph();
    g.map_type_to_sql_type(1, 2, 3, "Custom");
    assert_eq!(g.type_id_to_sql_type(1), Some(String::from("Custom")));
    assert_eq!(g.type_id_to_sql_type(2), Some(String::from("Custom")));
    assert_eq!(g.type_id_to_sql_type(3), Some(String::from("Custom[]")));
    assert_eq!(g.type_id_to_sql_type(4), None);
}

#[test]
fn register_raw_inserts_a_single_mapping() {
    let mut g = empty_graph();
    g.map_type_id_to_sql_type(7, String::from("X"));
    assert_eq!(g.type_id_to_sql_type(7), Some(String::from("X")));
    assert_eq!(g.type_id_to_sql_type(8), None);
}

#[test]
fn register_overwrites_an_earlier_mapping() {
    let mut g = empty_graph();
    g.map_type_id_to_sql_type(7, String::from("X"));
    g.map_type_id_to_sql_type(7, String::from("Y"));
    assert_eq!(g.type_id_to_sql_type(7), Some(String::from("Y")));
}

#[test]
fn register_types_covers_enums_and_types() {
    let mut g = empty_graph();
    g.enums.push(mood_enum());
    g.types.push(thing_type());
    g.register_types();
    assert_eq!(g.type_id_to_sql_type(10), Some(String::from("Mood")));
    assert_eq!(g.type_id_to_sql_type(11), Some(String::from("Mood")));
    assert_eq!(g.type_id_to_sql_type(12), Some(String::from("Mood[]")));
    assert_eq!(g.type_id_to_sql_type(20), Some(String::from("Thing")));
    assert_eq!(g.type_id_to_sql_type(21), Some(String::from("Thing")));
    assert_eq!(g.type_id_to_sql_type(22), Some(String::from("Thing[]")));
    assert_eq!(g.type_id_to_sql_type(99), None);
}

#[test]
fn register_types_is_idempotent() {
    let mut g = empty_graph();
    g.enums.push(mood_enum());
    g.types.push(thing_type());
    g.register_types();
    g.register_types();
    assert_eq!(g.type_id_to_sql_type(10), Some(String::from("Mood")));
    assert_eq!(g.type_id_to_sql_type(12), Some(String::from("Mood[]")));
    assert_eq!(g.type_id_to_sql_type(22), Some(String::from("Thing[]")));
}
