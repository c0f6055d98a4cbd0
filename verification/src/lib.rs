//! Compiles a collection of extension metadata descriptors — functions, value
//! types, enums, schemas and raw SQL fragments — into one deterministic
//! Postgres data-definition script, emitted in a fixed, forward-reference-safe
//! stage order.

pub mod control_file;
pub mod declared_entity;
pub mod extension_sql;
pub mod pg_extern;
pub mod pg_schema;
pub mod pgx_sql;
pub mod postgres_enum;
pub mod postgres_hash;
pub mod postgres_ord;
pub mod postgres_type;
pub mod strutil;
