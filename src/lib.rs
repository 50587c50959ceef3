//! An object mapper for a wide-column database: generated collection-mutation
//! statements, typed query builders and result decisions, ready-made finders,
//! hooked mutations, and a snapshot of a keyspace's live schema.
pub mod callbacks;
pub mod collection;
pub mod find;
pub mod query;
pub mod schema;
