//! Client-side value model for a schema-less, tree-shaped data store:
//! a dynamic value tree, a path navigator over it, a typed marshalling
//! layer, graph reference and relation entities, and pure builders that
//! render entities into query-fragment text.
pub mod config;
pub mod macro_state;
pub mod naming_convention;
pub mod proxy;
pub mod record;
pub mod render;
pub mod serialize;
pub mod surreal_edge;
pub mod surreal_id;
pub mod surreal_qr;
pub mod surreal_statement;
pub mod value;
