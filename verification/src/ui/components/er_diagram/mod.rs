//! The entity-relationship diagram's data: columns and foreign keys.
pub mod state;

pub use state::{ERColumn, RelationType, Relationship};
