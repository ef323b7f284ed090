//! Tables' columns and the relationships between tables.
use vstd::prelude::*;

verus! {

/// How many rows on each side of a relationship.
#[derive(Debug, Clone, Copy, PartialEq, Eq, Structural)]
pub enum RelationType {
    OneToOne,
    OneToMany,
    ManyToMany,
}

/// A column as the diagram shows it.
#[derive(Debug, Clone)]
pub struct ERColumn {
    pub name: String,
    pub data_type: String,
    pub is_primary_key: bool,
    pub is_foreign_key: bool,
    pub nullable: bool,
    pub default_value: Option<String>,
}

/// A foreign key between two tables.
#[derive(Debug, Clone)]
pub struct Relationship {
    pub from_table: String,
    pub from_column: String,
    pub to_table: String,
    pub to_column: String,
    pub relation_type: RelationType,
}

} // verus!
