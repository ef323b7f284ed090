pub mod core_types;
pub mod database;
pub mod text;
pub mod ui;
