//! User-interface state, decisions and SQL generation.
pub mod components;
pub mod dialogs;
pub mod input;
pub mod panels;

pub use components::{escape_identifier, escape_value, quote_identifier, DataGridActions, DataGridState, FocusTransfer};

use vstd::prelude::*;

verus! {

/// The area that receives the keyboard; one at a time.
#[derive(Debug, Clone, Copy, PartialEq, Eq, Structural)]
pub enum FocusArea {
    Sidebar,
    DataGrid,
    SqlEditor,
    Dialog,
}

impl Default for FocusArea {
    fn default() -> (r: Self)
        ensures
            r == FocusArea::DataGrid,
    {
        FocusArea::DataGrid
    }
}

/// The part of the sidebar that has the keyboard.
#[derive(Debug, Clone, Copy, PartialEq, Eq, Structural)]
pub enum SidebarSection {
    Connections,
    Databases,
    Tables,
    Triggers,
    /// Stored procedures and functions.
    Routines,
    /// The grid's filter conditions.
    Filters,
}

impl Default for SidebarSection {
    fn default() -> (r: Self)
        ensures
            r == SidebarSection::Connections,
    {
        SidebarSection::Connections
    }
}

} // verus!
