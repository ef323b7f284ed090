//! Which item of each sidebar list is selected.
use vstd::prelude::*;

verus! {

/// The selected index of each sidebar list.
#[derive(Debug, Clone)]
pub struct SidebarSelectionState {
    pub connections: usize,
    pub databases: usize,
    pub tables: usize,
    pub triggers: usize,
    pub routines: usize,
    pub filters: usize,
}

impl Default for SidebarSelectionState {
    fn default() -> (r: Self)
        ensures
            r.connections == 0 && r.databases == 0 && r.tables == 0 && r.triggers == 0
                && r.routines == 0 && r.filters == 0,
    {
        SidebarSelectionState {
            connections: 0,
            databases: 0,
            tables: 0,
            triggers: 0,
            routines: 0,
            filters: 0,
        }
    }
}

impl SidebarSelectionState {
    /// Another connection: the database, table and trigger lists start over.
    pub fn reset_for_connection_change(&mut self)
        ensures
            *final(self) == (SidebarSelectionState {
                databases: 0,
                tables: 0,
                triggers: 0,
                ..*old(self)
            }),
    {
        self.databases = 0;
        self.tables = 0;
        self.triggers = 0;
    }

    /// Another database: the table and trigger lists start over.
    pub fn reset_for_database_change(&mut self)
        ensures
            *final(self) == (SidebarSelectionState { tables: 0, triggers: 0, ..*old(self) }),
    {
        self.tables = 0;
        self.triggers = 0;
    }
}

} // verus!
