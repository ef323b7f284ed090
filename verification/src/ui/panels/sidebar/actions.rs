//! What the sidebar asks the application to do.
use vstd::prelude::*;
use crate::ui::SidebarSection;

verus! {

/// Where the keyboard focus leaves the sidebar for.
#[derive(Debug, Clone, Copy, PartialEq, Eq, Structural)]
pub enum SidebarFocusTransfer {
    ToDataGrid,
}

/// The sidebar's requests of one frame.
pub struct SidebarActions {
    pub connect: Option<String>,
    pub disconnect: Option<String>,
    pub delete: Option<String>,
    pub select_database: Option<String>,
    pub show_table_schema: Option<String>,
    pub query_table: Option<String>,
    /// The keyboard leaves the sidebar.
    pub focus_transfer: Option<SidebarFocusTransfer>,
    /// The keyboard moves to another part of the sidebar.
    pub section_change: Option<SidebarSection>,
    /// A filter condition was changed, added or removed here.
    pub filter_changed: bool,
    pub edit_connection: Option<String>,
    /// Rename this item of this part.
    pub rename_item: Option<(SidebarSection, String)>,
    /// Reload the list shown.
    pub refresh: bool,
    pub add_filter: bool,
    pub clear_filters: bool,
    /// Move the condition at this index to the next (`true`) or previous column.
    pub cycle_filter_column: Option<(usize, bool)>,
    /// Switch the AND/OR of the condition at this index.
    pub toggle_filter_logic: Option<usize>,
    /// Put the keyboard in the value field of the condition at this index.
    pub focus_filter_input: Option<usize>,
    pub show_trigger_definition: Option<String>,
    pub show_routine_definition: Option<String>,
}

/// The model of the sidebar's requests: every field by its plain value.
#[verifier::ext_equal]
pub struct SidebarActionsView {
    pub connect: Option<Seq<char>>,
    pub disconnect: Option<Seq<char>>,
    pub delete: Option<Seq<char>>,
    pub select_database: Option<Seq<char>>,
    pub show_table_schema: Option<Seq<char>>,
    pub query_table: Option<Seq<char>>,
    pub focus_transfer: Option<SidebarFocusTransfer>,
    pub section_change: Option<SidebarSection>,
    pub filter_changed: bool,
    pub edit_connection: Option<Seq<char>>,
    pub rename_item: Option<(SidebarSection, Seq<char>)>,
    pub refresh: bool,
    pub add_filter: bool,
    pub clear_filters: bool,
    pub cycle_filter_column: Option<(usize, bool)>,
    pub toggle_filter_logic: Option<usize>,
    pub focus_filter_input: Option<usize>,
    pub show_trigger_definition: Option<Seq<char>>,
    pub show_routine_definition: Option<Seq<char>>,
}

/// An optional text by its characters.
pub open spec fn opt_text(o: Option<String>) -> Option<Seq<char>> {
    match o {
        Some(s) => Some(s@),
        None => None,
    }
}

impl View for SidebarActions {
    type V = SidebarActionsView;

    open spec fn view(&self) -> SidebarActionsView {
        SidebarActionsView {
            connect: opt_text(self.connect),
            disconnect: opt_text(self.disconnect),
            delete: opt_text(self.delete),
            select_database: opt_text(self.select_database),
            show_table_schema: opt_text(self.show_table_schema),
            query_table: opt_text(self.query_table),
            focus_transfer: self.focus_transfer,
            section_change: self.section_change,
            filter_changed: self.filter_changed,
            edit_connection: opt_text(self.edit_connection),
            rename_item: match self.rename_item {
                Some((sec, name)) => Some((sec, name@)),
                None => None,
            },
            refresh: self.refresh,
            add_filter: self.add_filter,
            clear_filters: self.clear_filters,
            cycle_filter_column: self.cycle_filter_column,
            toggle_filter_logic: self.toggle_filter_logic,
            focus_filter_input: self.focus_filter_input,
            show_trigger_definition: opt_text(self.show_trigger_definition),
            show_routine_definition: opt_text(self.show_routine_definition),
        }
    }
}

/// No request.
pub open spec fn no_sidebar_actions() -> SidebarActionsView {
    SidebarActionsView {
        connect: None,
        disconnect: None,
        delete: None,
        select_database: None,
        show_table_schema: None,
        query_table: None,
        focus_transfer: None,
        section_change: None,
        filter_changed: false,
        edit_connection: None,
        rename_item: None,
        refresh: false,
        add_filter: false,
        clear_filters: false,
        cycle_filter_column: None,
        toggle_filter_logic: None,
        focus_filter_input: None,
        show_trigger_definition: None,
        show_routine_definition: None,
    }
}

impl Default for SidebarActions {
    fn default() -> (r: Self)
        ensures
            r@ == no_sidebar_actions(),
    {
        SidebarActions {
            connect: None,
            disconnect: None,
            delete: None,
            select_database: None,
            show_table_schema: None,
            query_table: None,
            focus_transfer: None,
            section_change: None,
            filter_changed: false,
            edit_connection: None,
            rename_item: None,
            refresh: false,
            add_filter: false,
            clear_filters: false,
            cycle_filter_column: None,
            toggle_filter_logic: None,
            focus_filter_input: None,
            show_trigger_definition: None,
            show_routine_definition: None,
        }
    }
}

impl SidebarActions {
    /// Whether a connection, database or table was acted on (a focus move
    /// alone does not count).
    pub fn has_action(&self) -> (r: bool)
        ensures
            r == (self.connect is Some || self.disconnect is Some || self.delete is Some
                || self.select_database is Some || self.show_table_schema is Some
                || self.query_table is Some),
    {
        self.connect.is_some() || self.disconnect.is_some() || self.delete.is_some()
            || self.select_database.is_some() || self.show_table_schema.is_some()
            || self.query_table.is_some()
    }
}

} // verus!
