//! Side panels: the connection sidebar and the query history.
pub mod history_panel;
pub mod sidebar;

pub use history_panel::{HistoryPanel, HistoryPanelState};
pub use sidebar::{Sidebar, SidebarActions, SidebarFocusTransfer, SidebarSelectionState};
