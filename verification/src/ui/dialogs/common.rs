//! Parts shared by the dialogs: which footer button was pressed, and the
//! names under which the header, footer, content, status and window widgets
//! are drawn.
use vstd::prelude::*;

verus! {

/// The dialog header widget.
pub struct DialogHeader;

/// The dialog footer widget.
pub struct DialogFooter;

/// The dialog body widgets (fields, notes, sections).
pub struct DialogContent;

/// The status line of a dialog.
pub struct DialogStatus;

/// The dialog window builder.
pub struct DialogWindow;

/// Which footer button was pressed in a frame.
#[derive(Debug, Clone, Copy, PartialEq, Eq)]
pub struct FooterResult {
    pub confirmed: bool,
    pub cancelled: bool,
}

impl FooterResult {
    /// No button pressed.
    pub fn none() -> (r: FooterResult)
        ensures
            !r.confirmed && !r.cancelled,
    {
        FooterResult { confirmed: false, cancelled: false }
    }

    /// The confirm button pressed.
    pub fn confirmed() -> (r: FooterResult)
        ensures
            r.confirmed && !r.cancelled,
    {
        FooterResult { confirmed: true, cancelled: false }
    }

    /// The cancel button pressed.
    pub fn cancelled() -> (r: FooterResult)
        ensures
            !r.confirmed && r.cancelled,
    {
        FooterResult { confirmed: false, cancelled: true }
    }

    /// Whether either button was pressed.
    pub fn has_action(&self) -> (r: bool)
        ensures
            r == (self.confirmed || self.cancelled),
    {
        self.confirmed || self.cancelled
    }
}

} // verus!
