//! The dialogs that only draw and answer through flags.
use vstd::prelude::*;

verus! {

/// The about dialog widget.
pub struct AboutDialog;

/// The confirmation dialog widget.
pub struct ConfirmDialog;

/// The help dialog widget.
pub struct HelpDialog;

/// The key-bindings dialog widget.
pub struct KeyBindingsDialog;

} // verus!
