//! The grid's editing modes, after Helix and Vim.
use vstd::prelude::*;

verus! {

#[verifier::external_type_specification]
#[verifier::external_body]
pub struct ExColor32(egui::Color32);

/// What `egui::Color32::from_rgb` returns: the opaque colour of the given
/// red, green and blue components.
pub uninterp spec fn color_from_rgb(r: u8, g: u8, b: u8) -> egui::Color32;

/// Calls `egui::Color32::from_rgb`; the result is the named colour of the
/// three components (the source builds `[r, g, b, 255]`).
#[verifier::external_body]
pub(crate) fn rgb(r: u8, g: u8, b: u8) -> (c: egui::Color32)
    ensures
        c == color_from_rgb(r, g, b),
{
    egui::Color32::from_rgb(r, g, b)
}

/// The grid's editing mode.
#[derive(Clone, Copy, PartialEq, Eq, Structural, Debug)]
pub enum GridMode {
    /// Moving and giving commands.
    Normal,
    /// Editing a cell.
    Insert,
    /// Extending a selection.
    Select,
}

impl Default for GridMode {
    fn default() -> (r: Self)
        ensures
            r == GridMode::Normal,
    {
        GridMode::Normal
    }
}

/// The label of a mode.
pub open spec fn mode_label(m: GridMode) -> Seq<char> {
    match m {
        GridMode::Normal => "NORMAL"@,
        GridMode::Insert => "INSERT"@,
        GridMode::Select => "SELECT"@,
    }
}

impl GridMode {
    /// The label shown in the status bar.
    pub fn display_name(&self) -> (r: &'static str)
        ensures
            r@ == mode_label(*self),
    {
        match self {
            GridMode::Normal => "NORMAL",
            GridMode::Insert => "INSERT",
            GridMode::Select => "SELECT",
        }
    }

    /// The colour of the mode's label: blue, green or violet.
    pub fn color(&self) -> (c: egui::Color32)
        ensures
            *self == GridMode::Normal ==> c == color_from_rgb(130, 170, 255),
            *self == GridMode::Insert ==> c == color_from_rgb(150, 220, 130),
            *self == GridMode::Select ==> c == color_from_rgb(200, 150, 255),
    {
        match self {
            GridMode::Normal => rgb(130, 170, 255),
            GridMode::Insert => rgb(150, 220, 130),
            GridMode::Select => rgb(200, 150, 255),
        }
    }
}

} // verus!
