//! Application-wide kinds shared by the dialogs.
use vstd::prelude::*;

verus! {

/// The file formats data can be exported to.
#[derive(Debug, Clone, Copy, PartialEq, Eq)]
pub enum ExportFormat {
    Csv,
    Sql,
    Json,
}

/// The colour themes offered.
#[derive(Debug, Clone, Copy, PartialEq, Eq, Structural)]
pub enum ThemePreset {
    TokyoNight,
    TokyoNightStorm,
    TokyoNightLight,
    CatppuccinMocha,
    CatppuccinMacchiato,
    CatppuccinFrappe,
    CatppuccinLatte,
    OneDark,
    OneDarkVivid,
    OneLight,
    GruvboxDark,
    GruvboxLight,
    Dracula,
    Nord,
    SolarizedDark,
    SolarizedLight,
    MonokaiPro,
    GithubDark,
    GithubLight,
}

} // verus!
