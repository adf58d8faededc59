//! The colours of a theme, as a theme file names them.

use vstd::prelude::*;

verus! {

/// The eight colours of a terminal, each as a text.
#[derive(Debug, Clone)]
pub struct AnsiColorSet {
    pub black: String,
    pub red: String,
    pub green: String,
    pub yellow: String,
    pub blue: String,
    pub magenta: String,
    pub cyan: String,
    pub white: String,
}

/// The colours of a terminal: the normal and the bright ones, and a larger
/// palette where the theme has one.
#[derive(Debug, Clone)]
pub struct TerminalColors {
    pub normal: AnsiColorSet,
    pub bright: AnsiColorSet,
    pub palette: Option<Vec<String>>,
}

/// The colours of the surroundings, each where the theme names it.
#[derive(Debug, Clone)]
pub struct UiColors {
    pub primary: Option<String>,
    pub secondary: Option<String>,
    pub success: Option<String>,
    pub warning: Option<String>,
    pub error: Option<String>,
    pub info: Option<String>,
    pub surface: Option<String>,
    pub surface_variant: Option<String>,
    pub outline: Option<String>,
    pub shadow: Option<String>,
}

/// What can go wrong with a theme file.
#[derive(Debug)]
pub enum YamlThemeError {
    ParseError(String),
    SerializeError(String),
    IoError(String),
    InvalidColor(String),
    MissingField(String),
    InvalidFormat(String),
}

} // verus!
