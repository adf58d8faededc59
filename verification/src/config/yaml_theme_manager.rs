//! Names of theme files and what is shown of a theme.

use vstd::prelude::*;
use crate::files::sanitized;

verus! {

/// What a list of themes shows of one theme.
#[derive(Debug)]
pub struct ThemeMetadata {
    pub name: String,
    pub author: Option<String>,
    pub description: Option<String>,
    pub is_dark: bool,
    pub has_custom_font: bool,
    pub has_custom_effects: bool,
}

/// The name of a theme made fit for a file name: with an underscore in the
/// place of each of the characters `/ \ : * ? " < > |`.
pub fn sanitize_filename(name: &str) -> (out: String)
    ensures
        out@ == sanitized(name@),
{
    crate::files::sanitize_filename(name)
}

} // verus!
