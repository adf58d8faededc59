//! Editing what the user has set.

pub mod keybinding_editor;

pub use keybinding_editor::KeyBindingEditor;

use vstd::prelude::*;

verus! {

/// A page of the settings.
#[derive(Debug, Clone, Copy, PartialEq, Eq, Structural)]
pub enum SettingsTab {
    General,
    Appearance,
    Terminal,
    Editor,
    KeyBindings,
    Performance,
    Privacy,
    Plugins,
}

} // verus!
