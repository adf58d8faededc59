//! What the user has set: preferences and key bindings.

pub mod preferences;
pub mod yaml_theme;
pub mod yaml_theme_manager;

pub use preferences::{
    Action, BellBehavior, CursorStyle, EditorPreferences, GeneralPreferences, HyperlinkBehavior,
    KeyBinding, KeyBindings, LogLevel, Modifier, PerformancePreferences, PrivacyPreferences,
    StartupBehavior, TabBarVisibility, WorkingDirectoryBehavior,
};
pub use yaml_theme::{AnsiColorSet, TerminalColors, UiColors, YamlThemeError};
pub use yaml_theme_manager::ThemeMetadata;

use vstd::prelude::*;

verus! {

/// What can go wrong with the settings.
#[derive(Debug)]
pub enum ConfigError {
    ConfigDirNotFound,
    IoError(String),
    ParseError(String),
    SerializeError(String),
    ThemeNotFound(String),
    YamlThemeError(YamlThemeError),
}

} // verus!
