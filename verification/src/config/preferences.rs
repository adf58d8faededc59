//! The preferences of the user and their defaults.

use vstd::prelude::*;
use crate::text::{opt_text, owned};

verus! {

/// What the application does when it starts.
#[derive(Debug)]
pub enum StartupBehavior {
    NewSession,
    RestoreLastSession,
    CustomCommand(String),
}

impl Clone for StartupBehavior {
    fn clone(&self) -> (out: Self)
        ensures
            out == *self,
    {
        match self {
            StartupBehavior::NewSession => StartupBehavior::NewSession,
            StartupBehavior::RestoreLastSession => StartupBehavior::RestoreLastSession,
            StartupBehavior::CustomCommand(c) => StartupBehavior::CustomCommand(c.clone()),
        }
    }
}

/// Where a new session starts.
#[derive(Debug)]
pub enum WorkingDirectoryBehavior {
    Home,
    LastUsed,
    Custom(String),
}

impl Clone for WorkingDirectoryBehavior {
    fn clone(&self) -> (out: Self)
        ensures
            out == *self,
    {
        match self {
            WorkingDirectoryBehavior::Home => WorkingDirectoryBehavior::Home,
            WorkingDirectoryBehavior::LastUsed => WorkingDirectoryBehavior::LastUsed,
            WorkingDirectoryBehavior::Custom(c) => WorkingDirectoryBehavior::Custom(c.clone()),
        }
    }
}

/// How the terminal rings.
#[derive(Debug, Clone, Copy, PartialEq, Eq, Structural)]
pub enum BellBehavior {
    /// No bell at all.
    Off,
    Visual,
    Audio,
    Both,
}

/// The shape of the cursor.
#[derive(Debug, Clone, Copy, PartialEq, Eq, Structural)]
pub enum CursorStyle {
    Block,
    Underline,
    Bar,
}

/// How a link is followed.
#[derive(Debug, Clone, Copy, PartialEq, Eq, Structural)]
pub enum HyperlinkBehavior {
    Click,
    CtrlClick,
    Disabled,
}

/// When the bar of tabs is shown.
#[derive(Debug, Clone, Copy, PartialEq, Eq, Structural)]
pub enum TabBarVisibility {
    Always,
    WhenMultiple,
    Never,
}

/// How much is logged.
#[derive(Debug, Clone, Copy, PartialEq, Eq, Structural)]
pub enum LogLevel {
    Error,
    Warn,
    Info,
    Debug,
    Trace,
}

/// A key that is held while another is pressed.
#[derive(Debug, Clone, Copy, PartialEq, Eq, Structural)]
pub enum Modifier {
    Ctrl,
    Alt,
    Shift,
    Super,
}

/// What a key binding does.
#[derive(Debug)]
pub enum Action {
    NewTab,
    CloseTab,
    NextTab,
    PreviousTab,
    SplitHorizontal,
    SplitVertical,
    CloseSplit,
    Copy,
    Paste,
    Cut,
    SelectAll,
    Find,
    FindNext,
    FindPrevious,
    ScrollUp,
    ScrollDown,
    ScrollToTop,
    ScrollToBottom,
    ToggleFullscreen,
    ToggleSettings,
    Quit,
    /// Runs a command.
    Command(String),
}

/// What an `Action` holds, as mathematical values.
pub enum ActionModel {
    NewTab,
    CloseTab,
    NextTab,
    PreviousTab,
    SplitHorizontal,
    SplitVertical,
    CloseSplit,
    Copy,
    Paste,
    Cut,
    SelectAll,
    Find,
    FindNext,
    FindPrevious,
    ScrollUp,
    ScrollDown,
    ScrollToTop,
    ScrollToBottom,
    ToggleFullscreen,
    ToggleSettings,
    Quit,
    Command(Seq<char>),
}

impl View for Action {
    type V = ActionModel;

    open spec fn view(&self) -> ActionModel {
        match *self {
            Action::NewTab => ActionModel::NewTab,
            Action::CloseTab => ActionModel::CloseTab,
            Action::NextTab => ActionModel::NextTab,
            Action::PreviousTab => ActionModel::PreviousTab,
            Action::SplitHorizontal => ActionModel::SplitHorizontal,
            Action::SplitVertical => ActionModel::SplitVertical,
            Action::CloseSplit => ActionModel::CloseSplit,
            Action::Copy => ActionModel::Copy,
            Action::Paste => ActionModel::Paste,
            Action::Cut => ActionModel::Cut,
            Action::SelectAll => ActionModel::SelectAll,
            Action::Find => ActionModel::Find,
            Action::FindNext => ActionModel::FindNext,
            Action::FindPrevious => ActionModel::FindPrevious,
            Action::ScrollUp => ActionModel::ScrollUp,
            Action::ScrollDown => ActionModel::ScrollDown,
            Action::ScrollToTop => ActionModel::ScrollToTop,
            Action::ScrollToBottom => ActionModel::ScrollToBottom,
            Action::ToggleFullscreen => ActionModel::ToggleFullscreen,
            Action::ToggleSettings => ActionModel::ToggleSettings,
            Action::Quit => ActionModel::Quit,
            Action::Command(c) => ActionModel::Command(c@),
        }
    }
}

/// A key, the keys held with it, what they do together, and when.
#[derive(Debug)]
pub struct KeyBinding {
    pub key: String,
    pub modifiers: Vec<Modifier>,
    pub action: Action,
    /// The context in which the binding holds.
    pub when: Option<String>,
}

/// What a `KeyBinding` holds, as mathematical values.
pub struct KeyBindingModel {
    pub key: Seq<char>,
    pub modifiers: Seq<Modifier>,
    pub action: ActionModel,
    pub when: Option<Seq<char>>,
}

impl View for KeyBinding {
    type V = KeyBindingModel;

    open spec fn view(&self) -> KeyBindingModel {
        KeyBindingModel {
            key: self.key@,
            modifiers: self.modifiers@,
            action: self.action@,
            when: opt_text(self.when),
        }
    }
}

impl Clone for Action {
    fn clone(&self) -> (out: Self)
        ensures
            out@ == self@,
    {
        match self {
            Action::NewTab => Action::NewTab,
            Action::CloseTab => Action::CloseTab,
            Action::NextTab => Action::NextTab,
            Action::PreviousTab => Action::PreviousTab,
            Action::SplitHorizontal => Action::SplitHorizontal,
            Action::SplitVertical => Action::SplitVertical,
            Action::CloseSplit => Action::CloseSplit,
            Action::Copy => Action::Copy,
            Action::Paste => Action::Paste,
            Action::Cut => Action::Cut,
            Action::SelectAll => Action::SelectAll,
            Action::Find => Action::Find,
            Action::FindNext => Action::FindNext,
            Action::FindPrevious => Action::FindPrevious,
            Action::ScrollUp => Action::ScrollUp,
            Action::ScrollDown => Action::ScrollDown,
            Action::ScrollToTop => Action::ScrollToTop,
            Action::ScrollToBottom => Action::ScrollToBottom,
            Action::ToggleFullscreen => Action::ToggleFullscreen,
            Action::ToggleSettings => Action::ToggleSettings,
            Action::Quit => Action::Quit,
            Action::Command(c) => Action::Command(c.clone()),
        }
    }
}

impl Clone for KeyBinding {
    fn clone(&self) -> (out: Self)
        ensures
            out@ == self@,
    {
        let mut modifiers: Vec<Modifier> = Vec::new();
        let mut i: usize = 0;
        while i < self.modifiers.len()
            invariant
                i <= self.modifiers.len(),
                modifiers@ =~= self.modifiers@.take(i as int),
            decreases self.modifiers.len() - i,
        {
            modifiers.push(self.modifiers[i]);
            i += 1;
        }
        assert(self.modifiers@.take(self.modifiers@.len() as int) =~= self.modifiers@);
        KeyBinding {
            key: self.key.clone(),
            modifiers,
            action: self.action.clone(),
            when: match &self.when {
                Some(w) => Some(w.clone()),
                None => None,
            },
        }
    }
}

/// The key bindings by name, in the order in which they were made.
#[derive(Debug)]
pub struct KeyBindings {
    pub bindings: Vec<(String, KeyBinding)>,
}

/// The views of a list of named key bindings.
pub open spec fn binding_models(v: Seq<(String, KeyBinding)>) -> Seq<(Seq<char>, KeyBindingModel)> {
    v.map_values(|b: (String, KeyBinding)| (b.0@, b.1@))
}

impl View for KeyBindings {
    type V = Seq<(Seq<char>, KeyBindingModel)>;

    open spec fn view(&self) -> Seq<(Seq<char>, KeyBindingModel)> {
        binding_models(self.bindings@)
    }
}

impl Clone for KeyBindings {
    fn clone(&self) -> (out: Self)
        ensures
            out@ == self@,
    {
        let mut bindings: Vec<(String, KeyBinding)> = Vec::new();
        let mut i: usize = 0;
        while i < self.bindings.len()
            invariant
                i <= self.bindings.len(),
                bindings.len() == i,
                forall|j: int|
                    0 <= j < i ==> bindings@[j].0@ == self.bindings@[j].0@ && bindings@[j].1@
                        == self.bindings@[j].1@,
            decreases self.bindings.len() - i,
        {
            bindings.push((self.bindings[i].0.clone(), self.bindings[i].1.clone()));
            i += 1;
        }
        assert(binding_models(bindings@) =~= binding_models(self.bindings@));
        KeyBindings { bindings }
    }
}

/// A binding of a key with the keys held with it to an action, in every
/// context.
pub open spec fn plain_binding(
    key: Seq<char>,
    modifiers: Seq<Modifier>,
    action: ActionModel,
) -> KeyBindingModel {
    KeyBindingModel { key, modifiers, action, when: None }
}

/// The key bindings that the application starts with.
pub open spec fn default_bindings() -> Seq<(Seq<char>, KeyBindingModel)> {
    seq![
        ("new_tab"@, plain_binding("t"@, seq![Modifier::Ctrl], ActionModel::NewTab)),
        ("close_tab"@, plain_binding("w"@, seq![Modifier::Ctrl], ActionModel::CloseTab)),
        ("next_tab"@, plain_binding("Tab"@, seq![Modifier::Ctrl], ActionModel::NextTab)),
        (
            "previous_tab"@,
            plain_binding(
                "Tab"@,
                seq![Modifier::Ctrl, Modifier::Shift],
                ActionModel::PreviousTab,
            ),
        ),
        ("copy"@, plain_binding("c"@, seq![Modifier::Ctrl], ActionModel::Copy)),
        ("paste"@, plain_binding("v"@, seq![Modifier::Ctrl], ActionModel::Paste)),
        ("find"@, plain_binding("f"@, seq![Modifier::Ctrl], ActionModel::Find)),
        ("fullscreen"@, plain_binding("F11"@, Seq::empty(), ActionModel::ToggleFullscreen)),
        ("settings"@, plain_binding("comma"@, seq![Modifier::Ctrl], ActionModel::ToggleSettings)),
    ]
}

/// A named binding of a key with the keys held with it to an action.
fn bind(
    name: &str,
    key: &str,
    modifiers: Vec<Modifier>,
    action: Action,
) -> (out: (String, KeyBinding))
    ensures
        out.0@ == name@,
        out.1@ == plain_binding(key@, modifiers@, action@),
{
    (owned(name), KeyBinding { key: owned(key), modifiers, action, when: None })
}

/// The control key alone.
fn ctrl() -> (out: Vec<Modifier>)
    ensures
        out@ == seq![Modifier::Ctrl],
{
    let mut out: Vec<Modifier> = Vec::new();
    out.push(Modifier::Ctrl);
    assert(out@ =~= seq![Modifier::Ctrl]);
    out
}

impl Default for KeyBindings {
    fn default() -> (out: Self)
        ensures
            out@ == default_bindings(),
    {
        let mut bindings: Vec<(String, KeyBinding)> = Vec::new();
        bindings.push(bind("new_tab", "t", ctrl(), Action::NewTab));
        bindings.push(bind("close_tab", "w", ctrl(), Action::CloseTab));
        bindings.push(bind("next_tab", "Tab", ctrl(), Action::NextTab));
        let mut both = ctrl();
        both.push(Modifier::Shift);
        assert(both@ =~= seq![Modifier::Ctrl, Modifier::Shift]);
        bindings.push(bind("previous_tab", "Tab", both, Action::PreviousTab));
        bindings.push(bind("copy", "c", ctrl(), Action::Copy));
        bindings.push(bind("paste", "v", ctrl(), Action::Paste));
        bindings.push(bind("find", "f", ctrl(), Action::Find));
        bindings.push(bind("fullscreen", "F11", Vec::new(), Action::ToggleFullscreen));
        bindings.push(bind("settings", "comma", ctrl(), Action::ToggleSettings));
        assert(binding_models(bindings@) =~= default_bindings());
        KeyBindings { bindings }
    }
}

/// Preferences on the application as a whole.
#[derive(Debug)]
pub struct GeneralPreferences {
    pub startup_behavior: StartupBehavior,
    pub default_shell: Option<String>,
    pub working_directory: WorkingDirectoryBehavior,
    pub auto_update: bool,
    pub telemetry_enabled: bool,
    pub crash_reporting: bool,
}

impl Clone for GeneralPreferences {
    fn clone(&self) -> (out: Self)
        ensures
            out == *self,
    {
        GeneralPreferences {
            startup_behavior: self.startup_behavior.clone(),
            default_shell: match &self.default_shell {
                Some(s) => Some(s.clone()),
                None => None,
            },
            working_directory: self.working_directory.clone(),
            auto_update: self.auto_update,
            telemetry_enabled: self.telemetry_enabled,
            crash_reporting: self.crash_reporting,
        }
    }
}

impl Default for GeneralPreferences {
    fn default() -> (out: Self)
        ensures
            out.startup_behavior is NewSession,
            out.default_shell is None,
            out.working_directory is Home,
            out.auto_update,
            !out.telemetry_enabled,
            out.crash_reporting,
    {
        GeneralPreferences {
            startup_behavior: StartupBehavior::NewSession,
            default_shell: None,
            working_directory: WorkingDirectoryBehavior::Home,
            auto_update: true,
            telemetry_enabled: false,
            crash_reporting: true,
        }
    }
}

/// Preferences on editing the command line.
#[derive(Debug, Clone, Copy, PartialEq, Eq, Structural)]
pub struct EditorPreferences {
    pub vim_mode: bool,
    pub auto_suggestions: bool,
    pub syntax_highlighting: bool,
    pub auto_completion: bool,
    pub bracket_matching: bool,
    pub indent_size: usize,
    pub tab_width: usize,
    pub insert_spaces: bool,
    pub trim_whitespace: bool,
    pub auto_save: bool,
    pub word_wrap: bool,
}

impl Default for EditorPreferences {
    fn default() -> (out: Self)
        ensures
            out == (EditorPreferences {
                vim_mode: false,
                auto_suggestions: true,
                syntax_highlighting: true,
                auto_completion: true,
                bracket_matching: true,
                indent_size: 4,
                tab_width: 4,
                insert_spaces: true,
                trim_whitespace: true,
                auto_save: false,
                word_wrap: false,
            }),
    {
        EditorPreferences {
            vim_mode: false,
            auto_suggestions: true,
            syntax_highlighting: true,
            auto_completion: true,
            bracket_matching: true,
            indent_size: 4,
            tab_width: 4,
            insert_spaces: true,
            trim_whitespace: true,
            auto_save: false,
            word_wrap: false,
        }
    }
}

/// Preferences on speed and memory.
#[derive(Debug, Clone, Copy, PartialEq, Eq, Structural)]
pub struct PerformancePreferences {
    pub gpu_acceleration: bool,
    pub vsync: bool,
    pub max_fps: Option<u32>,
    /// In megabytes.
    pub memory_limit: Option<usize>,
    pub background_throttling: bool,
    pub lazy_rendering: bool,
    pub texture_atlas_size: u32,
}

impl Default for PerformancePreferences {
    fn default() -> (out: Self)
        ensures
            out == (PerformancePreferences {
                gpu_acceleration: true,
                vsync: true,
                max_fps: Some(60u32),
                memory_limit: Some(1024usize),
                background_throttling: true,
                lazy_rendering: true,
                texture_atlas_size: 1024,
            }),
    {
        PerformancePreferences {
            gpu_acceleration: true,
            vsync: true,
            max_fps: Some(60),
            memory_limit: Some(1024),
            background_throttling: true,
            lazy_rendering: true,
            texture_atlas_size: 1024,
        }
    }
}

/// Preferences on what is kept and shared.
#[derive(Debug, Clone, Copy, PartialEq, Eq, Structural)]
pub struct PrivacyPreferences {
    pub history_enabled: bool,
    pub history_limit: usize,
    pub clear_history_on_exit: bool,
    pub incognito_mode: bool,
    pub log_level: LogLevel,
    pub share_usage_data: bool,
}

impl Default for PrivacyPreferences {
    fn default() -> (out: Self)
        ensures
            out == (PrivacyPreferences {
                history_enabled: true,
                history_limit: 10000,
                clear_history_on_exit: false,
                incognito_mode: false,
                log_level: LogLevel::Info,
                share_usage_data: false,
            }),
    {
        PrivacyPreferences {
            history_enabled: true,
            history_limit: 10000,
            clear_history_on_exit: false,
            incognito_mode: false,
            log_level: LogLevel::Info,
            share_usage_data: false,
        }
    }
}

} // verus!
