//! The editor of key bindings: what it holds and how a message changes it.

use vstd::prelude::*;
use crate::config::preferences::{
    Action, ActionModel, KeyBinding, KeyBindingModel, KeyBindings, Modifier, binding_models,
    default_bindings,
};
use crate::outside::{lowercase, to_lowercase};
use crate::names::index_of;
use crate::text::{
    contains, contains_text, join, join_texts, joined_text, opt_text, owned, same_text, texts,
};

verus! {

/// The editor of key bindings.
#[derive(Debug)]
pub struct KeyBindingEditor {
    keybindings: KeyBindings,
    editing_binding: Option<String>,
    new_binding_name: String,
    search_query: String,
}

/// What the user did in the editor.
#[derive(Debug)]
pub enum Message {
    EditBinding(String),
    UpdateBinding(String, KeyBinding),
    DeleteBinding(String),
    AddBinding,
    NewBindingNameChanged(String),
    SearchChanged(String),
    ResetToDefaults,
    CancelEdit,
}

/// What a `Message` holds, as mathematical values.
pub enum MessageModel {
    EditBinding(Seq<char>),
    UpdateBinding(Seq<char>, KeyBindingModel),
    DeleteBinding(Seq<char>),
    AddBinding,
    NewBindingNameChanged(Seq<char>),
    SearchChanged(Seq<char>),
    ResetToDefaults,
    CancelEdit,
}

impl View for Message {
    type V = MessageModel;

    open spec fn view(&self) -> MessageModel {
        match *self {
            Message::EditBinding(n) => MessageModel::EditBinding(n@),
            Message::UpdateBinding(n, b) => MessageModel::UpdateBinding(n@, b@),
            Message::DeleteBinding(n) => MessageModel::DeleteBinding(n@),
            Message::AddBinding => MessageModel::AddBinding,
            Message::NewBindingNameChanged(n) => MessageModel::NewBindingNameChanged(n@),
            Message::SearchChanged(q) => MessageModel::SearchChanged(q@),
            Message::ResetToDefaults => MessageModel::ResetToDefaults,
            Message::CancelEdit => MessageModel::CancelEdit,
        }
    }
}

/// What a `KeyBindingEditor` holds, as mathematical values.
pub struct EditorModel {
    pub bindings: Seq<(Seq<char>, KeyBindingModel)>,
    /// The name of the binding that is being edited.
    pub editing: Option<Seq<char>>,
    /// The name typed for a binding to add.
    pub new_name: Seq<char>,
    pub query: Seq<char>,
}

impl View for KeyBindingEditor {
    type V = EditorModel;

    closed spec fn view(&self) -> EditorModel {
        EditorModel {
            bindings: self.keybindings@,
            editing: opt_text(self.editing_binding),
            new_name: self.new_binding_name@,
            query: self.search_query@,
        }
    }
}

/// The names of a list of bindings.
pub open spec fn binding_names(bindings: Seq<(Seq<char>, KeyBindingModel)>) -> Seq<Seq<char>> {
    bindings.map_values(|b: (Seq<char>, KeyBindingModel)| b.0)
}

/// The bindings with `binding` set for `name`: in the place of the binding of
/// that name, or at the end where there is none.
pub open spec fn with_binding(
    bindings: Seq<(Seq<char>, KeyBindingModel)>,
    name: Seq<char>,
    binding: KeyBindingModel,
) -> Seq<(Seq<char>, KeyBindingModel)> {
    let i = index_of(binding_names(bindings), name, 0);
    if i < bindings.len() {
        bindings.update(i, (name, binding))
    } else {
        bindings.push((name, binding))
    }
}

/// The bindings without the first of this name.
pub open spec fn without_binding(
    bindings: Seq<(Seq<char>, KeyBindingModel)>,
    name: Seq<char>,
) -> Seq<(Seq<char>, KeyBindingModel)> {
    let i = index_of(binding_names(bindings), name, 0);
    if i < bindings.len() {
        bindings.remove(i)
    } else {
        bindings
    }
}

/// The binding that a newly added name starts with: no key, and a command
/// that is empty.
pub open spec fn blank_binding() -> KeyBindingModel {
    KeyBindingModel {
        key: Seq::empty(),
        modifiers: Seq::empty(),
        action: ActionModel::Command(Seq::empty()),
        when: None,
    }
}

/// The editor after a message.
pub open spec fn updated(e: EditorModel, m: MessageModel) -> EditorModel {
    match m {
        MessageModel::EditBinding(name) => EditorModel { editing: Some(name), ..e },
        MessageModel::UpdateBinding(name, binding) => EditorModel {
            bindings: with_binding(e.bindings, name, binding),
            editing: None,
            ..e
        },
        MessageModel::DeleteBinding(name) => EditorModel {
            bindings: without_binding(e.bindings, name),
            ..e
        },
        MessageModel::AddBinding => if e.new_name.len() > 0 {
            EditorModel {
                bindings: with_binding(e.bindings, e.new_name, blank_binding()),
                new_name: Seq::empty(),
                ..e
            }
        } else {
            e
        },
        MessageModel::NewBindingNameChanged(name) => EditorModel { new_name: name, ..e },
        MessageModel::SearchChanged(query) => EditorModel { query, ..e },
        MessageModel::ResetToDefaults => EditorModel { bindings: default_bindings(), ..e },
        MessageModel::CancelEdit => EditorModel { editing: None, ..e },
    }
}

/// Whether a message changes the bindings, so that they are handed out.
pub open spec fn changes_bindings(e: EditorModel, m: MessageModel) -> bool {
    match m {
        MessageModel::UpdateBinding(_, _) => true,
        MessageModel::DeleteBinding(_) => true,
        MessageModel::AddBinding => e.new_name.len() > 0,
        MessageModel::ResetToDefaults => true,
        _ => false,
    }
}

/// A binding is shown for a query: the query is empty, or the name of the
/// binding holds it, whatever the case of the letters.
pub open spec fn is_shown(name: Seq<char>, query: Seq<char>) -> bool {
    query.len() == 0 || contains(lowercase(name), lowercase(query))
}

/// The bindings from position `i` on that are shown for a query.
pub open spec fn shown_from(
    bindings: Seq<(Seq<char>, KeyBindingModel)>,
    query: Seq<char>,
    i: int,
) -> Seq<(Seq<char>, KeyBindingModel)>
    decreases bindings.len() - i,
{
    if i < 0 || i >= bindings.len() {
        Seq::empty()
    } else if is_shown(bindings[i].0, query) {
        seq![bindings[i]] + shown_from(bindings, query, i + 1)
    } else {
        shown_from(bindings, query, i + 1)
    }
}

/// The name of a modifier.
pub open spec fn modifier_name(m: Modifier) -> Seq<char> {
    match m {
        Modifier::Ctrl => "Ctrl"@,
        Modifier::Alt => "Alt"@,
        Modifier::Shift => "Shift"@,
        Modifier::Super => "Super"@,
    }
}

/// The names of the keys of a binding: those held, then the key itself
/// where it is named.
pub open spec fn key_parts(binding: KeyBindingModel) -> Seq<Seq<char>> {
    binding.modifiers.map_values(|m: Modifier| modifier_name(m)) + (if binding.key.len() > 0 {
        seq![binding.key]
    } else {
        Seq::empty()
    })
}

/// How an action is described.
pub open spec fn action_text(action: ActionModel) -> Seq<char> {
    match action {
        ActionModel::NewTab => "New Tab"@,
        ActionModel::CloseTab => "Close Tab"@,
        ActionModel::NextTab => "Next Tab"@,
        ActionModel::PreviousTab => "Previous Tab"@,
        ActionModel::Copy => "Copy"@,
        ActionModel::Paste => "Paste"@,
        ActionModel::Find => "Find"@,
        ActionModel::ToggleFullscreen => "Toggle Fullscreen"@,
        ActionModel::ToggleSettings => "Toggle Settings"@,
        ActionModel::Quit => "Quit"@,
        ActionModel::Command(command) => "Command: "@ + command,
        _ => "Unknown"@,
    }
}

/// The first position of a binding of this name.
fn binding_position(bindings: &Vec<(String, KeyBinding)>, name: &str) -> (i: usize)
    ensures
        i == index_of(binding_names(binding_models(bindings@)), name@, 0),
        i <= bindings.len(),
{
    let ghost names = binding_names(binding_models(bindings@));
    let mut i: usize = 0;
    while i < bindings.len()
        invariant
            i <= bindings.len(),
            names == binding_names(binding_models(bindings@)),
            index_of(names, name@, i as int) == index_of(names, name@, 0),
        decreases bindings.len() - i,
    {
        assert(names[i as int] == bindings@[i as int].0@);
        if same_text(bindings[i].0.as_str(), name) {
            return i;
        }
        i += 1;
    }
    i
}

/// Sets the binding of a name, in the place of the one it had or at the end.
fn set_binding(bindings: &mut Vec<(String, KeyBinding)>, name: String, binding: KeyBinding)
    ensures
        binding_models(final(bindings)@) == with_binding(
            binding_models(old(bindings)@),
            name@,
            binding@,
        ),
{
    let ghost before = binding_models(bindings@);
    let i = binding_position(bindings, name.as_str());
    if i < bindings.len() {
        bindings[i] = (name, binding);
        assert(binding_models(bindings@) =~= before.update(i as int, (name@, binding@)));
    } else {
        bindings.push((name, binding));
        assert(binding_models(bindings@) =~= before.push((name@, binding@)));
    }
}

impl KeyBindingEditor {
    /// An editor of the given bindings, with nothing being edited and
    /// nothing typed.
    pub fn new(keybindings: KeyBindings) -> (editor: Self)
        ensures
            editor@ == (EditorModel {
                bindings: keybindings@,
                editing: None,
                new_name: Seq::empty(),
                query: Seq::empty(),
            }),
    {
        KeyBindingEditor {
            keybindings,
            editing_binding: None,
            new_binding_name: String::new(),
            search_query: String::new(),
        }
    }

    /// Takes a message and hands out the bindings where it changed them.
    pub fn update(&mut self, message: Message) -> (changed: Option<KeyBindings>)
        ensures
            final(self)@ == updated(old(self)@, message@),
            changed is Some <==> changes_bindings(old(self)@, message@),
            changed matches Some(bindings) ==> bindings@ == final(self)@.bindings,
    {
        match message {
            Message::EditBinding(name) => {
                self.editing_binding = Some(name);
                None
            },
            Message::UpdateBinding(name, binding) => {
                set_binding(&mut self.keybindings.bindings, name, binding);
                self.editing_binding = None;
                Some(self.keybindings.clone())
            },
            Message::DeleteBinding(name) => {
                let ghost before = self.keybindings@;
                let i = binding_position(&self.keybindings.bindings, name.as_str());
                if i < self.keybindings.bindings.len() {
                    self.keybindings.bindings.remove(i);
                    assert(self.keybindings@ =~= before.remove(i as int));
                }
                Some(self.keybindings.clone())
            },
            Message::AddBinding => {
                if !self.new_binding_name.as_str().is_empty() {
                    let blank = KeyBinding {
                        key: String::new(),
                        modifiers: Vec::new(),
                        action: Action::Command(String::new()),
                        when: None,
                    };
                    assert(blank@ == blank_binding());
                    let name = self.new_binding_name.clone();
                    set_binding(&mut self.keybindings.bindings, name, blank);
                    self.new_binding_name = String::new();
                    Some(self.keybindings.clone())
                } else {
                    None
                }
            },
            Message::NewBindingNameChanged(name) => {
                self.new_binding_name = name;
                None
            },
            Message::SearchChanged(query) => {
                self.search_query = query;
                None
            },
            Message::ResetToDefaults => {
                self.keybindings = KeyBindings::default();
                Some(self.keybindings.clone())
            },
            Message::CancelEdit => {
                self.editing_binding = None;
                None
            },
        }
    }

    /// Whether a binding of this name is shown for a query, given both in
    /// lower case.
    pub fn shows(lowered_name: &str, query: &str, lowered_query: &str) -> (r: bool)
        ensures
            r == (query@.len() == 0 || contains(lowered_name@, lowered_query@)),
    {
        query.is_empty() || contains_text(lowered_name, lowered_query)
    }

    /// The bindings that are shown for the query that was typed: all of them
    /// for an empty query, and else those whose name holds the query,
    /// whatever the case of the letters. They stand in the order in which
    /// they were made.
    pub fn filtered_bindings(&self) -> (shown: Vec<(String, KeyBinding)>)
        ensures
            binding_models(shown@) == shown_from(self@.bindings, self@.query, 0),
    {
        let lowered_query = to_lowercase(self.search_query.as_str());
        let mut shown: Vec<(String, KeyBinding)> = Vec::new();
        let mut i: usize = 0;
        while i < self.keybindings.bindings.len()
            invariant
                i <= self.keybindings.bindings.len(),
                lowered_query@ == lowercase(self@.query),
                binding_models(shown@) + shown_from(self@.bindings, self@.query, i as int)
                    == shown_from(self@.bindings, self@.query, 0),
            decreases self.keybindings.bindings.len() - i,
        {
            let ghost before = binding_models(shown@);
            let ghost rest = shown_from(self@.bindings, self@.query, i + 1);
            let entry = &self.keybindings.bindings[i];
            assert(self@.bindings[i as int] == (entry.0@, entry.1@));
            let lowered_name = to_lowercase(entry.0.as_str());
            if Self::shows(
                lowered_name.as_str(),
                self.search_query.as_str(),
                lowered_query.as_str(),
            ) {
                shown.push((entry.0.clone(), entry.1.clone()));
                assert(binding_models(shown@) =~= before.push((entry.0@, entry.1@)));
                assert(before.push((entry.0@, entry.1@)) + rest =~= before + (seq![
                    (entry.0@, entry.1@),
                ] + rest));
            }
            i += 1;
        }
        assert(binding_models(shown@) + Seq::<(Seq<char>, KeyBindingModel)>::empty()
            =~= binding_models(shown@));
        shown
    }

    /// The keys of a binding as they are shown: the names of the keys held
    /// and of the key itself, with ` + ` between them.
    pub fn format_key_combination(&self, binding: &KeyBinding) -> (out: String)
        ensures
            out@ == join(key_parts(binding@), " + "@),
    {
        let mut parts: Vec<String> = Vec::new();
        let mut i: usize = 0;
        while i < binding.modifiers.len()
            invariant
                i <= binding.modifiers.len(),
                parts.len() == i,
                forall|j: int| 0 <= j < i ==> parts@[j]@ == modifier_name(binding.modifiers@[j]),
            decreases binding.modifiers.len() - i,
        {
            let name = match binding.modifiers[i] {
                Modifier::Ctrl => owned("Ctrl"),
                Modifier::Alt => owned("Alt"),
                Modifier::Shift => owned("Shift"),
                Modifier::Super => owned("Super"),
            };
            parts.push(name);
            i += 1;
        }
        if !binding.key.as_str().is_empty() {
            parts.push(binding.key.clone());
        }
        assert(texts(parts@) =~= key_parts(binding@));
        join_texts(&parts, " + ")
    }

    /// How an action is described.
    pub fn format_action(&self, action: &Action) -> (out: String)
        ensures
            out@ == action_text(action@),
    {
        match action {
            Action::NewTab => owned("New Tab"),
            Action::CloseTab => owned("Close Tab"),
            Action::NextTab => owned("Next Tab"),
            Action::PreviousTab => owned("Previous Tab"),
            Action::Copy => owned("Copy"),
            Action::Paste => owned("Paste"),
            Action::Find => owned("Find"),
            Action::ToggleFullscreen => owned("Toggle Fullscreen"),
            Action::ToggleSettings => owned("Toggle Settings"),
            Action::Quit => owned("Quit"),
            Action::Command(command) => joined_text("Command: ", command.as_str()),
            _ => owned("Unknown"),
        }
    }
}

} // verus!
