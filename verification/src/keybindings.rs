//! The keys that act on a text input.

use vstd::prelude::*;

verus! {

/// What a key can do to a text input.
#[derive(Debug, Clone, Copy, PartialEq, Eq, Structural)]
pub enum InputAction {
    Backspace,
    Delete,
    Left,
    Right,
    SelectLeft,
    SelectRight,
    SelectAll,
    Home,
    End,
    ShowCharacterPalette,
    Paste,
    Cut,
    Copy,
}

/// A keystroke bound to an action, everywhere or within a named context.
#[derive(Debug)]
pub struct KeyBinding {
    pub keystroke: String,
    pub action: InputAction,
    pub context: Option<String>,
}

pub ghost struct KeyBindingView {
    pub keystroke: Seq<char>,
    pub action: InputAction,
    pub context: Option<Seq<char>>,
}

impl View for KeyBinding {
    type V = KeyBindingView;

    open spec fn view(&self) -> KeyBindingView {
        KeyBindingView {
            keystroke: self.keystroke@,
            action: self.action,
            context: match self.context {
                Some(context) => Some(context@),
                None => None,
            },
        }
    }
}

impl DeepView for KeyBinding {
    type V = KeyBindingView;

    open spec fn deep_view(&self) -> KeyBindingView {
        self@
    }
}

/// A binding that holds everywhere.
pub open spec fn global(keystroke: Seq<char>, action: InputAction) -> KeyBindingView {
    KeyBindingView { keystroke, action, context: None }
}

/// A binding that holds in a text input.
pub open spec fn in_text_input(keystroke: Seq<char>, action: InputAction) -> KeyBindingView {
    KeyBindingView { keystroke, action, context: Some("TextInput"@) }
}

/// The bindings of the stand-alone chat box.
pub open spec fn chatbox_bindings() -> Seq<KeyBindingView> {
    seq![
        global("backspace"@, InputAction::Backspace),
        global("delete"@, InputAction::Delete),
        global("left"@, InputAction::Left),
        global("right"@, InputAction::Right),
        global("shift-left"@, InputAction::SelectLeft),
        global("shift-right"@, InputAction::SelectRight),
        global("cmd-a"@, InputAction::SelectAll),
        global("cmd-v"@, InputAction::Paste),
        global("cmd-c"@, InputAction::Copy),
        global("cmd-x"@, InputAction::Cut),
        global("home"@, InputAction::Home),
        global("end"@, InputAction::End),
        global("ctrl-cmd-space"@, InputAction::ShowCharacterPalette),
    ]
}

/// The bindings of a text input within the assistant's window.
pub open spec fn text_input_bindings() -> Seq<KeyBindingView> {
    seq![
        in_text_input("left"@, InputAction::Left),
        in_text_input("right"@, InputAction::Right),
        in_text_input("home"@, InputAction::Home),
        in_text_input("end"@, InputAction::End),
        in_text_input("cmd-left"@, InputAction::Home),
        in_text_input("cmd-right"@, InputAction::End),
        in_text_input("shift-left"@, InputAction::SelectLeft),
        in_text_input("shift-right"@, InputAction::SelectRight),
        in_text_input("cmd-a"@, InputAction::SelectAll),
        in_text_input("backspace"@, InputAction::Backspace),
        in_text_input("delete"@, InputAction::Delete),
        in_text_input("cmd-c"@, InputAction::Copy),
        in_text_input("cmd-v"@, InputAction::Paste),
        in_text_input("cmd-x"@, InputAction::Cut),
    ]
}

fn bind(bindings: &mut Vec<KeyBinding>, keystroke: &str, action: InputAction, context: Option<&str>)
    ensures
        final(bindings).deep_view() == old(bindings).deep_view().push(
            KeyBindingView {
                keystroke: keystroke@,
                action,
                context: match context {
                    Some(context) => Some(context@),
                    None => None,
                },
            },
        ),
{
    let context = match context {
        Some(context) => Some(context.to_owned()),
        None => None,
    };
    let binding = KeyBinding { keystroke: keystroke.to_owned(), action, context };
    bindings.push(binding);
    assert(bindings.deep_view() =~= old(bindings).deep_view().push(binding@));
}

/// The bindings of the stand-alone chat box, for the host to register.
pub fn chatbox_keybindings() -> (r: Vec<KeyBinding>)
    ensures
        r.deep_view() == chatbox_bindings(),
{
    let mut bindings: Vec<KeyBinding> = Vec::new();
    assert(bindings.deep_view() =~= Seq::<KeyBindingView>::empty());
    bind(&mut bindings, "backspace", InputAction::Backspace, None);
    bind(&mut bindings, "delete", InputAction::Delete, None);
    bind(&mut bindings, "left", InputAction::Left, None);
    bind(&mut bindings, "right", InputAction::Right, None);
    bind(&mut bindings, "shift-left", InputAction::SelectLeft, None);
    bind(&mut bindings, "shift-right", InputAction::SelectRight, None);
    bind(&mut bindings, "cmd-a", InputAction::SelectAll, None);
    bind(&mut bindings, "cmd-v", InputAction::Paste, None);
    bind(&mut bindings, "cmd-c", InputAction::Copy, None);
    bind(&mut bindings, "cmd-x", InputAction::Cut, None);
    bind(&mut bindings, "home", InputAction::Home, None);
    bind(&mut bindings, "end", InputAction::End, None);
    bind(&mut bindings, "ctrl-cmd-space", InputAction::ShowCharacterPalette, None);
    assert(bindings.deep_view() =~= chatbox_bindings());
    bindings
}

/// The bindings of a text input within the assistant's window, for the host
/// to register.
pub fn register_keybindings() -> (r: Vec<KeyBinding>)
    ensures
        r.deep_view() == text_input_bindings(),
{
    let mut bindings: Vec<KeyBinding> = Vec::new();
    assert(bindings.deep_view() =~= Seq::<KeyBindingView>::empty());
    let context = Some("TextInput");
    bind(&mut bindings, "left", InputAction::Left, context);
    bind(&mut bindings, "right", InputAction::Right, context);
    bind(&mut bindings, "home", InputAction::Home, context);
    bind(&mut bindings, "end", InputAction::End, context);
    bind(&mut bindings, "cmd-left", InputAction::Home, context);
    bind(&mut bindings, "cmd-right", InputAction::End, context);
    bind(&mut bindings, "shift-left", InputAction::SelectLeft, context);
    bind(&mut bindings, "shift-right", InputAction::SelectRight, context);
    bind(&mut bindings, "cmd-a", InputAction::SelectAll, context);
    bind(&mut bindings, "backspace", InputAction::Backspace, context);
    bind(&mut bindings, "delete", InputAction::Delete, context);
    bind(&mut bindings, "cmd-c", InputAction::Copy, context);
    bind(&mut bindings, "cmd-v", InputAction::Paste, context);
    bind(&mut bindings, "cmd-x", InputAction::Cut, context);
    assert(bindings.deep_view() =~= text_input_bindings());
    bindings
}

} // verus!
