//! The abstract key and mouse-button vocabulary and its wire format.
//!
//! The engine's key-sequence parser takes textual tokens and its mouse
//! calls take integer button codes.  Both mappings are a fixed wire
//! contract: every symbolic key has one token, the Unicode escape
//! hatch becomes `"U"` plus uppercase hex, the raw-keycode escape
//! hatch becomes plain decimal, and the seven buttons map to the codes
//! 1 through 7 in declaration order.

use crate::numerals::{dec_rep, dec_string, hex_rep, hex_string, lemma_dec_rep_wf,
    lemma_hex_rep_wf};
use vstd::prelude::*;
use vstd::string::*;

verus! {

/// One of the seven abstract mouse buttons, scroll directions
/// included.
#[derive(Clone, Copy, Debug, PartialEq, Eq)]
pub enum MouseButton {
    Left,
    Middle,
    Right,
    ScrollUp,
    ScrollDown,
    ScrollLeft,
    ScrollRight,
}

/// An abstract key: a closed symbolic set plus two escape hatches, a
/// Unicode code point (`Layout`) and a raw platform keycode (`Raw`).
#[derive(Clone, Copy, Debug, PartialEq, Eq)]
pub enum Key {
    Alt,
    Backspace,
    CapsLock,
    Command,
    Control,
    Delete,
    DownArrow,
    End,
    Escape,
    F1,
    F2,
    F3,
    F4,
    F5,
    F6,
    F7,
    F8,
    F9,
    F10,
    F11,
    F12,
    Home,
    Layout(char),
    LeftArrow,
    Meta,
    Option,
    PageDown,
    PageUp,
    Raw(u16),
    Return,
    RightArrow,
    Shift,
    Space,
    Super,
    Tab,
    UpArrow,
    Windows,
}

/// The wire code of a mouse button: 1 through 7 in declaration order.
pub open spec fn button_code(button: MouseButton) -> i32 {
    match button {
        MouseButton::Left => 1,
        MouseButton::Middle => 2,
        MouseButton::Right => 3,
        MouseButton::ScrollUp => 4,
        MouseButton::ScrollDown => 5,
        MouseButton::ScrollLeft => 6,
        MouseButton::ScrollRight => 7,
    }
}

/// The token the engine's key-sequence parser understands for `key`.
pub open spec fn key_token(key: Key) -> Seq<char> {
    match key {
        Key::Layout(c) => seq!['U'] + hex_rep(c as nat),
        Key::Raw(k) => dec_rep(k as nat),
        Key::Alt => "Alt"@,
        Key::Backspace => "BackSpace"@,
        Key::CapsLock => "Caps_Lock"@,
        Key::Control => "Control"@,
        Key::Delete => "Delete"@,
        Key::DownArrow => "Down"@,
        Key::End => "End"@,
        Key::Escape => "Escape"@,
        Key::F1 => "F1"@,
        Key::F2 => "F2"@,
        Key::F3 => "F3"@,
        Key::F4 => "F4"@,
        Key::F5 => "F5"@,
        Key::F6 => "F6"@,
        Key::F7 => "F7"@,
        Key::F8 => "F8"@,
        Key::F9 => "F9"@,
        Key::F10 => "F10"@,
        Key::F11 => "F11"@,
        Key::F12 => "F12"@,
        Key::Home => "Home"@,
        Key::LeftArrow => "Left"@,
        Key::Option => "Option"@,
        Key::PageDown => "Page_Down"@,
        Key::PageUp => "Page_Up"@,
        Key::Return => "Return"@,
        Key::RightArrow => "Right"@,
        Key::Shift => "Shift"@,
        Key::Space => "space"@,
        Key::Tab => "Tab"@,
        Key::UpArrow => "Up"@,
        Key::Command | Key::Super | Key::Windows | Key::Meta => "Super"@,
    }
}

/// The integer code the engine expects for `button`.
pub fn mousebutton(button: MouseButton) -> (code: i32)
    ensures
        code == button_code(button),
        1 <= code <= 7,
{
    match button {
        MouseButton::Left => 1,
        MouseButton::Middle => 2,
        MouseButton::Right => 3,
        MouseButton::ScrollUp => 4,
        MouseButton::ScrollDown => 5,
        MouseButton::ScrollLeft => 6,
        MouseButton::ScrollRight => 7,
    }
}

/// The textual key-sequence token for `key`.
pub fn keysequence(key: Key) -> (token: String)
    ensures
        token@ == key_token(key),
{
    match key {
        Key::Layout(c) => {
            let mut s = "U".to_owned();
            let h = hex_string(c as u32);
            s.append(h.as_str());
            proof {
                reveal_strlit("U");
                assert(s@ =~= key_token(key));
            }
            s
        },
        Key::Raw(k) => dec_string(k),
        Key::Alt => "Alt".to_owned(),
        Key::Backspace => "BackSpace".to_owned(),
        Key::CapsLock => "Caps_Lock".to_owned(),
        Key::Control => "Control".to_owned(),
        Key::Delete => "Delete".to_owned(),
        Key::DownArrow => "Down".to_owned(),
        Key::End => "End".to_owned(),
        Key::Escape => "Escape".to_owned(),
        Key::F1 => "F1".to_owned(),
        Key::F2 => "F2".to_owned(),
        Key::F3 => "F3".to_owned(),
        Key::F4 => "F4".to_owned(),
        Key::F5 => "F5".to_owned(),
        Key::F6 => "F6".to_owned(),
        Key::F7 => "F7".to_owned(),
        Key::F8 => "F8".to_owned(),
        Key::F9 => "F9".to_owned(),
        Key::F10 => "F10".to_owned(),
        Key::F11 => "F11".to_owned(),
        Key::F12 => "F12".to_owned(),
        Key::Home => "Home".to_owned(),
        Key::LeftArrow => "Left".to_owned(),
        Key::Option => "Option".to_owned(),
        Key::PageDown => "Page_Down".to_owned(),
        Key::PageUp => "Page_Up".to_owned(),
        Key::Return => "Return".to_owned(),
        Key::RightArrow => "Right".to_owned(),
        Key::Shift => "Shift".to_owned(),
        Key::Space => "space".to_owned(),
        Key::Tab => "Tab".to_owned(),
        Key::UpArrow => "Up".to_owned(),
        Key::Command => "Super".to_owned(),
        Key::Super => "Super".to_owned(),
        Key::Windows => "Super".to_owned(),
        Key::Meta => "Super".to_owned(),
    }
}

/// Every key token is non-empty and free of null characters: the
/// fixed symbolic tokens by inspection, and the two escape hatches
/// because digit strings never render a null glyph.  Dispatch
/// operations that reject null-bearing tokens therefore always accept
/// a token this mapping produced.
pub proof fn lemma_key_token_wf(key: Key)
    ensures
        key_token(key).len() >= 1,
        !key_token(key).contains('\0'),
{
    reveal_strlit("Alt");
    reveal_strlit("BackSpace");
    reveal_strlit("Caps_Lock");
    reveal_strlit("Control");
    reveal_strlit("Delete");
    reveal_strlit("Down");
    reveal_strlit("End");
    reveal_strlit("Escape");
    reveal_strlit("F1");
    reveal_strlit("F2");
    reveal_strlit("F3");
    reveal_strlit("F4");
    reveal_strlit("F5");
    reveal_strlit("F6");
    reveal_strlit("F7");
    reveal_strlit("F8");
    reveal_strlit("F9");
    reveal_strlit("F10");
    reveal_strlit("F11");
    reveal_strlit("F12");
    reveal_strlit("Home");
    reveal_strlit("Left");
    reveal_strlit("Option");
    reveal_strlit("Page_Down");
    reveal_strlit("Page_Up");
    reveal_strlit("Return");
    reveal_strlit("Right");
    reveal_strlit("Shift");
    reveal_strlit("space");
    reveal_strlit("Tab");
    reveal_strlit("Up");
    reveal_strlit("Super");
    match key {
        Key::Layout(c) => {
            lemma_hex_rep_wf(c as nat);
            let t = key_token(key);
            assert forall|i: int| 0 <= i < t.len() implies t[i] != '\0' by {
                if i == 0 {
                    assert(t[i] == 'U');
                } else {
                    assert(t[i] == hex_rep(c as nat)[i - 1]);
                }
            }
        },
        Key::Raw(k) => {
            lemma_dec_rep_wf(k as nat);
            let t = key_token(key);
            assert forall|i: int| 0 <= i < t.len() implies t[i] != '\0' by {
                assert(t[i] == dec_rep(k as nat)[i]);
            }
        },
        _ => {},
    }
}

/// Every abstract mouse button maps to a code between 1 and 7.
pub proof fn lemma_button_code_range(button: MouseButton)
    ensures
        1 <= button_code(button) <= 7,
{
}

/// The four platform synonyms for the super/command modifier all
/// collapse to the single token `"Super"`.
pub proof fn lemma_super_synonyms()
    ensures
        key_token(Key::Command) == "Super"@,
        key_token(Key::Super) == "Super"@,
        key_token(Key::Windows) == "Super"@,
        key_token(Key::Meta) == "Super"@,
{
}

} // verus!
