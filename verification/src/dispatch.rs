//! The wrapper state and the engine call each operation issues.
//!
//! An [`Enigo`] value holds the two pieces of mutable configuration —
//! the target window and the inter-event delay — that every dispatch
//! operation consults.  Each operation returns the [`EngineCall`] (or,
//! for the scroll operations, the ordered sequence of calls) to issue
//! across the C boundary; the contracts pin the call down field for
//! field.  The surrounding application owns the live engine session
//! and performs the calls.

use crate::keys::{button_code, key_token, keysequence, lemma_key_token_wf, mousebutton, Key,
    MouseButton};
use crate::search::{pid_search, Search, SEARCH_PID_MASK};
use vstd::prelude::*;
use vstd::string::*;

verus! {

/// Default inter-event delay in microseconds.
pub const DEFAULT_DELAY: u64 = 12000;

/// Sentinel window identifier meaning "whichever window has focus".
pub const CURRENT_WINDOW: i32 = 0;

/// Why a dispatch operation rejected its input.
#[derive(Clone, Copy, Debug, PartialEq, Eq)]
pub enum InputError {
    /// The text or token holds an embedded null character, which the
    /// engine's null-terminated boundary cannot carry.
    EmbeddedNull,
}

/// One call across the C boundary to the automation engine, with
/// every argument it takes.
#[derive(Debug, PartialEq, Eq)]
pub enum EngineCall {
    /// Give input focus to a window.
    FocusWindow { window: i32 },
    /// Ask for the owning process id of a window.
    WindowPid { window: i32 },
    /// Search for windows matching the criteria record.
    SearchWindows { search: Search },
    /// Move the mouse to absolute coordinates on a screen.
    MouseMove { x: i32, y: i32, screen: i32 },
    /// Move the mouse relative to its position.
    MouseMoveRelative { x: i32, y: i32 },
    /// Press a mouse button at a window.
    MouseDown { window: i32, button: i32 },
    /// Release a mouse button at a window.
    MouseUp { window: i32, button: i32 },
    /// Press and release a mouse button at a window.
    ClickWindow { window: i32, button: i32 },
    /// Enter literal text at a window, character by character.
    EnterText { window: i32, text: String, delay: u64 },
    /// Press the key a token names at a window.
    KeySequenceDown { window: i32, token: String, delay: u64 },
    /// Release the key a token names at a window.
    KeySequenceUp { window: i32, token: String, delay: u64 },
    /// Press and release the key a token names at a window.
    KeySequenceClick { window: i32, token: String, delay: u64 },
}

/// The scroll button a horizontal amount selects: left for negative,
/// right otherwise.
pub open spec fn scroll_x_button(length: i32) -> MouseButton {
    if length < 0 {
        MouseButton::ScrollLeft
    } else {
        MouseButton::ScrollRight
    }
}

/// The scroll button a vertical amount selects: up for negative, down
/// otherwise.
pub open spec fn scroll_y_button(length: i32) -> MouseButton {
    if length < 0 {
        MouseButton::ScrollUp
    } else {
        MouseButton::ScrollDown
    }
}

/// The magnitude of a scroll amount: how many discrete clicks it
/// issues.
pub open spec fn magnitude(length: i32) -> int {
    if length < 0 {
        -(length as int)
    } else {
        length as int
    }
}

/// Whether `s` holds an embedded null character.
pub fn contains_null_char(s: &str) -> (r: bool)
    ensures
        r == s@.contains('\0'),
{
    let n = s.unicode_len();
    let mut i: usize = 0;
    while i < n
        invariant
            n == s@.len(),
            i <= n,
            forall|j: int| 0 <= j < i ==> s@[j] != '\0',
        decreases n - i,
    {
        if s.get_char(i) == '\0' {
            proof {
                assert(s@[i as int] == '\0');
            }
            return true;
        }
        i += 1;
    }
    false
}

/// The wrapper state every dispatch operation consults: which window
/// to act on and how long to pause between synthetic key events.
pub struct Enigo {
    delay: u64,
    window: i32,
}

impl Default for Enigo {
    /// A fresh wrapper state: current-window target, default delay.
    fn default() -> (r: Self)
        ensures
            r.spec_delay() == DEFAULT_DELAY,
            r.spec_window() == CURRENT_WINDOW,
    {
        Enigo { delay: DEFAULT_DELAY, window: CURRENT_WINDOW }
    }
}

impl Enigo {
    /// The inter-event delay this state holds, in microseconds.
    pub closed spec fn spec_delay(&self) -> u64 {
        self.delay
    }

    /// The target window identifier this state holds.
    pub closed spec fn spec_window(&self) -> i32 {
        self.window
    }

    /// Get the delay per keypress in microseconds.
    pub fn delay(&self) -> (r: u64)
        ensures
            r == self.spec_delay(),
    {
        self.delay
    }

    /// Set the delay per keypress; the target window is untouched.
    pub fn set_delay(&mut self, delay: u64)
        ensures
            final(self).spec_delay() == delay,
            final(self).spec_window() == old(self).spec_window(),
    {
        self.delay = delay;
    }

    /// Get the target window identifier.
    pub fn window(&self) -> (r: i32)
        ensures
            r == self.spec_window(),
    {
        self.window
    }

    /// Set the target window identifier; the delay is untouched.  Any
    /// integer is accepted, the sentinel included.
    pub fn set_window(&mut self, window: i32)
        ensures
            final(self).spec_window() == window,
            final(self).spec_delay() == old(self).spec_delay(),
    {
        self.window = window;
    }

    /// The call that gives input focus to the target window.
    pub fn window_focus(&self) -> (call: EngineCall)
        ensures
            call == (EngineCall::FocusWindow { window: self.spec_window() }),
    {
        EngineCall::FocusWindow { window: self.window }
    }

    /// The call that asks for the owning process id of the target
    /// window.
    pub fn window_pid(&self) -> (call: EngineCall)
        ensures
            call == (EngineCall::WindowPid { window: self.spec_window() }),
    {
        EngineCall::WindowPid { window: self.window }
    }

    /// The search call for windows owned by `pid`: criteria with the
    /// pid set, depth fixed at 100, only the pid bit of the mask set,
    /// all other fields at their defaults.
    pub fn search_window_by_pid(&self, pid: i32) -> (call: EngineCall)
        ensures
            call == (EngineCall::SearchWindows { search: pid_search(pid) }),
    {
        let mut search = Search::default();
        search.pid = pid;
        search.max_depth = 100;
        search.searchmask = SEARCH_PID_MASK;
        EngineCall::SearchWindows { search }
    }

    /// The call that moves the mouse to absolute coordinates; the
    /// screen is fixed at 0.
    pub fn mouse_move_to(&self, x: i32, y: i32) -> (call: EngineCall)
        ensures
            call == (EngineCall::MouseMove { x: x, y: y, screen: 0 }),
    {
        EngineCall::MouseMove { x, y, screen: 0 }
    }

    /// The call that moves the mouse relative to its position.
    pub fn mouse_move_relative(&self, x: i32, y: i32) -> (call: EngineCall)
        ensures
            call == (EngineCall::MouseMoveRelative { x: x, y: y }),
    {
        EngineCall::MouseMoveRelative { x, y }
    }

    /// The call that presses `button` at the target window.
    pub fn mouse_down(&self, button: MouseButton) -> (call: EngineCall)
        ensures
            call == (EngineCall::MouseDown {
                window: self.spec_window(),
                button: button_code(button),
            }),
    {
        EngineCall::MouseDown { window: self.window, button: mousebutton(button) }
    }

    /// The call that releases `button` at the target window.
    pub fn mouse_up(&self, button: MouseButton) -> (call: EngineCall)
        ensures
            call == (EngineCall::MouseUp {
                window: self.spec_window(),
                button: button_code(button),
            }),
    {
        EngineCall::MouseUp { window: self.window, button: mousebutton(button) }
    }

    /// The call that presses and releases `button` at the target
    /// window.
    pub fn mouse_click(&self, button: MouseButton) -> (call: EngineCall)
        ensures
            call == (EngineCall::ClickWindow {
                window: self.spec_window(),
                button: button_code(button),
            }),
    {
        EngineCall::ClickWindow { window: self.window, button: mousebutton(button) }
    }

    /// The horizontal scroll: `|length|` clicks of the scroll button
    /// the sign of `length` selects, in order, at the target window.
    /// Zero issues no clicks.
    pub fn mouse_scroll_x(&self, length: i32) -> (calls: Vec<EngineCall>)
        ensures
            calls@.len() == magnitude(length),
            forall|i: int|
                0 <= i < calls@.len() ==> calls@[i] == (EngineCall::ClickWindow {
                    window: self.spec_window(),
                    button: button_code(scroll_x_button(length)),
                }),
    {
        let button = if length < 0 {
            MouseButton::ScrollLeft
        } else {
            MouseButton::ScrollRight
        };
        let count: u64 = if length < 0 {
            (-(length as i64)) as u64
        } else {
            length as u64
        };
        let mut calls: Vec<EngineCall> = Vec::new();
        let mut i: u64 = 0;
        while i < count
            invariant
                i <= count,
                count == magnitude(length),
                button == scroll_x_button(length),
                calls@.len() == i,
                forall|j: int|
                    0 <= j < i ==> calls@[j] == (EngineCall::ClickWindow {
                        window: self.spec_window(),
                        button: button_code(scroll_x_button(length)),
                    }),
            decreases count - i,
        {
            calls.push(self.mouse_click(button));
            i += 1;
        }
        calls
    }

    /// The vertical scroll: `|length|` clicks of the scroll button
    /// the sign of `length` selects, in order, at the target window.
    /// Zero issues no clicks.
    pub fn mouse_scroll_y(&self, length: i32) -> (calls: Vec<EngineCall>)
        ensures
            calls@.len() == magnitude(length),
            forall|i: int|
                0 <= i < calls@.len() ==> calls@[i] == (EngineCall::ClickWindow {
                    window: self.spec_window(),
                    button: button_code(scroll_y_button(length)),
                }),
    {
        let button = if length < 0 {
            MouseButton::ScrollUp
        } else {
            MouseButton::ScrollDown
        };
        let count: u64 = if length < 0 {
            (-(length as i64)) as u64
        } else {
            length as u64
        };
        let mut calls: Vec<EngineCall> = Vec::new();
        let mut i: u64 = 0;
        while i < count
            invariant
                i <= count,
                count == magnitude(length),
                button == scroll_y_button(length),
                calls@.len() == i,
                forall|j: int|
                    0 <= j < i ==> calls@[j] == (EngineCall::ClickWindow {
                        window: self.spec_window(),
                        button: button_code(scroll_y_button(length)),
                    }),
            decreases count - i,
        {
            calls.push(self.mouse_click(button));
            i += 1;
        }
        calls
    }

    /// The call that enters `sequence` literally at the target window
    /// with the current delay, or the invalid-input failure if the
    /// text holds an embedded null character, which the engine's
    /// null-terminated boundary cannot carry.
    pub fn key_sequence(&self, sequence: &str) -> (r: Result<EngineCall, InputError>)
        ensures
            (r matches Ok(_)) <==> !sequence@.contains('\0'),
            r matches Ok(call) ==> (call matches EngineCall::EnterText { window, text, delay }
                && window == self.spec_window()
                && text@ == sequence@
                && delay == self.spec_delay()),
            r matches Err(e) ==> e == InputError::EmbeddedNull,
    {
        if contains_null_char(sequence) {
            Err(InputError::EmbeddedNull)
        } else {
            Ok(EngineCall::EnterText {
                window: self.window,
                text: sequence.to_owned(),
                delay: self.delay,
            })
        }
    }

    /// The call that presses the key `key` names at the target window
    /// with the current delay.  The token is checked for an embedded
    /// null character, but the mapping never produces one, so the
    /// call is always returned.
    pub fn key_down(&self, key: Key) -> (r: Result<EngineCall, InputError>)
        ensures
            r matches Ok(_),
            (r matches Ok(_)) <==> !key_token(key).contains('\0'),
            r matches Ok(call) ==> (call matches EngineCall::KeySequenceDown {
                window,
                token,
                delay,
            } && window == self.spec_window()
                && token@ == key_token(key)
                && delay == self.spec_delay()),
    {
        proof {
            lemma_key_token_wf(key);
        }
        let token = keysequence(key);
        if contains_null_char(token.as_str()) {
            Err(InputError::EmbeddedNull)
        } else {
            Ok(EngineCall::KeySequenceDown { window: self.window, token, delay: self.delay })
        }
    }

    /// The call that releases the key `key` names at the target
    /// window with the current delay.  The token is checked for an
    /// embedded null character, but the mapping never produces one,
    /// so the call is always returned.
    pub fn key_up(&self, key: Key) -> (r: Result<EngineCall, InputError>)
        ensures
            r matches Ok(_),
            (r matches Ok(_)) <==> !key_token(key).contains('\0'),
            r matches Ok(call) ==> (call matches EngineCall::KeySequenceUp {
                window,
                token,
                delay,
            } && window == self.spec_window()
                && token@ == key_token(key)
                && delay == self.spec_delay()),
    {
        proof {
            lemma_key_token_wf(key);
        }
        let token = keysequence(key);
        if contains_null_char(token.as_str()) {
            Err(InputError::EmbeddedNull)
        } else {
            Ok(EngineCall::KeySequenceUp { window: self.window, token, delay: self.delay })
        }
    }

    /// The call that presses and releases the key `key` names at the
    /// target window with the current delay.  The token is checked
    /// for an embedded null character, but the mapping never produces
    /// one, so the call is always returned.
    pub fn key_click(&self, key: Key) -> (r: Result<EngineCall, InputError>)
        ensures
            r matches Ok(_),
            (r matches Ok(_)) <==> !key_token(key).contains('\0'),
            r matches Ok(call) ==> (call matches EngineCall::KeySequenceClick {
                window,
                token,
                delay,
            } && window == self.spec_window()
                && token@ == key_token(key)
                && delay == self.spec_delay()),
    {
        proof {
            lemma_key_token_wf(key);
        }
        let token = keysequence(key);
        if contains_null_char(token.as_str()) {
            Err(InputError::EmbeddedNull)
        } else {
            Ok(EngineCall::KeySequenceClick { window: self.window, token, delay: self.delay })
        }
    }
}

} // verus!
