//! Which action a key stands for, by the mode the front end is in.

use vstd::prelude::*;
use crate::tui::app::{Action, App, InputMode, InputView, Tab};

verus! {

/// A key of the keyboard.
#[derive(Debug, Clone, Copy, PartialEq, Eq, Structural)]
pub enum KeyCode {
    Char(char),
    Enter,
    Esc,
    Backspace,
    Tab,
    BackTab,
    Left,
    Right,
    Up,
    Down,
    Other,
}

/// A keypress.
#[derive(Debug, Clone, Copy, PartialEq, Eq, Structural)]
pub struct Key {
    pub code: KeyCode,
    /// Whether the control key is held.
    pub control: bool,
}

/// While text is typed: everything goes into the text but the keys that end it.
pub open spec fn typing_action(code: KeyCode) -> Option<Action> {
    match code {
        KeyCode::Enter => Some(Action::SubmitInput),
        KeyCode::Esc => Some(Action::CancelInput),
        KeyCode::Backspace => Some(Action::Backspace),
        KeyCode::Char(c) => Some(Action::InputChar(c)),
        _ => None,
    }
}

/// Whether a key quits: `q`, or `c` with control.
pub open spec fn quits(key: Key) -> bool {
    key.code == KeyCode::Char('q') || (key.code == KeyCode::Char('c') && key.control)
}

/// While the detail panel is open.
pub open spec fn detail_action(key: Key) -> Option<Action> {
    if quits(key) {
        Some(Action::Quit)
    } else {
        match key.code {
            KeyCode::Esc | KeyCode::Enter => Some(Action::CloseDetail),
            KeyCode::Char(c) => if c == 'b' {
                Some(Action::CloseDetail)
            } else if c == 'x' {
                Some(Action::Execute)
            } else if c == 'p' {
                Some(Action::Preview)
            } else if c == 'A' {
                Some(Action::ToggleArm)
            } else {
                None
            },
            _ => None,
        }
    }
}

/// While a knob is edited: other keys are swallowed.
pub open spec fn edit_action(key: Key) -> Option<Action> {
    if quits(key) {
        Some(Action::Quit)
    } else {
        match key.code {
            KeyCode::Up => Some(Action::SettingAdjust(1)),
            KeyCode::Down => Some(Action::SettingAdjust((-1) as i32)),
            KeyCode::Enter | KeyCode::Esc => Some(Action::ToggleSettingEdit),
            KeyCode::Char(c) => if c == 'k' {
                Some(Action::SettingAdjust(1))
            } else if c == 'j' {
                Some(Action::SettingAdjust((-1) as i32))
            } else {
                None
            },
            _ => None,
        }
    }
}

/// What a character stands for on any tab.
pub open spec fn browse_char(tab: Tab, c: char) -> Option<Action> {
    if '1' <= c && c <= '8' {
        Some(Action::JumpTab((c as u32 - '1' as u32) as usize))
    } else if c == 'j' {
        Some(Action::Down)
    } else if c == 'k' {
        Some(Action::Up)
    } else if c == 'a' {
        Some(Action::StartAddSymbol)
    } else if c == 'L' {
        Some(Action::StartLiveConfirm)
    } else if c == 'd' {
        Some(Action::DeleteSelected)
    } else if c == 'r' {
        Some(Action::Refresh)
    } else if c == '?' {
        Some(Action::JumpTab(7))
    } else if c == 'A' {
        Some(Action::ToggleArm)
    } else if c == 'p' {
        Some(Action::Preview)
    } else if c == 'x' {
        Some(Action::Execute)
    } else if tab != Tab::ZeroDte {
        None
    } else if c == 't' {
        Some(Action::ToggleAutomate)
    } else if c == '+' || c == '=' {
        Some(Action::SlotRisk(1))
    } else if c == '-' || c == '_' {
        Some(Action::SlotRisk((-1) as i32))
    } else if c == ']' {
        Some(Action::SlotProfit(1))
    } else if c == '[' {
        Some(Action::SlotProfit((-1) as i32))
    } else {
        None
    }
}

/// What a key stands for on any tab.
pub open spec fn browse_action(tab: Tab, key: Key) -> Option<Action> {
    if quits(key) {
        Some(Action::Quit)
    } else {
        match key.code {
            KeyCode::Tab | KeyCode::Right => Some(Action::NextTab),
            KeyCode::BackTab | KeyCode::Left => Some(Action::PrevTab),
            KeyCode::Down => Some(Action::Down),
            KeyCode::Up => Some(Action::Up),
            KeyCode::Enter => if tab == Tab::Suggestions || tab == Tab::HedgedWheel || tab
                == Tab::ZeroDte {
                Some(Action::OpenDetail)
            } else {
                None
            },
            KeyCode::Char(c) => browse_char(tab, c),
            _ => None,
        }
    }
}

/// The action of a key. Typing comes first, then the detail panel, then the knob
/// being edited; only while a knob is edited do the arrows change it.
pub open spec fn key_action(app: App, key: Key) -> Option<Action> {
    if app.input@ != InputView::Normal {
        typing_action(key.code)
    } else if app.detail_open {
        detail_action(key)
    } else if app.tab == Tab::Settings && app.settings_editing {
        edit_action(key)
    } else if app.tab == Tab::Settings && key.code == KeyCode::Enter {
        Some(Action::ToggleSettingEdit)
    } else {
        browse_action(app.tab, key)
    }
}

fn is_quit(key: Key) -> (r: bool)
    ensures
        r == quits(key),
{
    match key.code {
        KeyCode::Char(c) => c == 'q' || (c == 'c' && key.control),
        _ => false,
    }
}

fn browse_key(tab: Tab, c: char) -> (r: Option<Action>)
    ensures
        r == browse_char(tab, c),
{
    if '1' <= c && c <= '8' {
        Some(Action::JumpTab((c as u32 - '1' as u32) as usize))
    } else if c == 'j' {
        Some(Action::Down)
    } else if c == 'k' {
        Some(Action::Up)
    } else if c == 'a' {
        Some(Action::StartAddSymbol)
    } else if c == 'L' {
        Some(Action::StartLiveConfirm)
    } else if c == 'd' {
        Some(Action::DeleteSelected)
    } else if c == 'r' {
        Some(Action::Refresh)
    } else if c == '?' {
        Some(Action::JumpTab(Tab::Help.index()))
    } else if c == 'A' {
        Some(Action::ToggleArm)
    } else if c == 'p' {
        Some(Action::Preview)
    } else if c == 'x' {
        Some(Action::Execute)
    } else if tab != Tab::ZeroDte {
        None
    } else if c == 't' {
        Some(Action::ToggleAutomate)
    } else if c == '+' || c == '=' {
        Some(Action::SlotRisk(1))
    } else if c == '-' || c == '_' {
        Some(Action::SlotRisk(-1))
    } else if c == ']' {
        Some(Action::SlotProfit(1))
    } else if c == '[' {
        Some(Action::SlotProfit(-1))
    } else {
        None
    }
}

impl App {
    /// Maps a keypress to an action.
    pub fn handle_key(&self, key: Key) -> (r: Option<Action>)
        ensures
            r == key_action(*self, key),
    {
        let typing = match self.input {
            InputMode::Normal => false,
            _ => true,
        };
        if typing {
            return match key.code {
                KeyCode::Enter => Some(Action::SubmitInput),
                KeyCode::Esc => Some(Action::CancelInput),
                KeyCode::Backspace => Some(Action::Backspace),
                KeyCode::Char(c) => Some(Action::InputChar(c)),
                _ => None,
            };
        }
        if self.detail_open {
            if is_quit(key) {
                return Some(Action::Quit);
            }
            return match key.code {
                KeyCode::Esc | KeyCode::Enter => Some(Action::CloseDetail),
                KeyCode::Char(c) => if c == 'b' {
                    Some(Action::CloseDetail)
                } else if c == 'x' {
                    Some(Action::Execute)
                } else if c == 'p' {
                    Some(Action::Preview)
                } else if c == 'A' {
                    Some(Action::ToggleArm)
                } else {
                    None
                },
                _ => None,
            };
        }
        if self.tab == Tab::Settings {
            if self.settings_editing {
                if is_quit(key) {
                    return Some(Action::Quit);
                }
                return match key.code {
                    KeyCode::Up => Some(Action::SettingAdjust(1)),
                    KeyCode::Down => Some(Action::SettingAdjust(-1)),
                    KeyCode::Enter | KeyCode::Esc => Some(Action::ToggleSettingEdit),
                    KeyCode::Char(c) => if c == 'k' {
                        Some(Action::SettingAdjust(1))
                    } else if c == 'j' {
                        Some(Action::SettingAdjust(-1))
                    } else {
                        None
                    },
                    _ => None,
                };
            }
            if key.code == KeyCode::Enter {
                return Some(Action::ToggleSettingEdit);
            }
        }
        if is_quit(key) {
            return Some(Action::Quit);
        }
        match key.code {
            KeyCode::Tab | KeyCode::Right => Some(Action::NextTab),
            KeyCode::BackTab | KeyCode::Left => Some(Action::PrevTab),
            KeyCode::Down => Some(Action::Down),
            KeyCode::Up => Some(Action::Up),
            KeyCode::Enter => if matches!(
                self.tab,
                Tab::Suggestions | Tab::HedgedWheel | Tab::ZeroDte
            ) {
                Some(Action::OpenDetail)
            } else {
                None
            },
            KeyCode::Char(c) => browse_key(self.tab, c),
            _ => None,
        }
    }
}

/// Typed text never triggers an order: while text is typed no key executes,
/// previews or arms; and a knob being edited can only be changed, confirmed, or
/// left by quitting.
pub proof fn law_typing_is_safe(app: App, key: Key)
    ensures
        app.input@ != InputView::Normal ==> key_action(app, key) != Some(Action::Execute)
            && key_action(app, key) != Some(Action::Preview) && key_action(app, key) != Some(
            Action::ToggleArm,
        ) && key_action(app, key) != Some(Action::Quit),
        app.input@ == InputView::Normal && !app.detail_open && app.tab == Tab::Settings
            && app.settings_editing ==> key_action(app, key) != Some(Action::Execute) && key_action(
            app,
            key,
        ) != Some(Action::NextTab) && key_action(app, key) != Some(Action::PrevTab),
{
}

} // verus!
