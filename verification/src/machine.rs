//! The screen state machine: the top-level state of the shell, the menu and
//! the text buffer it owns, and the transition table that maps one input key
//! to one mutation or state change.

use vstd::prelude::*;
use crate::buffer::TextBuffer;
use crate::menu::MenuModel;
use crate::menu::index_after_next;
use crate::menu::index_after_prev;

verus! {

/// Which screen is active. Exactly one at any time; it gates which input
/// table applies.
#[derive(Clone, Copy, Debug, PartialEq, Eq)]
pub enum ScreenState {
    Main,
    Editing,
    Popup,
    Exiting,
}

/// One keyboard event, as the state machine sees it. Key codes the table does
/// not name arrive as `Other` and are ignored in every state.
#[derive(Clone, Copy, Debug, PartialEq, Eq)]
pub enum InputKey {
    Up,
    Down,
    Enter,
    Esc,
    Backspace,
    Char(char),
    Other,
}

/// The mathematical state of the machine: the active screen, the menu labels
/// and selection, and the buffer content.
#[verifier::ext_equal]
pub struct MachineView {
    pub state: ScreenState,
    pub labels: Seq<Seq<char>>,
    pub selected: Option<usize>,
    pub content: Seq<char>,
}

/// The transition table: the state after one key, from any state. Keys
/// without an entry for the current state leave everything unchanged.
pub open spec fn step(v: MachineView, key: InputKey) -> MachineView {
    match v.state {
        ScreenState::Exiting => v,
        ScreenState::Popup => match key {
            InputKey::Esc | InputKey::Enter => MachineView { state: ScreenState::Main, ..v },
            _ => v,
        },
        ScreenState::Main => match key {
            InputKey::Down => MachineView {
                selected: Some(index_after_next(v.selected, v.labels.len())),
                ..v
            },
            InputKey::Up => MachineView {
                selected: Some(index_after_prev(v.selected, v.labels.len())),
                ..v
            },
            InputKey::Enter => match v.selected {
                Some(i) => if 0 <= i < v.labels.len() && v.labels[i as int] == "Quit"@ {
                    MachineView { state: ScreenState::Exiting, ..v }
                } else if 0 <= i < v.labels.len() && v.labels[i as int] == "Open"@ {
                    MachineView { state: ScreenState::Popup, ..v }
                } else {
                    v
                },
                None => v,
            },
            InputKey::Char(c) => if c == 'q' {
                MachineView { state: ScreenState::Exiting, ..v }
            } else if c == 'e' {
                MachineView { state: ScreenState::Editing, ..v }
            } else {
                v
            },
            _ => v,
        },
        ScreenState::Editing => match key {
            InputKey::Esc => MachineView { state: ScreenState::Main, ..v },
            InputKey::Char(c) => MachineView { content: v.content.push(c), ..v },
            InputKey::Enter => MachineView { content: v.content.push('\n'), ..v },
            InputKey::Backspace => if v.content.len() > 0 {
                MachineView { content: v.content.drop_last(), ..v }
            } else {
                v
            },
            _ => v,
        },
    }
}

/// The whole shell: the active screen, the menu, and the text buffer.
pub struct ScreenStateMachine {
    pub state: ScreenState,
    pub menu: MenuModel,
    pub buffer: TextBuffer,
}

impl View for ScreenStateMachine {
    type V = MachineView;

    open spec fn view(&self) -> MachineView {
        MachineView {
            state: self.state,
            labels: self.menu.items.deep_view(),
            selected: self.menu.selected,
            content: self.buffer@,
        }
    }
}

impl ScreenStateMachine {
    /// The menu is never empty and its selection is always set and in range.
    pub open spec fn wf(self) -> bool {
        self.menu.wf()
    }

    /// The initial machine: the Main screen, the four stock menu actions with
    /// the first selected, and an empty buffer.
    pub fn new() -> (m: ScreenStateMachine)
        ensures
            m.wf(),
            m@.state == ScreenState::Main,
            m@.selected == Some(0usize),
            m@.content == Seq::<char>::empty(),
            m@.labels =~= seq!["New File"@, "Open"@, "Save"@, "Quit"@],
    {
        let mut items: Vec<String> = Vec::new();
        items.push("New File".to_owned());
        items.push("Open".to_owned());
        items.push("Save".to_owned());
        items.push("Quit".to_owned());
        ScreenStateMachine {
            state: ScreenState::Main,
            menu: MenuModel::new(items),
            buffer: TextBuffer::new(),
        }
    }

    /// Apply one input key: exactly the transition table, including every
    /// ignored key as an explicit no-op.
    pub fn handle_key(&mut self, key: InputKey)
        requires
            old(self).wf(),
        ensures
            final(self)@ =~= step(old(self)@, key),
            final(self).wf(),
    {
        match self.state {
            ScreenState::Exiting => {},
            ScreenState::Popup => {
                match key {
                    InputKey::Esc | InputKey::Enter => {
                        self.state = ScreenState::Main;
                    },
                    _ => {},
                }
            },
            ScreenState::Main => {
                match key {
                    InputKey::Down => {
                        self.menu.next();
                    },
                    InputKey::Up => {
                        self.menu.previous();
                    },
                    InputKey::Enter => {
                        if let Some(i) = self.menu.selected {
                            if self.menu.items[i] == "Quit".to_owned() {
                                self.state = ScreenState::Exiting;
                            } else if self.menu.items[i] == "Open".to_owned() {
                                self.state = ScreenState::Popup;
                            }
                        }
                    },
                    InputKey::Char(c) => {
                        if c == 'q' {
                            self.state = ScreenState::Exiting;
                        } else if c == 'e' {
                            self.state = ScreenState::Editing;
                        }
                    },
                    _ => {},
                }
            },
            ScreenState::Editing => {
                match key {
                    InputKey::Esc => {
                        self.state = ScreenState::Main;
                    },
                    InputKey::Char(c) => {
                        self.buffer.append_char(c);
                    },
                    InputKey::Backspace => {
                        self.buffer.backspace();
                    },
                    InputKey::Enter => {
                        self.buffer.append_newline();
                    },
                    _ => {},
                }
            },
        }
    }
}

} // verus!
