use vstd::prelude::*;
use crate::api::SendDanmuData;
use crate::editor::{erased, typed, InputEditor};
use crate::phase::{phase_step, toggled, AppState, InputMode, PhaseEvent};
use crate::state::TuiState;
use crate::tabs::{Tab, Tabs, TAB_COUNT};

verus! {

/// A key press, as far as the keymap tells keys apart.
#[derive(Clone, Copy, Debug, PartialEq, Eq, Structural)]
pub enum Key {
    Up,
    Down,
    Enter,
    Esc,
    Backspace,
    Char(char),
    Other,
}

/// What a key press asks for.
#[derive(Clone, Copy, Debug, PartialEq, Eq, Structural)]
pub enum KeyAction {
    PreviousTab,
    NextTab,
    ScrollUp,
    ScrollDown,
    Phase(PhaseEvent),
    ToggleSidebar,
    StartEditing,
    Submit,
    StopEditing,
    Type(char),
    Erase,
    Ignore,
}

/// The keymap. Navigation keys work while running; `q` asks to quit and,
/// asked again, quits; `y` and `n` answer a pending quit; Enter starts a chat
/// line only for a viewer with a credential. While editing, keys go to the
/// line, but for the arrows, Enter (send) and Esc (drop the line).
pub open spec fn key_action(mode: InputMode, phase: AppState, has_cookie: bool, key: Key) -> KeyAction {
    let running = phase == AppState::Running;
    let quitting = phase == AppState::Quitting;
    match mode {
        InputMode::Normal => match key {
            Key::Up => if running {
                KeyAction::PreviousTab
            } else {
                KeyAction::Ignore
            },
            Key::Down => if running {
                KeyAction::NextTab
            } else {
                KeyAction::Ignore
            },
            Key::Char(c) => if c == 'w' && running {
                KeyAction::ScrollUp
            } else if c == 's' && running {
                KeyAction::ScrollDown
            } else if c == 'q' && (running || quitting) {
                KeyAction::Phase(PhaseEvent::QuitRequest)
            } else if c == 'y' && quitting {
                KeyAction::Phase(PhaseEvent::Confirm)
            } else if c == 'n' && quitting {
                KeyAction::Phase(PhaseEvent::Cancel)
            } else if c == 't' && running {
                KeyAction::ToggleSidebar
            } else {
                KeyAction::Ignore
            },
            Key::Enter => if running && has_cookie {
                KeyAction::StartEditing
            } else {
                KeyAction::Ignore
            },
            _ => KeyAction::Ignore,
        },
        InputMode::Editing => match key {
            Key::Up => KeyAction::PreviousTab,
            Key::Down => KeyAction::NextTab,
            Key::Enter => KeyAction::Submit,
            Key::Esc => KeyAction::StopEditing,
            Key::Char(c) => KeyAction::Type(c),
            Key::Backspace => KeyAction::Erase,
            Key::Other => KeyAction::Ignore,
        },
    }
}

/// Whether `a` hands a chat line to the outbox, given the line `buf`.
pub open spec fn submits(a: KeyAction, buf: Seq<char>) -> bool {
    a == KeyAction::Submit && buf.len() > 0
}

pub open spec fn selected_after(sel: int, a: KeyAction) -> int {
    match a {
        KeyAction::PreviousTab => (sel + TAB_COUNT - 1) % (TAB_COUNT as int),
        KeyAction::NextTab => (sel + 1) % (TAB_COUNT as int),
        _ => sel,
    }
}

pub open spec fn tabs_after(tabs: Seq<Tab>, sel: int, a: KeyAction) -> Seq<Tab> {
    match a {
        KeyAction::ScrollUp => tabs.update(sel, tabs[sel].scrolled_up()),
        KeyAction::ScrollDown => tabs.update(sel, tabs[sel].scrolled_down()),
        _ => tabs,
    }
}

pub open spec fn mode_after(mode: InputMode, buf: Seq<char>, a: KeyAction) -> InputMode {
    match a {
        KeyAction::StartEditing => InputMode::Editing,
        KeyAction::Submit => if buf.len() > 0 {
            InputMode::Normal
        } else {
            mode
        },
        KeyAction::StopEditing => InputMode::Normal,
        _ => mode,
    }
}

pub open spec fn buffer_after(buf: Seq<char>, a: KeyAction) -> Seq<char> {
    match a {
        KeyAction::Submit => if buf.len() > 0 {
            Seq::empty()
        } else {
            buf
        },
        KeyAction::StopEditing => Seq::empty(),
        KeyAction::Type(c) => typed(buf, c),
        KeyAction::Erase => erased(buf),
        _ => buf,
    }
}

pub open spec fn state_after(s: TuiState, a: KeyAction) -> TuiState {
    match a {
        KeyAction::Phase(e) => s.with_phase(phase_step(s.state, e)),
        KeyAction::ToggleSidebar => TuiState { slider_bar_state: toggled(s.slider_bar_state), ..s },
        _ => s,
    }
}

pub open spec fn not_logged_in_text() -> Seq<char> {
    "未登录"@
}

/// A chat line to hand to the chat endpoint, or nothing to do.
#[derive(Clone, Debug)]
pub enum Outbound {
    Idle,
    Send { room_id: u32, content: String, cookie: String },
}

/// The render/input side of the client: the input mode, the tab set, the
/// chat line being typed, lines waiting to be sent, and the last send error.
#[derive(Clone, Debug)]
pub struct App {
    pub input_mode: InputMode,
    pub tabs: Tabs,
    pub textarea: InputEditor,
    pub will_send_message: Vec<String>,
    pub err_text: Option<String>,
}

impl App {
    pub open spec fn wf(&self) -> bool {
        self.tabs.wf() && self.textarea.wf()
    }

    pub fn new() -> (r: App)
        ensures
            r.wf(),
            r.input_mode == InputMode::Normal,
            r.tabs.selected == 0,
            forall|i: int|
                0 <= i < TAB_COUNT ==> #[trigger] r.tabs.tabs@[i] == Tab::fresh(
                    crate::tabs::kind_at(i),
                ),
            r.textarea@ == Seq::<char>::empty(),
            r.will_send_message@ == Seq::<String>::empty(),
            r.err_text is None,
    {
        App {
            input_mode: InputMode::Normal,
            tabs: Tabs::new(),
            textarea: InputEditor::new(),
            will_send_message: Vec::new(),
            err_text: None,
        }
    }

    /// What key `key` asks for in the current mode and phase.
    pub fn key_action(&self, key: Key, state: &TuiState) -> (r: KeyAction)
        ensures
            r == key_action(self.input_mode, state.state, state.cookie is Some, key),
    {
        let running = state.state == AppState::Running;
        let quitting = state.state == AppState::Quitting;
        match self.input_mode {
            InputMode::Normal => match key {
                Key::Up => if running {
                    KeyAction::PreviousTab
                } else {
                    KeyAction::Ignore
                },
                Key::Down => if running {
                    KeyAction::NextTab
                } else {
                    KeyAction::Ignore
                },
                Key::Char(c) => if c == 'w' && running {
                    KeyAction::ScrollUp
                } else if c == 's' && running {
                    KeyAction::ScrollDown
                } else if c == 'q' && (running || quitting) {
                    KeyAction::Phase(PhaseEvent::QuitRequest)
                } else if c == 'y' && quitting {
                    KeyAction::Phase(PhaseEvent::Confirm)
                } else if c == 'n' && quitting {
                    KeyAction::Phase(PhaseEvent::Cancel)
                } else if c == 't' && running {
                    KeyAction::ToggleSidebar
                } else {
                    KeyAction::Ignore
                },
                Key::Enter => if running && state.has_cookie() {
                    KeyAction::StartEditing
                } else {
                    KeyAction::Ignore
                },
                _ => KeyAction::Ignore,
            },
            InputMode::Editing => match key {
                Key::Up => KeyAction::PreviousTab,
                Key::Down => KeyAction::NextTab,
                Key::Enter => KeyAction::Submit,
                Key::Esc => KeyAction::StopEditing,
                Key::Char(c) => KeyAction::Type(c),
                Key::Backspace => KeyAction::Erase,
                Key::Other => KeyAction::Ignore,
            },
        }
    }

    /// Handles one key press: looks it up in the keymap and carries it out.
    pub fn handle_events(&mut self, key: Key, state: &mut TuiState) -> (a: KeyAction)
        requires
            old(self).wf(),
        ensures
            a == key_action(old(self).input_mode, old(state).state, old(state).cookie is Some, key),
            final(self).wf(),
            *final(state) == state_after(*old(state), a),
            final(self).tabs.selected == selected_after(old(self).tabs.selected as int, a),
            final(self).tabs.tabs@ == tabs_after(
                old(self).tabs.tabs@,
                old(self).tabs.selected as int,
                a,
            ),
            final(self).input_mode == mode_after(old(self).input_mode, old(self).textarea@, a),
            final(self).textarea@ == buffer_after(old(self).textarea@, a),
            submits(a, old(self).textarea@) ==> final(self).will_send_message@.len()
                == old(self).will_send_message@.len() + 1
                && final(self).will_send_message@.drop_last() == old(
                self,
            ).will_send_message@ && final(self).will_send_message@.last()@ == old(
                self,
            ).textarea@,
            !submits(a, old(self).textarea@) ==> final(self).will_send_message
                == old(self).will_send_message,
            final(self).err_text == old(self).err_text,
    {
        let a = self.key_action(key, state);
        match a {
            KeyAction::PreviousTab => self.previous_tab(),
            KeyAction::NextTab => self.next_tab(),
            KeyAction::ScrollUp => self.scroll_up(),
            KeyAction::ScrollDown => self.scroll_down(),
            KeyAction::Phase(e) => match e {
                PhaseEvent::QuitRequest => state.quit(),
                PhaseEvent::Confirm => state.confirm_quit(),
                PhaseEvent::Cancel => state.cancel_quit(),
            },
            KeyAction::ToggleSidebar => self.toggle_slider_bar(state),
            KeyAction::StartEditing => {
                self.input_mode = InputMode::Editing;
            },
            KeyAction::Submit => {
                if !self.textarea.is_empty() {
                    let line = self.textarea.take_and_clear();
                    self.will_send_message.push(line);
                    self.input_mode = InputMode::Normal;
                }
            },
            KeyAction::StopEditing => {
                self.textarea.clear();
                self.input_mode = InputMode::Normal;
            },
            KeyAction::Type(c) => {
                self.textarea.push_char(c);
            },
            KeyAction::Erase => {
                self.textarea.delete_char();
            },
            KeyAction::Ignore => {},
        }
        a
    }

    /// Takes the oldest waiting chat line, if any, and says what to do with
    /// it: without a credential the send fails here with "未登录" and nothing
    /// is handed out; with one, the line goes out with the room and the
    /// credential, and the last error is cleared.
    pub fn send_danmu(&mut self, state: &TuiState) -> (r: Outbound)
        ensures
            old(self).will_send_message@.len() == 0 ==> r is Idle && *final(self) == *old(self),
            old(self).will_send_message@.len() > 0 ==> {
                &&& final(self).will_send_message@ == old(self).will_send_message@.drop_first()
                &&& final(self).input_mode == old(self).input_mode
                &&& final(self).tabs == old(self).tabs
                &&& final(self).textarea == old(self).textarea
                &&& state.cookie is None ==> r is Idle && final(self).err_text is Some
                    && final(self).err_text->Some_0@ == not_logged_in_text()
                &&& state.cookie is Some ==> final(self).err_text is None && r == (Outbound::Send {
                    room_id: state.room_id,
                    content: old(self).will_send_message@[0],
                    cookie: state.cookie->Some_0,
                })
            },
    {
        if self.will_send_message.len() == 0 {
            return Outbound::Idle;
        }
        self.err_text = None;
        let content = self.will_send_message.remove(0);
        match &state.cookie {
            Some(cookie) => Outbound::Send {
                room_id: state.room_id,
                content,
                cookie: cookie.clone(),
            },
            None => {
                self.err_text = Some(String::from_str("未登录"));
                Outbound::Idle
            },
        }
    }

    /// Records how a send ended: a failure's text is kept to show beside the
    /// editor; a success changes nothing.
    pub fn finish_send(&mut self, result: Result<SendDanmuData, String>)
        ensures
            result is Err ==> *final(self) == (App {
                err_text: Some(result->Err_0),
                ..*old(self)
            }),
            result is Ok ==> *final(self) == *old(self),
    {
        match result {
            Ok(_) => {},
            Err(e) => {
                self.err_text = Some(e);
            },
        }
    }

    /// Shows or hides the tab list.
    pub fn toggle_slider_bar(&mut self, state: &mut TuiState)
        ensures
            *final(state) == (TuiState {
                slider_bar_state: toggled(old(state).slider_bar_state),
                ..*old(state)
            }),
            *final(self) == *old(self),
    {
        state.toggle_slider_bar();
    }

    pub fn scroll_up(&mut self)
        requires
            old(self).wf(),
        ensures
            final(self).wf(),
            *final(self) == (App { tabs: final(self).tabs, ..*old(self) }),
            final(self).tabs.selected == old(self).tabs.selected,
            final(self).tabs.tabs@ == old(self).tabs.tabs@.update(
                old(self).tabs.selected as int,
                old(self).tabs.current().scrolled_up(),
            ),
    {
        self.tabs.scroll_up();
    }

    pub fn scroll_down(&mut self)
        requires
            old(self).wf(),
        ensures
            final(self).wf(),
            *final(self) == (App { tabs: final(self).tabs, ..*old(self) }),
            final(self).tabs.selected == old(self).tabs.selected,
            final(self).tabs.tabs@ == old(self).tabs.tabs@.update(
                old(self).tabs.selected as int,
                old(self).tabs.current().scrolled_down(),
            ),
    {
        self.tabs.scroll_down();
    }

    pub fn next_tab(&mut self)
        requires
            old(self).wf(),
        ensures
            final(self).wf(),
            *final(self) == (App { tabs: final(self).tabs, ..*old(self) }),
            final(self).tabs.tabs == old(self).tabs.tabs,
            final(self).tabs.selected == (old(self).tabs.selected + 1) % (TAB_COUNT as int),
    {
        self.tabs.next_tab();
    }

    pub fn previous_tab(&mut self)
        requires
            old(self).wf(),
        ensures
            final(self).wf(),
            *final(self) == (App { tabs: final(self).tabs, ..*old(self) }),
            final(self).tabs.tabs == old(self).tabs.tabs,
            final(self).tabs.selected == (old(self).tabs.selected + TAB_COUNT - 1) % (
            TAB_COUNT as int),
    {
        self.tabs.previous_tab();
    }
}

impl Default for App {
    fn default() -> (r: App)
        ensures
            r.wf(),
            r.input_mode == InputMode::Normal,
            r.tabs.selected == 0,
            r.textarea@ == Seq::<char>::empty(),
            r.will_send_message@ == Seq::<String>::empty(),
            r.err_text is None,
    {
        App::new()
    }
}

} // verus!
