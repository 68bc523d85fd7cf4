use vstd::prelude::*;
use crate::messages::{AppInput, AppInputView, UIMessage, UIMessageView};

verus! {

/// The character that ends a sentence.
pub const DELIMITER: char = '.';

/// The text of each string, in order.
pub open spec fn strings_view(v: Seq<String>) -> Seq<Seq<char>> {
    v.map_values(|s: String| s@)
}

/// The parts joined with one space between neighbours.
pub open spec fn joined(parts: Seq<Seq<char>>) -> Seq<char>
    decreases parts.len(),
{
    if parts.len() == 0 {
        seq![]
    } else if parts.len() == 1 {
        parts[0]
    } else {
        joined(parts.drop_last()) + seq![' '] + parts.last()
    }
}

/// What the presentation actor knows of the session.
pub enum AppState {
    InSession { is_our_turn: bool, content_log: Vec<String> },
    Waiting,
}

pub enum AppStateView {
    InSession { is_our_turn: bool, content_log: Seq<Seq<char>> },
    Waiting,
}

impl View for AppState {
    type V = AppStateView;

    open spec fn view(&self) -> AppStateView {
        match self {
            AppState::InSession { is_our_turn, content_log } => AppStateView::InSession {
                is_our_turn: *is_our_turn,
                content_log: strings_view(content_log@),
            },
            AppState::Waiting => AppStateView::Waiting,
        }
    }
}

/// The transcript as one text, parts separated by spaces, or nothing while
/// no session runs.
pub open spec fn transcript(v: AppStateView) -> Option<Seq<char>> {
    match v {
        AppStateView::InSession { content_log, .. } => Some(joined(content_log)),
        AppStateView::Waiting => None,
    }
}

impl AppState {
    pub fn content_log(&self) -> (r: Option<String>)
        ensures
            r is Some == (self@ is InSession),
            r matches Some(t) ==> Some(t@) == transcript(self@),
    {
        match self {
            AppState::InSession { content_log, .. } => {
                let ghost parts = strings_view(content_log@);
                let mut out = String::new();
                let mut i: usize = 0;
                proof {
                    assert(parts.take(0) =~= Seq::<Seq<char>>::empty());
                }
                while i < content_log.len()
                    invariant
                        i <= content_log@.len(),
                        parts == strings_view(content_log@),
                        out@ == joined(parts.take(i as int)),
                    decreases content_log@.len() - i,
                {
                    let ghost before = out@;
                    if i > 0 {
                        out.append(" ");
                    }
                    out.append(content_log[i].as_str());
                    proof {
                        reveal_strlit(" ");
                        let next = parts.take(i + 1);
                        assert(next.drop_last() =~= parts.take(i as int));
                        assert(next.last() == content_log@[i as int]@);
                        if i == 0 {
                            assert(out@ =~= next[0]);
                        } else {
                            assert(out@ =~= before + seq![' '] + next.last());
                        }
                    }
                    i = i + 1;
                }
                proof {
                    assert(parts.take(i as int) =~= parts);
                }
                Some(out)
            },
            AppState::Waiting => None,
        }
    }
}

/// The two widgets that take typed keys.
#[derive(Clone, Copy, PartialEq, Eq, Structural, Debug)]
pub enum Element {
    Input,
    Connect,
}

/// A key press, as far as the presentation actor tells keys apart.
#[derive(Clone, Copy, PartialEq, Eq, Structural, Debug)]
pub enum Key {
    Esc,
    Backspace,
    Left,
    Right,
    Enter,
    Char(char),
    Other,
}

/// What the presentation actor's loop is to do after a key.
#[derive(Debug)]
pub enum UiAction {
    Nothing,
    Quit,
    Send(AppInput),
}

pub enum UiActionView {
    Nothing,
    Quit,
    Send(AppInputView),
}

impl View for UiAction {
    type V = UiActionView;

    open spec fn view(&self) -> UiActionView {
        match self {
            UiAction::Nothing => UiActionView::Nothing,
            UiAction::Quit => UiActionView::Quit,
            UiAction::Send(m) => UiActionView::Send(m@),
        }
    }
}

/// The presentation actor's state: the session as it sees it, the log, the
/// two edit buffers and the widget that has the focus.
pub struct UIState {
    pub app_state: AppState,
    pub log_buffer: Vec<String>,
    pub input_buffer: Vec<char>,
    pub address_buffer: Vec<char>,
    pub selected_element: Element,
}

pub struct UIStateView {
    pub app_state: AppStateView,
    pub log: Seq<Seq<char>>,
    pub input: Seq<char>,
    pub address: Seq<char>,
    pub selected: Element,
}

impl View for UIState {
    type V = UIStateView;

    open spec fn view(&self) -> UIStateView {
        UIStateView {
            app_state: self.app_state@,
            log: strings_view(self.log_buffer@),
            input: self.input_buffer@,
            address: self.address_buffer@,
            selected: self.selected_element,
        }
    }
}

/// `s` without its last character, if it has one.
pub open spec fn erase_last(s: Seq<char>) -> Seq<char> {
    if s.len() > 0 {
        s.drop_last()
    } else {
        s
    }
}

/// The state after notification `m`.
pub open spec fn after_message(v: UIStateView, m: UIMessageView) -> UIStateView {
    match m {
        UIMessageView::Log(t) => UIStateView { log: v.log.push(t), ..v },
        UIMessageView::SentenceReceived(t) => match v.app_state {
            AppStateView::InSession { content_log, .. } => UIStateView {
                app_state: AppStateView::InSession {
                    is_our_turn: true,
                    content_log: content_log.push(t),
                },
                ..v
            },
            AppStateView::Waiting => v,
        },
        UIMessageView::SentenceSent(t) => match v.app_state {
            AppStateView::InSession { is_our_turn, content_log } => UIStateView {
                app_state: AppStateView::InSession { is_our_turn, content_log: content_log.push(t) },
                ..v
            },
            AppStateView::Waiting => v,
        },
        UIMessageView::Connected(b) => UIStateView {
            app_state: AppStateView::InSession { is_our_turn: b, content_log: seq![] },
            log: v.log.push("Accepted remote connection"@),
            ..v
        },
        UIMessageView::Disconnected => UIStateView { app_state: AppStateView::Waiting, ..v },
    }
}

/// The state after a key that acts the same in every session state, and
/// `Some(true)` to quit, `Some(false)` for an erased character, `None`
/// otherwise.
pub open spec fn after_common_key(v: UIStateView, k: Key) -> (UIStateView, Option<bool>) {
    match k {
        Key::Esc => (v, Some(true)),
        Key::Backspace => if v.selected == Element::Input {
            (UIStateView { input: erase_last(v.input), ..v }, Some(false))
        } else {
            (UIStateView { address: erase_last(v.address), ..v }, Some(false))
        },
        Key::Left => (UIStateView { selected: Element::Input, ..v }, None),
        Key::Right => (UIStateView { selected: Element::Connect, ..v }, None),
        _ => (v, None),
    }
}

/// The state and the action after key `k` in state `v`.
///
/// In a session a typed character goes to the sentence buffer while the
/// input widget has the focus and the turn is local; the delimiter ends the
/// sentence, which is to be sent. The turn passes only once the sentence has
/// been handed over (see `after_hand_over`). While waiting, typed
/// characters go to the address buffer and Enter dials that address.
pub open spec fn after_key(v: UIStateView, k: Key) -> (UIStateView, UiActionView) {
    let w = after_common_key(v, k).0;
    if after_common_key(v, k).1 == Some(true) {
        (w, UiActionView::Quit)
    } else {
        match w.app_state {
            AppStateView::InSession { is_our_turn, .. } => match k {
                Key::Char(c) => if w.selected == Element::Input && is_our_turn {
                    if c == DELIMITER {
                        (
                            UIStateView { input: w.input.push(c), ..w },
                            UiActionView::Send(AppInputView::Input(w.input.push(c))),
                        )
                    } else {
                        (UIStateView { input: w.input.push(c), ..w }, UiActionView::Nothing)
                    }
                } else {
                    (w, UiActionView::Nothing)
                },
                _ => (w, UiActionView::Nothing),
            },
            AppStateView::Waiting => match k {
                Key::Enter => if w.selected == Element::Connect {
                    (w, UiActionView::Send(AppInputView::Connect(w.address)))
                } else {
                    (w, UiActionView::Nothing)
                },
                Key::Char(c) => if w.selected == Element::Connect {
                    (UIStateView { address: w.address.push(c), ..w }, UiActionView::Nothing)
                } else {
                    (w, UiActionView::Nothing)
                },
                _ => (w, UiActionView::Nothing),
            },
        }
    }
}

/// The state after a finished sentence was handed to the connection actor:
/// the turn passes and the sentence buffer empties.
pub open spec fn after_hand_over(v: UIStateView) -> UIStateView {
    match v.app_state {
        AppStateView::InSession { content_log, .. } => UIStateView {
            app_state: AppStateView::InSession { is_our_turn: false, content_log },
            input: seq![],
            ..v
        },
        AppStateView::Waiting => v,
    }
}

/// Relies on `String::from_iter` over characters: the string holds them in
/// order.
#[verifier::external_body]
fn string_from_chars(chars: &Vec<char>) -> (r: String)
    ensures
        r@ == chars@,
{
    String::from_iter(chars)
}

impl UIState {
    pub fn new() -> (r: UIState)
        ensures
            r@.app_state is Waiting,
            r@.log == Seq::<Seq<char>>::empty(),
            r@.input == Seq::<char>::empty(),
            r@.address == Seq::<char>::empty(),
            r@.selected == Element::Connect,
    {
        let r = UIState {
            app_state: AppState::Waiting,
            log_buffer: Vec::new(),
            input_buffer: Vec::new(),
            address_buffer: Vec::new(),
            selected_element: Element::Connect,
        };
        assert(r@.log =~= Seq::<Seq<char>>::empty());
        r
    }

    /// Applies a notification from the connection actor.
    pub fn handle_message(&mut self, msg: UIMessage)
        ensures
            final(self)@ == after_message(old(self)@, msg@),
    {
        let ghost v = self@;
        match msg {
            UIMessage::Log(message) => {
                self.log_buffer.push(message);
                assert(self@.log =~= v.log.push(msg@->Log_0));
            },
            UIMessage::SentenceReceived(sentence) => {
                let ghost t = sentence@;
                if let AppState::InSession { is_our_turn, content_log } = &mut self.app_state {
                    let ghost before = strings_view(content_log@);
                    *is_our_turn = true;
                    content_log.push(sentence);
                    assert(strings_view(content_log@) =~= before.push(t));
                }
            },
            UIMessage::SentenceSent(sentence) => {
                let ghost t = sentence@;
                if let AppState::InSession { content_log, .. } = &mut self.app_state {
                    let ghost before = strings_view(content_log@);
                    content_log.push(sentence);
                    assert(strings_view(content_log@) =~= before.push(t));
                }
            },
            UIMessage::Connected(is_our_turn) => {
                self.app_state = AppState::InSession { is_our_turn, content_log: Vec::new() };
                self.log_buffer.push(String::from_str("Accepted remote connection"));
                assert(strings_view(Seq::<String>::empty()) =~= Seq::<Seq<char>>::empty());
                assert(self@.log =~= v.log.push("Accepted remote connection"@));
            },
            UIMessage::Disconnected => {
                self.app_state = AppState::Waiting;
            },
        }
    }

    /// Handles a key that acts the same in every session state.
    pub fn handle_independent_event(&mut self, key: Key) -> (r: Option<bool>)
        ensures
            (final(self)@, r) == after_common_key(old(self)@, key),
    {
        match key {
            Key::Esc => Some(true),
            Key::Backspace => {
                match self.selected_element {
                    Element::Input => {
                        self.input_buffer.pop();
                    },
                    Element::Connect => {
                        self.address_buffer.pop();
                    },
                }
                Some(false)
            },
            Key::Left => {
                if self.selected_element == Element::Connect {
                    self.selected_element = Element::Input;
                }
                None
            },
            Key::Right => {
                if self.selected_element == Element::Input {
                    self.selected_element = Element::Connect;
                }
                None
            },
            _ => None,
        }
    }

    /// Handles a key press and says what the loop is to do.
    pub fn handle_input_event(&mut self, key: Key) -> (r: UiAction)
        ensures
            (final(self)@, r@) == after_key(old(self)@, key),
    {
        let ghost v = self@;
        if self.handle_independent_event(key) == Some(true) {
            return UiAction::Quit;
        }
        let ghost w = self@;
        let mut action = UiAction::Nothing;
        match &mut self.app_state {
            AppState::InSession { is_our_turn, .. } => {
                if let Key::Char(c) = key {
                    if self.selected_element == Element::Input && *is_our_turn {
                        self.input_buffer.push(c);
                        if c == DELIMITER {
                            let sentence = string_from_chars(&self.input_buffer);
                            action = UiAction::Send(AppInput::Input(sentence));
                        }
                    }
                }
            },
            AppState::Waiting => {
                match key {
                    Key::Enter => {
                        if self.selected_element == Element::Connect {
                            let address = string_from_chars(&self.address_buffer);
                            action = UiAction::Send(AppInput::Connect(address));
                        }
                    },
                    Key::Char(c) => {
                        if self.selected_element == Element::Connect {
                            self.address_buffer.push(c);
                        }
                    },
                    _ => {},
                }
            },
        }
        assert(self@.app_state =~= after_key(v, key).0.app_state);
        assert(self@.input =~= after_key(v, key).0.input);
        action
    }

    /// Records that the finished sentence reached the connection actor: the
    /// turn passes and the sentence buffer empties. Until then a failed
    /// hand-over leaves the turn and the buffer as they were.
    pub fn sentence_handed_over(&mut self)
        ensures
            final(self)@ == after_hand_over(old(self)@),
    {
        if let AppState::InSession { is_our_turn, .. } = &mut self.app_state {
            *is_our_turn = false;
            self.input_buffer.clear();
        }
    }
}

} // verus!
