use vstd::prelude::*;

verus! {

/// A notification from the connection actor to the presentation actor.
#[derive(Debug)]
pub enum UIMessage {
    /// A diagnostic line to show.
    Log(String),
    /// A fragment that the peer sent; the local side may type next.
    SentenceReceived(String),
    /// A sentence that the local side has just written to the peer.
    SentenceSent(String),
    /// A session began; the flag tells whether the local side speaks first.
    Connected(bool),
    /// The session ended.
    Disconnected,
}

/// What a `UIMessage` carries, with text as sequences of characters.
pub enum UIMessageView {
    Log(Seq<char>),
    SentenceReceived(Seq<char>),
    SentenceSent(Seq<char>),
    Connected(bool),
    Disconnected,
}

impl View for UIMessage {
    type V = UIMessageView;

    open spec fn view(&self) -> UIMessageView {
        match self {
            UIMessage::Log(t) => UIMessageView::Log(t@),
            UIMessage::SentenceReceived(t) => UIMessageView::SentenceReceived(t@),
            UIMessage::SentenceSent(t) => UIMessageView::SentenceSent(t@),
            UIMessage::Connected(b) => UIMessageView::Connected(*b),
            UIMessage::Disconnected => UIMessageView::Disconnected,
        }
    }
}

impl UIMessage {
    /// The name of the notification's kind.
    pub fn kind_name(&self) -> (r: &'static str)
        ensures
            r@ == ui_message_kind(self@),
    {
        match self {
            UIMessage::Log(_) => "Log",
            UIMessage::SentenceReceived(_) => "SentenceReceived",
            UIMessage::SentenceSent(_) => "SentenceSent",
            UIMessage::Connected(_) => "Connected",
            UIMessage::Disconnected => "Disconnected",
        }
    }
}

pub open spec fn ui_message_kind(m: UIMessageView) -> Seq<char> {
    match m {
        UIMessageView::Log(_) => "Log"@,
        UIMessageView::SentenceReceived(_) => "SentenceReceived"@,
        UIMessageView::SentenceSent(_) => "SentenceSent"@,
        UIMessageView::Connected(_) => "Connected"@,
        UIMessageView::Disconnected => "Disconnected"@,
    }
}

/// A command from the presentation actor to the connection actor.
#[derive(Debug)]
pub enum AppInput {
    /// Dial the peer at this address (text such as `127.0.0.1:9001`).
    Connect(String),
    /// Send this complete sentence.
    Input(String),
}

pub enum AppInputView {
    Connect(Seq<char>),
    Input(Seq<char>),
}

impl View for AppInput {
    type V = AppInputView;

    open spec fn view(&self) -> AppInputView {
        match self {
            AppInput::Connect(a) => AppInputView::Connect(a@),
            AppInput::Input(t) => AppInputView::Input(t@),
        }
    }
}

impl AppInput {
    /// The name of the command's kind.
    pub fn kind_name(&self) -> (r: &'static str)
        ensures
            r@ == app_input_kind(self@),
    {
        match self {
            AppInput::Connect(_) => "Connect",
            AppInput::Input(_) => "Input",
        }
    }
}

pub open spec fn app_input_kind(m: AppInputView) -> Seq<char> {
    match m {
        AppInputView::Connect(_) => "Connect"@,
        AppInputView::Input(_) => "Input"@,
    }
}

} // verus!
