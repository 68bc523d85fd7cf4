use vstd::prelude::*;
use vstd::utf8::{decode_utf8, valid_utf8};
use crate::messages::{AppInput, AppInputView, UIMessage, UIMessageView};

verus! {

/// The session state of the connection actor.
///
/// The connection slot holds a socket exactly in `Connected`; the flag says
/// whether the local side may write.
#[derive(Clone, Copy, PartialEq, Eq, Structural, Debug)]
pub enum State {
    Waiting,
    Connected { ours_to_send: bool },
}

/// Something that the connection actor's loop observed.
#[derive(Debug)]
pub enum Event {
    /// The listener handed over a new inbound socket from the peer at this
    /// address.
    Accepted(String),
    /// A command arrived from the presentation actor.
    Command(AppInput),
    /// An outbound dial to this address succeeded and handed over a new
    /// socket.
    Dialed(String),
    /// An outbound dial failed with this error text.
    DialFailed(String),
    /// A read on the active socket returned these bytes; none means the
    /// peer closed the connection.
    Read(Vec<u8>),
    /// The active socket failed with this error text.
    Failed(String),
    /// Closing a refused socket failed with this error text.
    RefuseFailed(String),
    /// The command channel was closed.
    CommandsClosed,
}

pub enum EventView {
    Accepted(Seq<char>),
    Command(AppInputView),
    Dialed(Seq<char>),
    DialFailed(Seq<char>),
    Read(Seq<u8>),
    Failed(Seq<char>),
    RefuseFailed(Seq<char>),
    CommandsClosed,
}

impl View for Event {
    type V = EventView;

    open spec fn view(&self) -> EventView {
        match self {
            Event::Accepted(a) => EventView::Accepted(a@),
            Event::Command(m) => EventView::Command(m@),
            Event::Dialed(a) => EventView::Dialed(a@),
            Event::DialFailed(e) => EventView::DialFailed(e@),
            Event::Read(b) => EventView::Read(b@),
            Event::Failed(e) => EventView::Failed(e@),
            Event::RefuseFailed(e) => EventView::RefuseFailed(e@),
            Event::CommandsClosed => EventView::CommandsClosed,
        }
    }
}

/// What the connection actor's loop is to do, in order.
#[derive(Debug)]
pub enum Effect {
    /// Send this notification to the presentation actor.
    Notify(UIMessage),
    /// Dial the peer at this address.
    Dial(String),
    /// Put the socket that just arrived into the connection slot.
    Adopt,
    /// Close the socket that just arrived; the slot keeps what it holds. A
    /// failure to close it comes back as `RefuseFailed`.
    Refuse,
    /// Write the bytes of this sentence to the socket in the slot.
    Write(String),
    /// Close the socket in the slot and empty it.
    Release,
    /// Leave the loop.
    Stop,
}

pub enum EffectView {
    Notify(UIMessageView),
    Dial(Seq<char>),
    Adopt,
    Refuse,
    Write(Seq<char>),
    Release,
    Stop,
}

impl View for Effect {
    type V = EffectView;

    open spec fn view(&self) -> EffectView {
        match self {
            Effect::Notify(m) => EffectView::Notify(m@),
            Effect::Dial(a) => EffectView::Dial(a@),
            Effect::Adopt => EffectView::Adopt,
            Effect::Refuse => EffectView::Refuse,
            Effect::Write(t) => EffectView::Write(t@),
            Effect::Release => EffectView::Release,
            Effect::Stop => EffectView::Stop,
        }
    }
}

pub open spec fn effects_view(v: Seq<Effect>) -> Seq<EffectView> {
    v.map_values(|e: Effect| e@)
}

pub open spec fn log(text: Seq<char>) -> EffectView {
    EffectView::Notify(UIMessageView::Log(text))
}

/// Whether the event hands over a new socket.
pub open spec fn brings_socket(ev: EventView) -> bool {
    ev is Accepted || ev is Dialed
}

/// The state after `ev` in state `s`.
pub open spec fn next_state(s: State, ev: EventView) -> State {
    match ev {
        EventView::Accepted(_) => if s is Waiting {
            State::Connected { ours_to_send: true }
        } else {
            s
        },
        EventView::Dialed(_) => if s is Waiting {
            State::Connected { ours_to_send: false }
        } else {
            s
        },
        EventView::Command(AppInputView::Input(_)) => if s == (State::Connected {
            ours_to_send: true,
        }) {
            State::Connected { ours_to_send: false }
        } else {
            s
        },
        EventView::Read(b) => if s is Connected {
            if b.len() == 0 {
                State::Waiting
            } else {
                State::Connected { ours_to_send: true }
            }
        } else {
            s
        },
        EventView::Failed(_) => State::Waiting,
        _ => s,
    }
}

/// What is done on `ev` in state `s`, in order.
pub open spec fn effects(s: State, ev: EventView) -> Seq<EffectView> {
    match ev {
        EventView::Accepted(a) => if s is Waiting {
            seq![
                EffectView::Adopt,
                EffectView::Notify(UIMessageView::Connected(true)),
                log("Connected to "@ + a),
            ]
        } else {
            seq![EffectView::Refuse, log("Already connected, dropping new connection"@)]
        },
        EventView::Dialed(a) => if s is Waiting {
            seq![
                EffectView::Adopt,
                EffectView::Notify(UIMessageView::Connected(false)),
                log("Connected to remote "@ + a),
            ]
        } else {
            seq![EffectView::Refuse, log("Already connected, dropping new connection"@)]
        },
        EventView::DialFailed(e) => seq![log("ERROR: Could not connect: "@ + e)],
        EventView::Command(AppInputView::Connect(a)) => if s is Waiting {
            seq![log("Attempting to connect to "@ + a), EffectView::Dial(a)]
        } else {
            seq![log("ERROR: Already connected"@)]
        },
        EventView::Command(AppInputView::Input(t)) => match s {
            State::Waiting => seq![log("ERROR: Unexpected input"@)],
            State::Connected { ours_to_send } => if ours_to_send {
                seq![EffectView::Write(t), EffectView::Notify(UIMessageView::SentenceSent(t))]
            } else {
                seq![log("ERROR: Not your turn"@)]
            },
        },
        EventView::Read(b) => if s is Waiting {
            seq![]
        } else if b.len() == 0 {
            seq![
                EffectView::Release,
                EffectView::Notify(UIMessageView::Disconnected),
                log("Disconnected from remote"@),
            ]
        } else if valid_utf8(b) {
            seq![EffectView::Notify(UIMessageView::SentenceReceived(decode_utf8(b)))]
        } else {
            seq![log("ERROR: Received bytes that are not UTF-8, dropped them"@)]
        },
        EventView::Failed(e) => if s is Waiting {
            seq![log("ERROR: "@ + e)]
        } else {
            seq![
                EffectView::Release,
                log("ERROR: Connection lost: "@ + e),
                EffectView::Notify(UIMessageView::Disconnected),
            ]
        },
        EventView::RefuseFailed(e) => seq![
            log("ERROR: Could not close the refused connection: "@ + e),
        ],
        EventView::CommandsClosed => seq![EffectView::Stop],
    }
}

/// Relies on `String::from_utf8`: it succeeds exactly on valid UTF-8 and
/// then holds the characters that the bytes encode.
#[verifier::external_body]
fn utf8_text(bytes: Vec<u8>) -> (r: Option<String>)
    ensures
        r is Some <==> valid_utf8(bytes@),
        r matches Some(s) ==> s@ == decode_utf8(bytes@),
{
    String::from_utf8(bytes).ok()
}

fn log_line(text: &str) -> (r: Effect)
    ensures
        r@ == log(text@),
{
    Effect::Notify(UIMessage::Log(String::from_str(text)))
}

fn log_line_with(prefix: &str, detail: &String) -> (r: Effect)
    ensures
        r@ == log(prefix@ + detail@),
{
    let mut t = String::from_str(prefix);
    t.append(detail.as_str());
    Effect::Notify(UIMessage::Log(t))
}

/// The decision core of the connection actor: it owns the session state and
/// turns each observed event into the effects that the loop carries out.
#[derive(Debug)]
pub struct App {
    state: State,
}

impl View for App {
    type V = State;

    closed spec fn view(&self) -> State {
        self.state
    }
}

impl App {
    pub fn new() -> (r: App)
        ensures
            r@ == State::Waiting,
    {
        App { state: State::Waiting }
    }

    pub fn state(&self) -> (r: State)
        ensures
            r == self@,
    {
        self.state
    }

    /// Whether a socket stands in the slot, so that the loop should read it.
    pub fn socket(&self) -> (r: bool)
        ensures
            r == (self@ is Connected),
    {
        self.state != State::Waiting
    }

    /// Handles one event.
    pub fn step(&mut self, event: Event) -> (r: Vec<Effect>)
        ensures
            final(self)@ == next_state(old(self)@, event@),
            effects_view(r@) == effects(old(self)@, event@),
    {
        match event {
            Event::Accepted(addr) => self.accept(addr),
            Event::Command(msg) => self.handle_message(msg),
            Event::Dialed(addr) => self.dialed(addr),
            Event::DialFailed(e) => self.dial_failed(e),
            Event::Read(buf) => {
                let n = buf.len();
                let r = self.process_data(n, buf);
                proof {
                    assert(buf@.subrange(0, n as int) =~= buf@);
                }
                r
            },
            Event::Failed(e) => self.failed(e),
            Event::RefuseFailed(e) => self.refuse_failed(e),
            Event::CommandsClosed => self.commands_closed(),
        }
    }

    /// A command from the presentation actor.
    pub fn handle_message(&mut self, msg: AppInput) -> (r: Vec<Effect>)
        ensures
            final(self)@ == next_state(old(self)@, EventView::Command(msg@)),
            effects_view(r@) == effects(old(self)@, EventView::Command(msg@)),
    {
        let ghost s = self.state;
        let mut r: Vec<Effect> = Vec::new();
        match msg {
            AppInput::Connect(address) => {
                if self.state == State::Waiting {
                    r.push(log_line_with("Attempting to connect to ", &address));
                    r.push(Effect::Dial(address));
                } else {
                    r.push(log_line("ERROR: Already connected"));
                }
            },
            AppInput::Input(input) => {
                match self.state {
                    State::Waiting => {
                        r.push(log_line("ERROR: Unexpected input"));
                    },
                    State::Connected { ours_to_send } => {
                        if ours_to_send {
                            let echo = input.clone();
                            r.push(Effect::Write(input));
                            r.push(Effect::Notify(UIMessage::SentenceSent(echo)));
                            self.state = State::Connected { ours_to_send: false };
                        } else {
                            r.push(log_line("ERROR: Not your turn"));
                        }
                    },
                }
            },
        }
        assert(effects_view(r@) =~= effects(s, EventView::Command(msg@)));
        r
    }

    /// The outcome of a read on the active socket: `result` bytes at the
    /// front of `buf`, where none means that the peer closed.
    ///
    /// Bytes that are not UTF-8 are reported and dropped; like any data from
    /// the peer they hand the turn to the local side.
    pub fn process_data(&mut self, result: usize, buf: Vec<u8>) -> (r: Vec<Effect>)
        requires
            result <= buf@.len(),
        ensures
            final(self)@ == next_state(old(self)@, EventView::Read(buf@.subrange(0, result as int))),
            effects_view(r@) == effects(old(self)@, EventView::Read(buf@.subrange(0, result as int))),
    {
        let ghost s = self.state;
        let ghost data = buf@.subrange(0, result as int);
        let mut r: Vec<Effect> = Vec::new();
        if self.state == State::Waiting {
        } else if result == 0 {
            self.state = State::Waiting;
            r.push(Effect::Release);
            r.push(Effect::Notify(UIMessage::Disconnected));
            r.push(log_line("Disconnected from remote"));
        } else {
            let mut bytes = buf;
            bytes.truncate(result);
            assert(bytes@ =~= data);
            match utf8_text(bytes) {
                Some(text) => {
                    r.push(Effect::Notify(UIMessage::SentenceReceived(text)));
                },
                None => {
                    r.push(log_line("ERROR: Received bytes that are not UTF-8, dropped them"));
                },
            }
            self.state = State::Connected { ours_to_send: true };
        }
        assert(effects_view(r@) =~= effects(s, EventView::Read(data)));
        r
    }

    /// A new inbound socket from the listener, from the peer at `addr`.
    pub fn accept(&mut self, addr: String) -> (r: Vec<Effect>)
        ensures
            final(self)@ == next_state(old(self)@, EventView::Accepted(addr@)),
            effects_view(r@) == effects(old(self)@, EventView::Accepted(addr@)),
    {
        let ghost s = self.state;
        let mut r: Vec<Effect> = Vec::new();
        if self.state == State::Waiting {
            self.state = State::Connected { ours_to_send: true };
            r.push(Effect::Adopt);
            r.push(Effect::Notify(UIMessage::Connected(true)));
            r.push(log_line_with("Connected to ", &addr));
        } else {
            r.push(Effect::Refuse);
            r.push(log_line("Already connected, dropping new connection"));
        }
        assert(effects_view(r@) =~= effects(s, EventView::Accepted(addr@)));
        r
    }

    /// A new outbound socket from a successful dial to `addr`.
    pub fn dialed(&mut self, addr: String) -> (r: Vec<Effect>)
        ensures
            final(self)@ == next_state(old(self)@, EventView::Dialed(addr@)),
            effects_view(r@) == effects(old(self)@, EventView::Dialed(addr@)),
    {
        let ghost s = self.state;
        let mut r: Vec<Effect> = Vec::new();
        if self.state == State::Waiting {
            self.state = State::Connected { ours_to_send: false };
            r.push(Effect::Adopt);
            r.push(Effect::Notify(UIMessage::Connected(false)));
            r.push(log_line_with("Connected to remote ", &addr));
        } else {
            r.push(Effect::Refuse);
            r.push(log_line("Already connected, dropping new connection"));
        }
        assert(effects_view(r@) =~= effects(s, EventView::Dialed(addr@)));
        r
    }

    /// An outbound dial that failed with `err`.
    pub fn dial_failed(&mut self, err: String) -> (r: Vec<Effect>)
        ensures
            final(self)@ == next_state(old(self)@, EventView::DialFailed(err@)),
            effects_view(r@) == effects(old(self)@, EventView::DialFailed(err@)),
    {
        let mut r: Vec<Effect> = Vec::new();
        r.push(log_line_with("ERROR: Could not connect: ", &err));
        assert(effects_view(r@) =~= effects(self.state, EventView::DialFailed(err@)));
        r
    }

    /// A transport error `err` on the active socket.
    pub fn failed(&mut self, err: String) -> (r: Vec<Effect>)
        ensures
            final(self)@ == next_state(old(self)@, EventView::Failed(err@)),
            effects_view(r@) == effects(old(self)@, EventView::Failed(err@)),
    {
        let ghost s = self.state;
        let mut r: Vec<Effect> = Vec::new();
        if self.state == State::Waiting {
            r.push(log_line_with("ERROR: ", &err));
        } else {
            self.state = State::Waiting;
            r.push(Effect::Release);
            r.push(log_line_with("ERROR: Connection lost: ", &err));
            r.push(Effect::Notify(UIMessage::Disconnected));
        }
        assert(effects_view(r@) =~= effects(s, EventView::Failed(err@)));
        r
    }

    /// Closing a refused socket failed with `err`; the slot is untouched.
    pub fn refuse_failed(&mut self, err: String) -> (r: Vec<Effect>)
        ensures
            final(self)@ == next_state(old(self)@, EventView::RefuseFailed(err@)),
            effects_view(r@) == effects(old(self)@, EventView::RefuseFailed(err@)),
    {
        let mut r: Vec<Effect> = Vec::new();
        r.push(log_line_with("ERROR: Could not close the refused connection: ", &err));
        assert(effects_view(r@) =~= effects(self.state, EventView::RefuseFailed(err@)));
        r
    }

    /// The presentation actor closed the command channel.
    pub fn commands_closed(&mut self) -> (r: Vec<Effect>)
        ensures
            final(self)@ == next_state(old(self)@, EventView::CommandsClosed),
            effects_view(r@) == effects(old(self)@, EventView::CommandsClosed),
    {
        let mut r: Vec<Effect> = Vec::new();
        r.push(Effect::Stop);
        assert(effects_view(r@) =~= effects(self.state, EventView::CommandsClosed));
        r
    }
}

} // verus!
