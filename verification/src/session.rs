//! The session loop as a state machine.
//!
//! The machine decides; its caller acts. The caller starts by reading a line,
//! hands each thing that happened to `Session::step` as an `Event`, and
//! performs the `Action` that comes back: read a line, send a request, render
//! an answer or an error, save the transcript, or leave.

use crate::context::{turn_block, ChatContext};
use crate::request::{build, prompt_text, OutboundRequest};
use crate::response::{
    classification_of, classify, Classification, ClassificationView, RawResult, RawResultView,
};
use crate::text::{decimal, decimal_string, trim, trimmed};
use vstd::prelude::*;
use vstd::string::*;

verus! {

/// Where a session stands.
#[derive(Clone, Copy, PartialEq, Eq, Debug)]
pub enum Phase {
    /// Waiting for a line of input.
    AwaitingInput,
    /// A request is out; waiting for the transport.
    Sending,
    /// An answer is being shown.
    Rendering,
    /// An error is being shown.
    ReportingError,
    /// The transcript is being saved.
    ShuttingDown,
    /// The session is over.
    Ended,
}

/// Why an exchange failed.
#[derive(Clone, Debug, PartialEq, Eq)]
pub enum TurnError {
    /// The remote side answered, with this status, but gave no usable answer.
    Remote(u16),
    /// The request did not get through.
    Transport(String),
}

/// The view of a `TurnError`.
pub enum TurnErrorView {
    Remote(u16),
    Transport(Seq<char>),
}

impl View for TurnError {
    type V = TurnErrorView;

    open spec fn view(&self) -> TurnErrorView {
        match self {
            TurnError::Remote(status) => TurnErrorView::Remote(*status),
            TurnError::Transport(cause) => TurnErrorView::Transport(cause@),
        }
    }
}

/// The line that tells the user of an error.
pub open spec fn error_text(error: TurnErrorView) -> Seq<char> {
    match error {
        TurnErrorView::Remote(status) => "Error: "@ + decimal(status as nat),
        TurnErrorView::Transport(cause) => "Error: "@ + cause,
    }
}

impl TurnError {
    /// The line that tells the user of this error: the word `Error`, and
    /// behind it the status in decimal or the cause.
    pub fn message(&self) -> (r: String)
        ensures
            r@ == error_text(self@),
    {
        let mut r = "Error: ".to_owned();
        match self {
            TurnError::Remote(status) => {
                let number = decimal_string(*status);
                r.append(number.as_str());
            },
            TurnError::Transport(cause) => {
                r.append(cause.as_str());
            },
        }
        r
    }
}

/// What happened outside the machine.
#[derive(Clone, Debug, PartialEq, Eq)]
pub enum Event {
    /// A line of input was read.
    Line(String),
    /// The input has ended.
    EndOfInput,
    /// The transport has returned.
    Reply(RawResult),
    /// The answer or the error has been shown.
    Rendered,
    /// The attempt to save the transcript is over; `true` where it succeeded.
    SaveFinished(bool),
    /// The process is going down for a reason of its own.
    Interrupted,
}

/// The view of an `Event`.
pub enum EventView {
    Line(Seq<char>),
    EndOfInput,
    Reply(RawResultView),
    Rendered,
    SaveFinished(bool),
    Interrupted,
}

impl View for Event {
    type V = EventView;

    open spec fn view(&self) -> EventView {
        match self {
            Event::Line(line) => EventView::Line(line@),
            Event::EndOfInput => EventView::EndOfInput,
            Event::Reply(raw) => EventView::Reply(raw@),
            Event::Rendered => EventView::Rendered,
            Event::SaveFinished(ok) => EventView::SaveFinished(*ok),
            Event::Interrupted => EventView::Interrupted,
        }
    }
}

/// What the caller is to do next.
#[derive(Clone, Debug, PartialEq, Eq)]
pub enum Action {
    /// Read a line of input.
    ReadLine,
    /// Send this request.
    Send(OutboundRequest),
    /// Show this answer.
    Render(String),
    /// Show this error, once.
    ReportError(TurnError),
    /// Write this text over the stored transcript.
    Save(String),
    /// Leave; `saved` says whether the transcript was written.
    Exit { saved: bool },
    /// Nothing: the event had no place where the session stands.
    Nothing,
}

/// The view of an `Action`.
pub enum ActionView {
    ReadLine,
    Send(Seq<char>),
    Render(Seq<char>),
    ReportError(TurnErrorView),
    Save(Seq<char>),
    Exit { saved: bool },
    Nothing,
}

impl View for Action {
    type V = ActionView;

    open spec fn view(&self) -> ActionView {
        match self {
            Action::ReadLine => ActionView::ReadLine,
            Action::Send(request) => ActionView::Send(request@),
            Action::Render(text) => ActionView::Render(text@),
            Action::ReportError(error) => ActionView::ReportError(error@),
            Action::Save(text) => ActionView::Save(text@),
            Action::Exit { saved } => ActionView::Exit { saved: *saved },
            Action::Nothing => ActionView::Nothing,
        }
    }
}

/// The view of a `Session`: its phase, the text of its context, and the two
/// halves of the turn under way (empty where none is).
pub struct SessionView {
    pub phase: Phase,
    pub history: Seq<char>,
    pub pending_input: Seq<char>,
    pub pending_reply: Seq<char>,
}

/// A session at its start: waiting for input, with nothing said yet.
pub open spec fn initial() -> SessionView {
    SessionView {
        phase: Phase::AwaitingInput,
        history: Seq::empty(),
        pending_input: Seq::empty(),
        pending_reply: Seq::empty(),
    }
}

/// `s` in another phase, with no turn under way.
pub open spec fn settled(s: SessionView, phase: Phase) -> SessionView {
    SessionView {
        phase,
        history: s.history,
        pending_input: Seq::empty(),
        pending_reply: Seq::empty(),
    }
}

/// Whether `s` holds the halves of a turn only while that turn is under way:
/// an input while its request is out or its answer is shown, an answer while
/// it is shown.
pub open spec fn is_consistent(s: SessionView) -> bool {
    &&& s.phase != Phase::Sending && s.phase != Phase::Rendering ==> s.pending_input.len() == 0
    &&& s.phase != Phase::Rendering ==> s.pending_reply.len() == 0
}

/// Whether the session has neither begun to shut down nor ended.
pub open spec fn is_live(phase: Phase) -> bool {
    phase != Phase::ShuttingDown && phase != Phase::Ended
}

/// The transition of the machine: the state after `e` happened in `s`, and
/// what the caller is to do.
pub open spec fn next(s: SessionView, e: EventView) -> (SessionView, ActionView) {
    match (s.phase, e) {
        (Phase::AwaitingInput, EventView::Line(line)) => (
            SessionView { phase: Phase::Sending, pending_input: line, ..s },
            ActionView::Send(prompt_text(s.history, line)),
        ),
        (Phase::AwaitingInput, EventView::EndOfInput) => (
            settled(s, Phase::ShuttingDown),
            ActionView::Save(s.history),
        ),
        (Phase::Sending, EventView::Reply(raw)) => match classification_of(raw) {
            ClassificationView::Success(text) => (
                SessionView { phase: Phase::Rendering, pending_reply: text, ..s },
                ActionView::Render(trimmed(text)),
            ),
            ClassificationView::RemoteError(status) => (
                settled(s, Phase::ReportingError),
                ActionView::ReportError(TurnErrorView::Remote(status)),
            ),
            ClassificationView::TransportError(cause) => (
                settled(s, Phase::ReportingError),
                ActionView::ReportError(TurnErrorView::Transport(cause)),
            ),
        },
        (Phase::Rendering, EventView::Rendered) => (
            SessionView {
                phase: Phase::AwaitingInput,
                history: s.history + turn_block(s.pending_input, s.pending_reply),
                pending_input: Seq::empty(),
                pending_reply: Seq::empty(),
            },
            ActionView::ReadLine,
        ),
        (Phase::ReportingError, EventView::Rendered) => (
            settled(s, Phase::AwaitingInput),
            ActionView::ReadLine,
        ),
        (Phase::ShuttingDown, EventView::SaveFinished(ok)) => (
            SessionView {
                phase: Phase::Ended,
                history: Seq::empty(),
                pending_input: Seq::empty(),
                pending_reply: Seq::empty(),
            },
            ActionView::Exit { saved: ok },
        ),
        (_, EventView::Interrupted) => if is_live(s.phase) {
            (settled(s, Phase::ShuttingDown), ActionView::Save(s.history))
        } else {
            (s, ActionView::Nothing)
        },
        _ => (s, ActionView::Nothing),
    }
}

/// A session: the context it owns, and where it stands.
pub struct Session {
    context: ChatContext,
    phase: Phase,
    pending_input: String,
    pending_reply: String,
}

impl View for Session {
    type V = SessionView;

    closed spec fn view(&self) -> SessionView {
        SessionView {
            phase: self.phase,
            history: self.context@,
            pending_input: self.pending_input@,
            pending_reply: self.pending_reply@,
        }
    }
}

impl Session {
    /// A session at its start. Its caller begins by reading a line.
    pub fn new() -> (r: Session)
        ensures
            r@ == initial(),
    {
        Session {
            context: ChatContext::new(),
            phase: Phase::AwaitingInput,
            pending_input: String::new(),
            pending_reply: String::new(),
        }
    }

    /// Where the session stands.
    pub fn phase(&self) -> (r: Phase)
        ensures
            r == self@.phase,
    {
        self.phase
    }

    /// The text of the context, as it stands.
    pub fn history(&self) -> (r: &str)
        ensures
            r@ == self@.history,
    {
        self.context.render_for_request()
    }

    /// Whether the session is over.
    pub fn is_ended(&self) -> (r: bool)
        ensures
            r == (self@.phase == Phase::Ended),
    {
        match self.phase {
            Phase::Ended => true,
            _ => false,
        }
    }

    fn settle(&mut self, phase: Phase)
        ensures
            final(self)@ == settled(old(self)@, phase),
    {
        self.phase = phase;
        self.pending_input = String::new();
        self.pending_reply = String::new();
    }

    fn shut_down(&mut self) -> (action: Action)
        ensures
            final(self)@ == settled(old(self)@, Phase::ShuttingDown),
            action@ == ActionView::Save(old(self)@.history),
    {
        self.settle(Phase::ShuttingDown);
        Action::Save(self.context.render_for_request().to_owned())
    }

    /// Takes in what happened and says what to do next.
    pub fn step(&mut self, event: Event) -> (action: Action)
        ensures
            (final(self)@, action@) == next(old(self)@, event@),
    {
        match event {
            Event::Line(line) => match self.phase {
                Phase::AwaitingInput => {
                    let request = build(&self.context, line.as_str());
                    self.pending_input = line;
                    self.phase = Phase::Sending;
                    Action::Send(request)
                },
                _ => Action::Nothing,
            },
            Event::EndOfInput => match self.phase {
                Phase::AwaitingInput => self.shut_down(),
                _ => Action::Nothing,
            },
            Event::Reply(raw) => match self.phase {
                Phase::Sending => match classify(&raw) {
                    Classification::Success(text) => {
                        let shown = trim(text.as_str()).to_owned();
                        self.pending_reply = text;
                        self.phase = Phase::Rendering;
                        Action::Render(shown)
                    },
                    Classification::RemoteError(status) => {
                        self.settle(Phase::ReportingError);
                        Action::ReportError(TurnError::Remote(status))
                    },
                    Classification::TransportError(cause) => {
                        self.settle(Phase::ReportingError);
                        Action::ReportError(TurnError::Transport(cause))
                    },
                },
                _ => Action::Nothing,
            },
            Event::Rendered => match self.phase {
                Phase::Rendering => {
                    self.context.add_to_history(
                        self.pending_input.as_str(),
                        self.pending_reply.as_str(),
                    );
                    self.settle(Phase::AwaitingInput);
                    Action::ReadLine
                },
                Phase::ReportingError => {
                    self.settle(Phase::AwaitingInput);
                    Action::ReadLine
                },
                _ => Action::Nothing,
            },
            Event::SaveFinished(ok) => match self.phase {
                Phase::ShuttingDown => {
                    self.context.clear_history();
                    self.settle(Phase::Ended);
                    Action::Exit { saved: ok }
                },
                _ => Action::Nothing,
            },
            Event::Interrupted => match self.phase {
                Phase::ShuttingDown | Phase::Ended => Action::Nothing,
                _ => self.shut_down(),
            },
        }
    }
}

} // verus!
