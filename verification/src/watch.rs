//! The watch loop as a state machine.
//!
//! The loop never touches the file system. Each step takes what the caller's
//! last action came back with and answers with the next action; the caller
//! performs it and comes back with the result.

use crate::console::{
    changed_line, converted_line, read_failed_line, setup_failed_line, watch_failed_line,
    watching_line, write_failed_line, Line, LineView,
};
use crate::outcome::{ErrorKind, Outcome, OutcomeView};
use crate::render::{render, rendered};
use crate::request::{ConversionRequest, RequestView};
use vstd::prelude::*;
use vstd::utf8::encode_utf8;

verus! {

/// How long one wait for a notification may last, in seconds.
pub const POLL_SECONDS: u64 = 1;

/// The exit status after a failed setup.
pub const SETUP_FAILURE_STATUS: i32 = 1;

/// What a notification of kind `Modify` says has changed.
#[derive(Clone, Copy, Debug, PartialEq, Eq, Structural)]
pub enum Modification {
    /// Something changed, and the watcher does not say what.
    Any,
    /// The content changed.
    Data,
    /// The metadata changed: times, permissions, ownership.
    Metadata,
    /// The name changed.
    Name,
    /// Something else changed.
    Other,
}

impl Modification {
    /// Whether the content may have changed: it may have, unless the watcher
    /// says that the change was one of the metadata or of the name.
    pub open spec fn touches_content(self) -> bool {
        !(self is Metadata) && !(self is Name)
    }
}

/// The kind of a change notification.
#[derive(Clone, Copy, Debug, PartialEq, Eq, Structural)]
pub enum ChangeKind {
    /// An unclassified change.
    Any,
    /// The file was opened, closed or otherwise accessed.
    Access,
    /// The file was created.
    Create,
    /// The file was modified.
    Modify(Modification),
    /// The file was removed.
    Remove,
    /// Anything else.
    Other,
}

impl ChangeKind {
    /// Whether a notification of this kind starts a render: a modification
    /// that may have touched the content does, and nothing else. A change of
    /// the metadata alone, a rename, a creation and a removal do not.
    pub open spec fn triggers_render(self) -> bool {
        self matches ChangeKind::Modify(what) && what.touches_content()
    }

    /// Whether a notification of this kind starts a render.
    pub fn is_render_trigger(self) -> (trigger: bool)
        ensures
            trigger == self.triggers_render(),
    {
        match self {
            ChangeKind::Modify(Modification::Any) => true,
            ChangeKind::Modify(Modification::Data) => true,
            ChangeKind::Modify(Modification::Other) => true,
            ChangeKind::Modify(Modification::Metadata) => false,
            ChangeKind::Modify(Modification::Name) => false,
            ChangeKind::Any => false,
            ChangeKind::Access => false,
            ChangeKind::Create => false,
            ChangeKind::Remove => false,
            ChangeKind::Other => false,
        }
    }
}

/// What one bounded wait for a notification came back with.
#[derive(Debug, PartialEq, Eq)]
pub enum Polled {
    /// The time ran out with nothing pending.
    Timeout,
    /// The watcher could not deliver: it reported an error, or its channel
    /// is closed. The text is that of the underlying error.
    Failed(String),
    /// A notification about the input.
    Change(ChangeKind),
}

/// A wait's result with its error as a text.
pub enum PolledView {
    Timeout,
    Failed(Seq<char>),
    Change(ChangeKind),
}

impl View for Polled {
    type V = PolledView;

    open spec fn view(&self) -> PolledView {
        match *self {
            Polled::Timeout => PolledView::Timeout,
            Polled::Failed(error) => PolledView::Failed(error@),
            Polled::Change(kind) => PolledView::Change(kind),
        }
    }
}

/// What the caller's last action came back with. Errors are handed over as
/// the text of the underlying error.
#[derive(Debug, PartialEq, Eq)]
pub enum Event {
    /// The input was read, or could not be.
    ReadDone(Result<String, String>),
    /// The output was written, or could not be.
    WriteDone(Result<(), String>),
    /// The input is being watched, or could not be.
    Subscribed(Result<(), String>),
    /// A wait for a notification ended.
    Polled(Polled),
}

/// An event with its texts as sequences.
pub enum EventView {
    ReadDone(Result<Seq<char>, Seq<char>>),
    WriteDone(Result<(), Seq<char>>),
    Subscribed(Result<(), Seq<char>>),
    Polled(PolledView),
}

impl View for Event {
    type V = EventView;

    open spec fn view(&self) -> EventView {
        match *self {
            Event::ReadDone(Ok(text)) => EventView::ReadDone(Ok(text@)),
            Event::ReadDone(Err(error)) => EventView::ReadDone(Err(error@)),
            Event::WriteDone(Ok(())) => EventView::WriteDone(Ok(())),
            Event::WriteDone(Err(error)) => EventView::WriteDone(Err(error@)),
            Event::Subscribed(Ok(())) => EventView::Subscribed(Ok(())),
            Event::Subscribed(Err(error)) => EventView::Subscribed(Err(error@)),
            Event::Polled(polled) => EventView::Polled(polled@),
        }
    }
}

/// What the caller is to do next.
#[derive(Debug, PartialEq, Eq)]
pub enum Action {
    /// Read the whole input as UTF-8 text and answer with `Event::ReadDone`.
    Read,
    /// Replace the content of the output with this text and answer with
    /// `Event::WriteDone`.
    Write(String),
    /// Watch the input path, not recursively, and answer with
    /// `Event::Subscribed`.
    Subscribe,
    /// Wait for the next notification, `seconds` at most, and answer with
    /// `Event::Polled`.
    Wait { seconds: u64 },
    /// End the process with this status.
    Exit { status: i32 },
}

/// An action with its text as a sequence.
pub enum ActionView {
    Read,
    Write(Seq<char>),
    Subscribe,
    Wait { seconds: u64 },
    Exit { status: i32 },
}

impl View for Action {
    type V = ActionView;

    open spec fn view(&self) -> ActionView {
        match *self {
            Action::Read => ActionView::Read,
            Action::Write(html) => ActionView::Write(html@),
            Action::Subscribe => ActionView::Subscribe,
            Action::Wait { seconds } => ActionView::Wait { seconds },
            Action::Exit { status } => ActionView::Exit { status },
        }
    }
}

/// The answer to one event.
#[derive(Debug, PartialEq, Eq)]
pub struct Step {
    /// The line to print before anything else is done, if there is one.
    pub line: Option<Line>,
    /// What ended in this step, if anything did.
    pub outcome: Option<Outcome>,
    /// What to do next.
    pub action: Action,
}

/// A step over views.
pub struct StepView {
    pub line: Option<LineView>,
    pub outcome: Option<OutcomeView>,
    pub action: ActionView,
}

impl View for Step {
    type V = StepView;

    open spec fn view(&self) -> StepView {
        StepView {
            line: match self.line {
                Some(line) => Some(line@),
                None => None,
            },
            outcome: match self.outcome {
                Some(outcome) => Some(outcome@),
                None => None,
            },
            action: self.action@,
        }
    }
}

/// Where the loop stands. `Reading` and `Writing` are the two halves of a
/// render; `watching` says whether the input is watched already, which it is
/// in every render but the first.
#[derive(Clone, Copy, Debug, PartialEq, Eq, Structural)]
pub enum State {
    /// A render waits for the input's text.
    Reading { watching: bool },
    /// A render waits for the write of `bytes` bytes to end.
    Writing { watching: bool, bytes: usize },
    /// The first render is over and the subscription is being set up.
    Subscribing,
    /// The loop waits for a notification.
    Idle,
    /// The setup failed and the process is to end.
    Stopped,
}

impl State {
    /// Whether a render is under way.
    pub open spec fn rendering(self) -> bool {
        self is Reading || self is Writing
    }

    /// Whether a render is under way.
    pub fn is_rendering(self) -> (rendering: bool)
        ensures
            rendering == self.rendering(),
    {
        match self {
            State::Reading { .. } => true,
            State::Writing { .. } => true,
            State::Subscribing => false,
            State::Idle => false,
            State::Stopped => false,
        }
    }
}

/// One move of the loop: the state it enters and the step it answers with.
pub struct Transition {
    pub state: State,
    pub step: StepView,
}

/// The length of `text` in bytes of UTF-8.
pub open spec fn byte_len(text: Seq<char>) -> nat {
    encode_utf8(text).len()
}

/// Where a render leaves the loop, whatever its outcome: waiting for a
/// notification if the input is watched, else setting the watch up.
pub open spec fn after_render(watching: bool) -> (State, ActionView) {
    if watching {
        (State::Idle, ActionView::Wait { seconds: POLL_SECONDS })
    } else {
        (State::Subscribing, ActionView::Subscribe)
    }
}

/// The state and step in which a render goes on once the input's text is
/// rendered to `html`.
pub open spec fn write_step(watching: bool, html: Seq<char>) -> Transition {
    Transition {
        state: State::Writing { watching, bytes: byte_len(html) as usize },
        step: StepView { line: None, outcome: None, action: ActionView::Write(html) },
    }
}

/// The transition function: the move that `event` makes in `state`, or
/// `None` where the event does not answer the action that the state waits
/// for.
pub open spec fn next(request: RequestView, state: State, event: EventView) -> Option<Transition> {
    match (state, event) {
        (State::Reading { watching }, EventView::ReadDone(Ok(text))) => Some(
            write_step(watching, rendered(text)),
        ),
        (State::Reading { watching }, EventView::ReadDone(Err(error))) => Some(
            render_end(
                watching,
                read_failed_line(request, error),
                OutcomeView::Failure { kind: ErrorKind::Read, message: error },
            ),
        ),
        (State::Writing { watching, bytes }, EventView::WriteDone(Ok(()))) => Some(
            render_end(watching, converted_line(request), OutcomeView::Success { bytes }),
        ),
        (State::Writing { watching, bytes }, EventView::WriteDone(Err(error))) => Some(
            render_end(
                watching,
                write_failed_line(request, error),
                OutcomeView::Failure { kind: ErrorKind::Write, message: error },
            ),
        ),
        (State::Subscribing, EventView::Subscribed(Ok(()))) => Some(
            Transition {
                state: State::Idle,
                step: StepView {
                    line: Some(watching_line(request)),
                    outcome: None,
                    action: ActionView::Wait { seconds: POLL_SECONDS },
                },
            },
        ),
        (State::Subscribing, EventView::Subscribed(Err(error))) => Some(
            Transition {
                state: State::Stopped,
                step: StepView {
                    line: Some(setup_failed_line(error)),
                    outcome: Some(OutcomeView::Failure { kind: ErrorKind::Setup, message: error }),
                    action: ActionView::Exit { status: SETUP_FAILURE_STATUS },
                },
            },
        ),
        (State::Idle, EventView::Polled(PolledView::Change(kind))) => if kind.triggers_render() {
            Some(
                Transition {
                    state: State::Reading { watching: true },
                    step: StepView {
                        line: Some(changed_line()),
                        outcome: None,
                        action: ActionView::Read,
                    },
                },
            )
        } else {
            Some(quiet_wait())
        },
        (State::Idle, EventView::Polled(PolledView::Timeout)) => Some(quiet_wait()),
        (State::Idle, EventView::Polled(PolledView::Failed(error))) => Some(
            Transition {
                state: State::Idle,
                step: StepView {
                    line: Some(watch_failed_line(error)),
                    outcome: Some(
                        OutcomeView::Failure { kind: ErrorKind::WatchChannel, message: error },
                    ),
                    action: ActionView::Wait { seconds: POLL_SECONDS },
                },
            },
        ),
        _ => None,
    }
}

/// The move that ends a render: its line and its outcome, then what
/// [`after_render`] says.
pub open spec fn render_end(watching: bool, line: LineView, outcome: OutcomeView) -> Transition {
    Transition {
        state: after_render(watching).0,
        step: StepView {
            line: Some(line),
            outcome: Some(outcome),
            action: after_render(watching).1,
        },
    }
}

/// The move of the idle loop that prints nothing and waits again.
pub open spec fn quiet_wait() -> Transition {
    Transition {
        state: State::Idle,
        step: StepView {
            line: None,
            outcome: None,
            action: ActionView::Wait { seconds: POLL_SECONDS },
        },
    }
}

/// The step that opens every run: the first render starts at once, before
/// the input is watched.
pub open spec fn first_step() -> Transition {
    Transition {
        state: State::Reading { watching: false },
        step: StepView { line: None, outcome: None, action: ActionView::Read },
    }
}

/// The view of an answer of [`WatchLoop::step`].
pub open spec fn answer_view(answer: Option<Step>) -> Option<StepView> {
    match answer {
        Some(step) => Some(step@),
        None => None,
    }
}

/// Goes on with a render once the input's text is rendered to `html`: asks
/// for the write and remembers how many bytes it is to write.
pub fn begin_write(watching: bool, html: String) -> (begun: (State, Step))
    ensures
        begun.0 == write_step(watching, html@).state,
        begun.1@ == write_step(watching, html@).step,
{
    let bytes = html.as_str().len();
    (
        State::Writing { watching, bytes },
        Step { line: None, outcome: None, action: Action::Write(html) },
    )
}

/// Ends a render: the state and the action that follow it.
pub fn finish_render(watching: bool) -> (finished: (State, Action))
    ensures
        (finished.0, finished.1@) == after_render(watching),
{
    if watching {
        (State::Idle, Action::Wait { seconds: POLL_SECONDS })
    } else {
        (State::Subscribing, Action::Subscribe)
    }
}

/// The watch loop: the request it serves and where it stands.
#[derive(Debug)]
pub struct WatchLoop {
    request: ConversionRequest,
    state: State,
}

/// A loop as its request and its state.
pub struct LoopView {
    pub request: RequestView,
    pub state: State,
}

impl View for WatchLoop {
    type V = LoopView;

    closed spec fn view(&self) -> LoopView {
        LoopView { request: self.request@, state: self.state }
    }
}

impl WatchLoop {
    /// Starts a run for `request`. The first render begins at once, whether
    /// or not the input has changed: the step asks for the read.
    pub fn new(request: ConversionRequest) -> (started: (WatchLoop, Step))
        ensures
            started.0@ == (LoopView { request: request@, state: first_step().state }),
            started.1@ == first_step().step,
    {
        (
            WatchLoop { request, state: State::Reading { watching: false } },
            Step { line: None, outcome: None, action: Action::Read },
        )
    }

    /// Where the loop stands.
    pub fn state(&self) -> (state: State)
        ensures
            state == self@.state,
    {
        self.state
    }

    /// The request that the loop serves.
    pub fn request(&self) -> (request: &ConversionRequest)
        ensures
            request@ == self@.request,
    {
        &self.request
    }

    /// Takes what the last action came back with and answers with the next
    /// step, as [`next`] says. An event that does not answer the action that
    /// the loop waits for is refused with `None` and changes nothing.
    pub fn step(&mut self, event: Event) -> (answer: Option<Step>)
        ensures
            final(self)@.request == old(self)@.request,
            match next(old(self)@.request, old(self)@.state, event@) {
                Some(moved) => final(self)@.state == moved.state && answer_view(answer) == Some(
                    moved.step,
                ),
                None => final(self)@.state == old(self)@.state && answer is None,
            },
    {
        match (self.state, event) {
            (State::Reading { watching }, Event::ReadDone(Ok(text))) => {
                let html = render(text.as_str());
                let (state, step) = begin_write(watching, html);
                self.state = state;
                Some(step)
            },
            (State::Reading { watching }, Event::ReadDone(Err(error))) => {
                let line = Line::read_failed(&self.request, error.as_str());
                let (state, action) = finish_render(watching);
                self.state = state;
                Some(
                    Step {
                        line: Some(line),
                        outcome: Some(Outcome::Failure { kind: ErrorKind::Read, message: error }),
                        action,
                    },
                )
            },
            (State::Writing { watching, bytes }, Event::WriteDone(Ok(()))) => {
                let line = Line::converted(&self.request);
                let (state, action) = finish_render(watching);
                self.state = state;
                Some(Step { line: Some(line), outcome: Some(Outcome::Success { bytes }), action })
            },
            (State::Writing { watching, bytes }, Event::WriteDone(Err(error))) => {
                let line = Line::write_failed(&self.request, error.as_str());
                let (state, action) = finish_render(watching);
                self.state = state;
                Some(
                    Step {
                        line: Some(line),
                        outcome: Some(Outcome::Failure { kind: ErrorKind::Write, message: error }),
                        action,
                    },
                )
            },
            (State::Subscribing, Event::Subscribed(Ok(()))) => {
                self.state = State::Idle;
                Some(
                    Step {
                        line: Some(Line::watching(&self.request)),
                        outcome: None,
                        action: Action::Wait { seconds: POLL_SECONDS },
                    },
                )
            },
            (State::Subscribing, Event::Subscribed(Err(error))) => {
                let line = Line::setup_failed(error.as_str());
                self.state = State::Stopped;
                Some(
                    Step {
                        line: Some(line),
                        outcome: Some(Outcome::Failure { kind: ErrorKind::Setup, message: error }),
                        action: Action::Exit { status: SETUP_FAILURE_STATUS },
                    },
                )
            },
            (State::Idle, Event::Polled(Polled::Change(kind))) => {
                if kind.is_render_trigger() {
                    self.state = State::Reading { watching: true };
                    Some(Step { line: Some(Line::changed()), outcome: None, action: Action::Read })
                } else {
                    Some(
                        Step {
                            line: None,
                            outcome: None,
                            action: Action::Wait { seconds: POLL_SECONDS },
                        },
                    )
                }
            },
            (State::Idle, Event::Polled(Polled::Timeout)) => Some(
                Step { line: None, outcome: None, action: Action::Wait { seconds: POLL_SECONDS } },
            ),
            (State::Idle, Event::Polled(Polled::Failed(error))) => {
                let line = Line::watch_failed(error.as_str());
                Some(
                    Step {
                        line: Some(line),
                        outcome: Some(
                            Outcome::Failure { kind: ErrorKind::WatchChannel, message: error },
                        ),
                        action: Action::Wait { seconds: POLL_SECONDS },
                    },
                )
            },
            _ => None,
        }
    }
}

} // verus!
