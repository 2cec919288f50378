//! What holds of every run of the loop, proved over the transition function.

use crate::outcome::{ErrorKind, OutcomeView};
use crate::render::rendered;
use crate::request::RequestView;
use crate::watch::{
    byte_len, next, ActionView, ChangeKind, EventView, Modification, PolledView,
    State, POLL_SECONDS,
};
use vstd::prelude::*;

verus! {

/// Converting the same text twice asks for the same bytes to be written both
/// times, in the first render as in any later one, and a write that succeeds
/// reports the same number of bytes.
pub proof fn lemma_same_text_same_output(
    request: RequestView,
    first_watching: bool,
    second_watching: bool,
    text: Seq<char>,
)
    ensures
        ({
            let read = EventView::ReadDone(Ok(text));
            let written = EventView::WriteDone(Ok(()));
            let first = next(request, State::Reading { watching: first_watching }, read);
            let second = next(request, State::Reading { watching: second_watching }, read);
            let first_end = next(request, first.unwrap().state, written);
            let second_end = next(request, second.unwrap().state, written);
            &&& first is Some && second is Some
            &&& first.unwrap().step.action == ActionView::Write(rendered(text))
            &&& second.unwrap().step.action == first.unwrap().step.action
            &&& first_end is Some && second_end is Some
            &&& first_end.unwrap().step.outcome == second_end.unwrap().step.outcome
            &&& first_end.unwrap().step.line == second_end.unwrap().step.line
        }),
{
}

/// A write is asked for only in answer to a read that succeeded, and then it
/// is the rendering of the text that was read. So nothing else touches the
/// output: not a failed read, not a notification, not a failed setup.
pub proof fn lemma_write_only_after_read(request: RequestView, state: State, event: EventView)
    requires
        next(request, state, event) is Some,
        next(request, state, event).unwrap().step.action is Write,
    ensures
        state is Reading,
        event matches EventView::ReadDone(Ok(text)) && next(
            request,
            state,
            event,
        ).unwrap().step.action == ActionView::Write(rendered(text)),
{
}

/// A read that fails is reported as a read error with the error's text, asks
/// for no write and does not end the process: the loop goes on to what follows
/// every render.
pub proof fn lemma_failed_read_is_survived(request: RequestView, watching: bool, error: Seq<char>)
    ensures
        ({
            let answer = next(
                request,
                State::Reading { watching },
                EventView::ReadDone(Err(error)),
            );
            &&& answer is Some
            &&& answer.unwrap().step.outcome == Some(
                OutcomeView::Failure { kind: ErrorKind::Read, message: error },
            )
            &&& !(answer.unwrap().step.action is Write)
            &&& !(answer.unwrap().step.action is Exit)
            &&& answer.unwrap().state != State::Stopped
            &&& watching ==> answer.unwrap().state == State::Idle
        }),
{
}

/// A change of the input's content, seen while the loop is idle, runs one
/// render and no more: the change asks for the read, the text that was read
/// asks for the one write, of its rendering, and the end of that write
/// reports the bytes written and leaves the loop idle and waiting again.
pub proof fn lemma_change_runs_one_render(
    request: RequestView,
    what: Modification,
    text: Seq<char>,
)
    requires
        what.touches_content(),
    ensures
        ({
            let changed = next(
                request,
                State::Idle,
                EventView::Polled(PolledView::Change(ChangeKind::Modify(what))),
            );
            let read = next(request, changed.unwrap().state, EventView::ReadDone(Ok(text)));
            let written = next(request, read.unwrap().state, EventView::WriteDone(Ok(())));
            &&& changed is Some && read is Some && written is Some
            &&& changed.unwrap().state.rendering() && read.unwrap().state.rendering()
            &&& changed.unwrap().step.action == ActionView::Read
            &&& read.unwrap().step.action == ActionView::Write(rendered(text))
            &&& written.unwrap().step.action == ActionView::Wait { seconds: POLL_SECONDS }
            &&& written.unwrap().step.outcome == Some(
                OutcomeView::Success { bytes: byte_len(rendered(text)) as usize },
            )
            &&& written.unwrap().state == State::Idle
        }),
{
}

/// While the loop is idle, what does not modify the content starts no
/// render: a timeout, a failed delivery, a change of the metadata alone, a
/// rename, and a notification of any kind but `Modify` leave the loop idle
/// and ask it to wait again, and no read and no write is asked for.
pub proof fn lemma_other_polls_keep_idle(request: RequestView, polled: PolledView)
    requires
        polled matches PolledView::Change(ChangeKind::Modify(what)) ==> what is Metadata || what
            is Name,
    ensures
        ({
            let answer = next(request, State::Idle, EventView::Polled(polled));
            &&& answer is Some
            &&& answer.unwrap().state == State::Idle
            &&& answer.unwrap().step.action == ActionView::Wait { seconds: POLL_SECONDS }
            &&& polled is Failed || answer.unwrap().step.line is None
        }),
{
}

/// Whether `event` tells the loop, in `state`, that the input could not be
/// watched.
pub open spec fn failed_setup(state: State, event: EventView) -> bool {
    state is Subscribing && match event {
        EventView::Subscribed(Err(_)) => true,
        _ => false,
    }
}

/// Only a failed setup ends the process: a step asks for the exit exactly
/// when the subscription could not be made, and that is the only way into
/// `Stopped`, which no event leads out of. Of the failures that a step
/// reports, the fatal kind is the one that comes with the exit.
pub proof fn lemma_only_failed_setup_exits(request: RequestView, state: State, event: EventView)
    ensures
        state == State::Stopped ==> next(request, state, event) is None,
        next(request, state, event) matches Some(moved) ==> {
            &&& moved.step.action is Exit <==> failed_setup(state, event)
            &&& moved.state is Stopped <==> failed_setup(state, event)
            &&& moved.step.outcome matches Some(OutcomeView::Failure { kind, .. }) ==> (
            kind.fatal() <==> failed_setup(state, event))
        },
{
}

/// A render is never started while another is under way: a step asks for a
/// read only from the idle loop, on a notification that triggers a render.
/// (The first read is asked for by the start of the run, not by a step.)
pub proof fn lemma_read_only_on_change(request: RequestView, state: State, event: EventView)
    requires
        next(request, state, event) is Some,
        next(request, state, event).unwrap().step.action is Read,
    ensures
        state == State::Idle,
        event matches EventView::Polled(PolledView::Change(kind)) && kind.triggers_render(),
{
}

/// Whether the input is watched in `state`: the loop is idle, or in a render
/// that a notification started.
pub open spec fn watched(state: State) -> bool {
    match state {
        State::Idle => true,
        State::Reading { watching } => watching,
        State::Writing { watching, .. } => watching,
        State::Subscribing => false,
        State::Stopped => false,
    }
}

/// The state that `events` lead to from `state`, each taken in its turn. An
/// event that the loop refuses changes nothing.
pub open spec fn run(request: RequestView, state: State, events: Seq<EventView>) -> State
    decreases events.len(),
{
    if events.len() == 0 {
        state
    } else {
        let after = match next(request, state, events.first()) {
            Some(moved) => moved.state,
            None => state,
        };
        run(request, after, events.drop_first())
    }
}

/// Once the input is watched, no event ends the process or sets the watch up
/// again: whatever a read, a write or a wait comes back with, the loop asks
/// for a read, a write or a wait, and the input stays watched.
pub proof fn lemma_watched_step_goes_on(request: RequestView, state: State, event: EventView)
    requires
        watched(state),
        next(request, state, event) is Some,
    ensures
        watched(next(request, state, event).unwrap().state),
        !(next(request, state, event).unwrap().step.action is Exit),
        !(next(request, state, event).unwrap().step.action is Subscribe),
{
}

/// The loop never decides to stop: from a state in which the input is
/// watched, no sequence of events, failures among them, leads to `Stopped`.
pub proof fn lemma_watched_loop_never_stops(
    request: RequestView,
    state: State,
    events: Seq<EventView>,
)
    requires
        watched(state),
    ensures
        watched(run(request, state, events)),
        run(request, state, events) != State::Stopped,
    decreases events.len(),
{
    if events.len() > 0 {
        let after = match next(request, state, events.first()) {
            Some(moved) => moved.state,
            None => state,
        };
        if next(request, state, events.first()) is Some {
            lemma_watched_step_goes_on(request, state, events.first());
        }
        lemma_watched_loop_never_stops(request, after, events.drop_first());
    }
}

} // verus!
