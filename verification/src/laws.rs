//! What holds of every session, proved from [`transition`].

use vstd::prelude::*;
use crate::reply::StructuredReplyView;
use crate::session::{
    answers, command_outputs, confirmation_of, exit_word, pending, primary_prompt, proposal_line,
    recorded, reply_line, transition, Confirmation, EventView, OutputView, PhaseView, RequestView,
    SessionView,
};
use crate::transcript::{ai_entry, is_entry, query_text, user_entry};

verus! {

/// The session after a series of events, taken in order.
pub open spec fn run(state: SessionView, events: Seq<EventView>) -> SessionView
    decreases events.len(),
{
    if events.len() == 0 {
        state
    } else {
        transition(run(state, events.drop_last()), events.last()).state
    }
}

/// The transcript lines that a series of events adds, in order.
pub open spec fn recorded_along(state: SessionView, events: Seq<EventView>) -> Seq<Seq<char>>
    decreases events.len(),
{
    if events.len() == 0 {
        Seq::empty()
    } else {
        recorded_along(state, events.drop_last()) + recorded(
            run(state, events.drop_last()).phase,
            events.last(),
        )
    }
}

/// A line other than the exit word, typed at the primary prompt, shows nothing and makes
/// the session wait on one completion call, for the transcript with that line added and
/// the line once more. Whatever the call comes to, the session then either shows
/// something or waits for the completion to be decoded; and whatever decoding comes to,
/// the session then shows something. So one call, and no more, lies between the line and
/// the first thing shown.
pub proof fn law_one_call_before_output(
    state: SessionView,
    input: Seq<char>,
    answer: EventView,
    decoded: EventView,
)
    requires
        state.phase is Prompting,
        input != exit_word(),
        answer is CompletionArrived || answer is CompletionFailed,
        decoded is ReplyDecoded || decoded is ReplyMalformed,
    ensures
        transition(state, EventView::Line(input)).outputs.len() == 0,
        pending(transition(state, EventView::Line(input)).state.phase) == (RequestView::Complete {
            prompt: query_text(state.transcript.push(user_entry(input)), input),
        }),
        ({
            let asked = transition(state, EventView::Line(input)).state;
            let answered = transition(asked, answer);
            &&& answer is CompletionFailed ==> answered.outputs.len() > 0
            &&& answer is CompletionArrived ==> answered.outputs.len() == 0 && pending(
                answered.state.phase,
            ) is Decode && transition(answered.state, decoded).outputs.len() > 0
        }),
{
}

/// A reply that is text for the user is recorded and shown, and the session is back at the
/// primary prompt: nothing is run.
pub proof fn law_text_reply_runs_nothing(state: SessionView, response: Seq<char>)
    requires
        state.phase is Decoding,
    ensures
        transition(
            state,
            EventView::ReplyDecoded(StructuredReplyView::Response(response)),
        ).outputs == seq![OutputView::Line(reply_line(response))],
        transition(
            state,
            EventView::ReplyDecoded(StructuredReplyView::Response(response)),
        ).state == (SessionView {
            transcript: state.transcript.push(ai_entry(response)),
            phase: PhaseView::Prompting,
        }),
{
    let after = transition(state, EventView::ReplyDecoded(StructuredReplyView::Response(response)));
    assert(after.state.transcript =~= state.transcript.push(ai_entry(response)));
}

/// A reply that is a command is recorded and offered, and the session waits for the
/// verdict. The command is asked to be run when the verdict is to execute or to interpret,
/// and only then; after any other line the session is back at the primary prompt. Once the
/// command has run the session does not ask for it again.
pub proof fn law_command_runs_once_if_confirmed(
    state: SessionView,
    command: Seq<char>,
    verdict: Seq<char>,
    stdout: Seq<char>,
    stderr: Seq<char>,
)
    requires
        state.phase is Decoding,
    ensures
        ({
            let offered = transition(
                state,
                EventView::ReplyDecoded(StructuredReplyView::Command(command)),
            );
            let decided = transition(offered.state, EventView::Line(verdict));
            let finished = transition(
                decided.state,
                EventView::CommandFinished { stdout, stderr },
            );
            &&& offered.outputs == seq![OutputView::Line(proposal_line(command))]
            &&& offered.state.transcript == state.transcript.push(ai_entry(command))
            &&& pending(offered.state.phase) == (RequestView::ReadLine { prompt: Seq::empty() })
            &&& decided.outputs.len() == 0
            &&& decided.state.transcript == offered.state.transcript
            &&& confirmation_of(verdict) != Confirmation::Skip ==> pending(decided.state.phase)
                == (RequestView::Execute { command })
            &&& confirmation_of(verdict) == Confirmation::Skip ==> decided.state.phase
                == PhaseView::Prompting
            &&& confirmation_of(verdict) == Confirmation::Execute ==> finished.outputs
                == command_outputs(true, stdout, stderr) && finished.state.phase
                == PhaseView::Prompting
            &&& confirmation_of(verdict) == Confirmation::Interpret ==> finished.outputs
                == command_outputs(false, stdout, stderr) && pending(finished.state.phase)
                == (RequestView::Complete { prompt: query_text(offered.state.transcript, stdout) })
            &&& !(pending(finished.state.phase) is Execute)
        }),
{
    let offered = transition(state, EventView::ReplyDecoded(StructuredReplyView::Command(command)));
    let decided = transition(offered.state, EventView::Line(verdict));
    let finished = transition(decided.state, EventView::CommandFinished { stdout, stderr });
    assert(offered.state.transcript =~= state.transcript.push(ai_entry(command)));
    assert(decided.state.transcript =~= offered.state.transcript);
    assert(finished.state.transcript =~= offered.state.transcript);
}

/// No failure ends the session or touches the transcript: a completion call that failed,
/// a completion that did not decode and a command that could not be started are each
/// answered with one line on the error stream, and the session is back at the primary
/// prompt.
pub proof fn law_failures_are_reported_and_survived(state: SessionView, event: EventView)
    requires
        answers(event, pending(state.phase)),
        event is CompletionFailed || event is ReplyMalformed || event is CommandNotStarted,
    ensures
        transition(state, event).state == (SessionView {
            transcript: state.transcript,
            phase: PhaseView::Prompting,
        }),
        transition(state, event).outputs.len() == 1,
        transition(state, event).outputs[0] is ErrorLine,
        pending(transition(state, event).state.phase) == (RequestView::ReadLine {
            prompt: primary_prompt(),
        }),
{
    assert(transition(state, event).state.transcript =~= state.transcript);
}

/// An event that does not answer the pending request changes nothing and shows nothing.
pub proof fn law_stray_events_are_ignored(state: SessionView, event: EventView)
    requires
        !answers(event, pending(state.phase)),
    ensures
        transition(state, event).state == state,
        transition(state, event).outputs.len() == 0,
{
    assert(transition(state, event).state.transcript =~= state.transcript);
}

/// The exit word, typed at the primary prompt, ends the session and leaves the transcript
/// as it was. Nothing that happens afterwards changes the session again, so the only
/// request it ever makes from then on is to stop.
pub proof fn law_exit_is_final(state: SessionView, later: Seq<EventView>)
    requires
        state.phase is Prompting,
    ensures
        transition(state, EventView::Line(exit_word())).state == (SessionView {
            transcript: state.transcript,
            phase: PhaseView::Ended,
        }),
        run(transition(state, EventView::Line(exit_word())).state, later) == transition(
            state,
            EventView::Line(exit_word()),
        ).state,
        pending(run(transition(state, EventView::Line(exit_word())).state, later).phase)
            is Stop,
    decreases later.len(),
{
    let ended = transition(state, EventView::Line(exit_word())).state;
    assert(ended.transcript =~= state.transcript);
    if later.len() > 0 {
        law_exit_is_final(state, later.drop_last());
        let before = run(ended, later.drop_last());
        assert(transition(before, later.last()).state.transcript =~= before.transcript);
    }
}

/// The transcript only grows at its end: after any series of events it is the transcript
/// from before, followed by the lines that the events recorded, each under its label.
pub proof fn law_append_only(state: SessionView, events: Seq<EventView>)
    ensures
        run(state, events).transcript == state.transcript + recorded_along(state, events),
        state.transcript.is_prefix_of(run(state, events).transcript),
        run(state, events).transcript.len() == state.transcript.len() + recorded_along(
            state,
            events,
        ).len(),
        forall|i: int|
            0 <= i < recorded_along(state, events).len() ==> is_entry(
                #[trigger] recorded_along(state, events)[i],
            ),
    decreases events.len(),
{
    if events.len() == 0 {
        assert(run(state, events).transcript =~= state.transcript + recorded_along(state, events));
    } else {
        law_append_only(state, events.drop_last());
        let before = run(state, events.drop_last());
        let added = recorded(before.phase, events.last());
        let earlier = recorded_along(state, events.drop_last());
        assert(run(state, events).transcript =~= state.transcript + (earlier + added));
        assert forall|i: int| 0 <= i < added.len() implies is_entry(#[trigger] added[i]) by {
            lemma_recorded_labelled(before.phase, events.last());
        }
    }
}

/// Every line that an event records carries an origin label.
pub proof fn lemma_recorded_labelled(phase: PhaseView, event: EventView)
    ensures
        recorded(phase, event).len() <= 1,
        forall|i: int|
            0 <= i < recorded(phase, event).len() ==> is_entry(#[trigger] recorded(phase, event)[i]),
{
    let lines = recorded(phase, event);
    if lines.len() > 0 {
        assert(lines.len() == 1);
        assert(is_entry(lines[0]));
    }
}

} // verus!
