//! The interactive loop as a state machine.
//!
//! A [`Session`] never reads, prints, calls the network or starts a process. It tells its
//! driver what to do next ([`Session::request`]), takes what came of it as an [`Event`]
//! ([`Session::step`]) and answers with the lines to show. [`transition`] is the whole
//! behaviour, written over plain text.

use vstd::prelude::*;
use vstd::string::*;
use vstd::utf8::{encode_utf8, valid_utf8};
use crate::reply::{StructuredReply, StructuredReplyView};
use crate::text::{debug_quoted, debug_text, join2, lossy, lossy_text, same_text, trim, trimmed};
use crate::transcript::{ai_entry, interpretation_entry, query_text, user_entry, Transcript};

verus! {

/// A line for the user.
#[derive(Debug, PartialEq, Eq)]
pub enum Output {
    /// A line for standard output.
    Line(String),
    /// A line for the error stream.
    ErrorLine(String),
}

/// What an [`Output`] holds, as plain text.
pub enum OutputView {
    Line(Seq<char>),
    ErrorLine(Seq<char>),
}

impl View for Output {
    type V = OutputView;

    open spec fn view(&self) -> OutputView {
        match self {
            Output::Line(text) => OutputView::Line(text@),
            Output::ErrorLine(text) => OutputView::ErrorLine(text@),
        }
    }
}

/// What the driver has to do before the session can go on.
#[derive(Debug, PartialEq, Eq)]
pub enum Request {
    /// Show `prompt` without a line break, then read one line. Answered by [`Event::Line`].
    ReadLine { prompt: String },
    /// Ask the completion client with `prompt`. Answered by [`Event::CompletionArrived`] or
    /// [`Event::CompletionFailed`].
    Complete { prompt: String },
    /// Decode `text` as a structured reply. Answered by [`Event::ReplyDecoded`] or
    /// [`Event::ReplyMalformed`].
    Decode { text: String },
    /// Run `command` through the shell. Answered by [`Event::CommandFinished`] or
    /// [`Event::CommandNotStarted`].
    Execute { command: String },
    /// The session is over.
    Stop,
}

/// What a [`Request`] holds, as plain text.
pub enum RequestView {
    ReadLine { prompt: Seq<char> },
    Complete { prompt: Seq<char> },
    Decode { text: Seq<char> },
    Execute { command: Seq<char> },
    Stop,
}

impl View for Request {
    type V = RequestView;

    open spec fn view(&self) -> RequestView {
        match self {
            Request::ReadLine { prompt } => RequestView::ReadLine { prompt: prompt@ },
            Request::Complete { prompt } => RequestView::Complete { prompt: prompt@ },
            Request::Decode { text } => RequestView::Decode { text: text@ },
            Request::Execute { command } => RequestView::Execute { command: command@ },
            Request::Stop => RequestView::Stop,
        }
    }
}

/// What came of a [`Request`].
#[derive(Debug, PartialEq, Eq)]
pub enum Event {
    /// The line that was read, without surrounding white space.
    Line(String),
    /// The completion client returned this text.
    CompletionArrived(String),
    /// The completion client failed with this message.
    CompletionFailed(String),
    /// The text decoded to this reply.
    ReplyDecoded(StructuredReply),
    /// The text did not decode; the decoder said this.
    ReplyMalformed(String),
    /// The command ran and wrote this to its two streams.
    CommandFinished { stdout: String, stderr: String },
    /// The command could not be started, for this reason.
    CommandNotStarted(String),
}

/// What an [`Event`] holds, as plain text.
pub enum EventView {
    Line(Seq<char>),
    CompletionArrived(Seq<char>),
    CompletionFailed(Seq<char>),
    ReplyDecoded(StructuredReplyView),
    ReplyMalformed(Seq<char>),
    CommandFinished { stdout: Seq<char>, stderr: Seq<char> },
    CommandNotStarted(Seq<char>),
}

impl View for Event {
    type V = EventView;

    open spec fn view(&self) -> EventView {
        match self {
            Event::Line(line) => EventView::Line(line@),
            Event::CompletionArrived(text) => EventView::CompletionArrived(text@),
            Event::CompletionFailed(error) => EventView::CompletionFailed(error@),
            Event::ReplyDecoded(reply) => EventView::ReplyDecoded(reply@),
            Event::ReplyMalformed(error) => EventView::ReplyMalformed(error@),
            Event::CommandFinished { stdout, stderr } => EventView::CommandFinished {
                stdout: stdout@,
                stderr: stderr@,
            },
            Event::CommandNotStarted(error) => EventView::CommandNotStarted(error@),
        }
    }
}

/// Where a session stands between two events.
#[derive(Debug, PartialEq, Eq)]
pub enum Phase {
    /// At the primary prompt, waiting for the user's line.
    Prompting,
    /// Waiting for the completion of the user's request.
    Querying { prompt: String },
    /// Waiting for the completion to be decoded.
    Decoding { text: String },
    /// A command was offered; waiting for the user's verdict.
    Confirming { command: String },
    /// The command is running. `interpret` says whether its output goes back to the model.
    Running { command: String, interpret: bool },
    /// Waiting for the model's reading of the command's output.
    Interpreting { prompt: String },
    /// The user left.
    Ended,
}

/// What a [`Phase`] holds, as plain text.
pub enum PhaseView {
    Prompting,
    Querying { prompt: Seq<char> },
    Decoding { text: Seq<char> },
    Confirming { command: Seq<char> },
    Running { command: Seq<char>, interpret: bool },
    Interpreting { prompt: Seq<char> },
    Ended,
}

impl View for Phase {
    type V = PhaseView;

    open spec fn view(&self) -> PhaseView {
        match self {
            Phase::Prompting => PhaseView::Prompting,
            Phase::Querying { prompt } => PhaseView::Querying { prompt: prompt@ },
            Phase::Decoding { text } => PhaseView::Decoding { text: text@ },
            Phase::Confirming { command } => PhaseView::Confirming { command: command@ },
            Phase::Running { command, interpret } => PhaseView::Running {
                command: command@,
                interpret: *interpret,
            },
            Phase::Interpreting { prompt } => PhaseView::Interpreting { prompt: prompt@ },
            Phase::Ended => PhaseView::Ended,
        }
    }
}

/// The user's verdict on an offered command.
#[derive(Clone, Copy, Debug, PartialEq, Eq, Structural)]
pub enum Confirmation {
    /// Run it and show what it printed.
    Execute,
    /// Run it and let the model read what it printed.
    Interpret,
    /// Leave it.
    Skip,
}

/// The word that ends the session.
pub open spec fn exit_word() -> Seq<char> {
    "exit"@
}

/// The marker of the primary prompt.
pub open spec fn primary_prompt() -> Seq<char> {
    "ash: "@
}

/// The line shown when the user leaves.
pub open spec fn farewell() -> Seq<char> {
    "Exiting..."@
}

/// The line that shows a reply meant for reading.
pub open spec fn reply_line(response: Seq<char>) -> Seq<char> {
    "gpt> "@ + response
}

/// The line that offers a command and asks for a verdict.
pub open spec fn proposal_line(command: Seq<char>) -> Seq<char> {
    "run? (y/i/n)> "@ + command
}

/// The message for a completion call that failed.
pub open spec fn send_failure(error: Seq<char>) -> Seq<char> {
    "Error sending request: "@ + error
}

/// The message for a completion that did not decode.
pub open spec fn decode_failure(error: Seq<char>) -> Seq<char> {
    "Error deserializing response: "@ + error
}

/// The error line for a failed turn, given the message in its quoted form.
pub open spec fn report_of_quoted(quoted: Seq<char>) -> Seq<char> {
    "Error: "@ + quoted
}

/// The error line for a failed turn: the message in quotes, as `{:?}` prints it.
pub open spec fn error_report(message: Seq<char>) -> Seq<char> {
    report_of_quoted(debug_text(message))
}

/// The error line for an interpretation round that failed.
pub open spec fn interpretation_failure(message: Seq<char>) -> Seq<char> {
    "Error interpreting result: "@ + message
}

/// The error line for a command that could not be started.
pub open spec fn spawn_failure(error: Seq<char>) -> Seq<char> {
    "Failed to execute command: "@ + error
}

/// How a line typed at the verdict prompt is read: `y` runs the command, `i` runs it and
/// has its output interpreted, every other line leaves it.
pub open spec fn confirmation_of(line: Seq<char>) -> Confirmation {
    if line == "y"@ {
        Confirmation::Execute
    } else if line == "i"@ {
        Confirmation::Interpret
    } else {
        Confirmation::Skip
    }
}

/// The request that a phase waits on.
pub open spec fn pending(phase: PhaseView) -> RequestView {
    match phase {
        PhaseView::Prompting => RequestView::ReadLine { prompt: primary_prompt() },
        PhaseView::Querying { prompt } => RequestView::Complete { prompt },
        PhaseView::Decoding { text } => RequestView::Decode { text },
        PhaseView::Confirming { command } => RequestView::ReadLine { prompt: Seq::empty() },
        PhaseView::Running { command, interpret } => RequestView::Execute { command },
        PhaseView::Interpreting { prompt } => RequestView::Complete { prompt },
        PhaseView::Ended => RequestView::Stop,
    }
}

/// Whether an event is one of those that a request is answered by.
pub open spec fn answers(event: EventView, request: RequestView) -> bool {
    match request {
        RequestView::ReadLine { prompt } => event is Line,
        RequestView::Complete { prompt } => event is CompletionArrived || event is CompletionFailed,
        RequestView::Decode { text } => event is ReplyDecoded || event is ReplyMalformed,
        RequestView::Execute { command } => event is CommandFinished || event is CommandNotStarted,
        RequestView::Stop => false,
    }
}

/// A session as plain values: the transcript's lines and the phase.
pub struct SessionView {
    pub transcript: Seq<Seq<char>>,
    pub phase: PhaseView,
}

/// What one event leads to: the session afterwards and the lines to show, in order.
pub struct Outcome {
    pub state: SessionView,
    pub outputs: Seq<OutputView>,
}

/// The lines that a finished command gives rise to: its standard output when it is shown
/// (`echo`), then its error output unless that is empty.
pub open spec fn command_outputs(echo: bool, stdout: Seq<char>, stderr: Seq<char>) -> Seq<
    OutputView,
> {
    let shown = if echo {
        seq![OutputView::Line(stdout)]
    } else {
        Seq::<OutputView>::empty()
    };
    if stderr.len() == 0 {
        shown
    } else {
        shown.push(OutputView::ErrorLine(stderr))
    }
}

/// The transcript lines that an event adds to a session in the given phase.
pub open spec fn recorded(phase: PhaseView, event: EventView) -> Seq<Seq<char>> {
    match (phase, event) {
        (PhaseView::Prompting, EventView::Line(input)) => if input == exit_word() {
            Seq::empty()
        } else {
            seq![user_entry(input)]
        },
        (PhaseView::Decoding { text }, EventView::ReplyDecoded(reply)) => seq![
            ai_entry(reply.payload()),
        ],
        (PhaseView::Interpreting { prompt }, EventView::CompletionArrived(text)) => seq![
            interpretation_entry(text),
        ],
        _ => Seq::empty(),
    }
}

/// The phase that follows an event.
pub open spec fn next_phase(state: SessionView, event: EventView) -> PhaseView {
    match (state.phase, event) {
        (PhaseView::Prompting, EventView::Line(input)) => if input == exit_word() {
            PhaseView::Ended
        } else {
            PhaseView::Querying {
                prompt: query_text(state.transcript.push(user_entry(input)), input),
            }
        },
        (PhaseView::Querying { prompt }, EventView::CompletionArrived(text)) => {
            PhaseView::Decoding { text }
        },
        (PhaseView::Querying { prompt }, EventView::CompletionFailed(error)) => {
            PhaseView::Prompting
        },
        (PhaseView::Decoding { text }, EventView::ReplyDecoded(reply)) => match reply {
            StructuredReplyView::Command(command) => PhaseView::Confirming { command },
            StructuredReplyView::Response(response) => PhaseView::Prompting,
        },
        (PhaseView::Decoding { text }, EventView::ReplyMalformed(error)) => PhaseView::Prompting,
        (PhaseView::Confirming { command }, EventView::Line(line)) => match confirmation_of(
            line,
        ) {
            Confirmation::Execute => PhaseView::Running { command, interpret: false },
            Confirmation::Interpret => PhaseView::Running { command, interpret: true },
            Confirmation::Skip => PhaseView::Prompting,
        },
        (
            PhaseView::Running { command, interpret },
            EventView::CommandFinished { stdout, stderr },
        ) => if interpret {
            PhaseView::Interpreting { prompt: query_text(state.transcript, stdout) }
        } else {
            PhaseView::Prompting
        },
        (PhaseView::Running { command, interpret }, EventView::CommandNotStarted(error)) => {
            PhaseView::Prompting
        },
        (PhaseView::Interpreting { prompt }, EventView::CompletionArrived(text)) => {
            PhaseView::Prompting
        },
        (PhaseView::Interpreting { prompt }, EventView::CompletionFailed(error)) => {
            PhaseView::Prompting
        },
        _ => state.phase,
    }
}

/// The lines that an event makes the session show.
pub open spec fn shown(phase: PhaseView, event: EventView) -> Seq<OutputView> {
    match (phase, event) {
        (PhaseView::Prompting, EventView::Line(input)) => if input == exit_word() {
            seq![OutputView::Line(farewell())]
        } else {
            Seq::empty()
        },
        (PhaseView::Querying { prompt }, EventView::CompletionFailed(error)) => seq![
            OutputView::ErrorLine(error_report(send_failure(error))),
        ],
        (PhaseView::Decoding { text }, EventView::ReplyDecoded(reply)) => match reply {
            StructuredReplyView::Command(command) => seq![
                OutputView::Line(proposal_line(command)),
            ],
            StructuredReplyView::Response(response) => seq![
                OutputView::Line(reply_line(response)),
            ],
        },
        (PhaseView::Decoding { text }, EventView::ReplyMalformed(error)) => seq![
            OutputView::ErrorLine(error_report(decode_failure(error))),
        ],
        (
            PhaseView::Running { command, interpret },
            EventView::CommandFinished { stdout, stderr },
        ) => command_outputs(!interpret, stdout, stderr),
        (PhaseView::Running { command, interpret }, EventView::CommandNotStarted(error)) => seq![
            OutputView::ErrorLine(spawn_failure(error)),
        ],
        (PhaseView::Interpreting { prompt }, EventView::CompletionArrived(text)) => seq![
            OutputView::Line(text),
        ],
        (PhaseView::Interpreting { prompt }, EventView::CompletionFailed(error)) => seq![
            OutputView::ErrorLine(interpretation_failure(send_failure(error))),
        ],
        _ => Seq::empty(),
    }
}

/// The whole behaviour of the loop: what `event` does to a session in `state`.
///
/// An event that does not answer the pending request changes nothing and shows nothing.
pub open spec fn transition(state: SessionView, event: EventView) -> Outcome {
    Outcome {
        state: SessionView {
            transcript: state.transcript + recorded(state.phase, event),
            phase: next_phase(state, event),
        },
        outputs: shown(state.phase, event),
    }
}

/// The views of the lines, in order.
pub open spec fn output_views(outputs: Seq<Output>) -> Seq<OutputView> {
    outputs.map_values(|output: Output| output@)
}

impl Event {
    /// The event for a line as it was read: the line without the white space at its ends.
    pub fn line(raw: &str) -> (event: Event)
        ensures
            event@ == EventView::Line(trimmed(raw@)),
    {
        Event::Line(String::from_str(trim(raw)))
    }

    /// The event for a command that ran, from the bytes it wrote to its two streams. Bytes
    /// that are valid UTF-8 are read as the text they encode.
    pub fn command_finished(stdout: &[u8], stderr: &[u8]) -> (event: Event)
        ensures
            event@ == (EventView::CommandFinished {
                stdout: lossy_text(stdout@),
                stderr: lossy_text(stderr@),
            }),
            valid_utf8(stdout@) ==> encode_utf8(lossy_text(stdout@)) == stdout@,
            valid_utf8(stderr@) ==> encode_utf8(lossy_text(stderr@)) == stderr@,
    {
        Event::CommandFinished { stdout: lossy(stdout), stderr: lossy(stderr) }
    }
}

impl Confirmation {
    /// Reads the line typed at the verdict prompt.
    pub fn of(line: &str) -> (verdict: Confirmation)
        ensures
            verdict == confirmation_of(line@),
    {
        if same_text(line, "y") {
            Confirmation::Execute
        } else if same_text(line, "i") {
            Confirmation::Interpret
        } else {
            Confirmation::Skip
        }
    }
}

/// The error line for a failed turn, from the message as `{:?}` prints it.
pub fn report_line(quoted: &str) -> (line: String)
    ensures
        line@ == report_of_quoted(quoted@),
{
    join2("Error: ", quoted)
}

/// The error line for a failed turn.
pub fn report(message: &str) -> (line: String)
    ensures
        line@ == error_report(message@),
{
    let quoted = debug_quoted(message);
    report_line(quoted.as_str())
}

/// One run of the interactive loop: the transcript and the phase.
pub struct Session {
    transcript: Transcript,
    phase: Phase,
}

impl View for Session {
    type V = SessionView;

    closed spec fn view(&self) -> SessionView {
        SessionView { transcript: self.transcript@, phase: self.phase@ }
    }
}

impl Session {
    /// A session at the primary prompt with an empty transcript.
    pub fn new() -> (session: Session)
        ensures
            session@.transcript == Seq::<Seq<char>>::empty(),
            session@.phase == PhaseView::Prompting,
    {
        Session { transcript: Transcript::new(), phase: Phase::Prompting }
    }

    /// The transcript so far.
    pub fn transcript(&self) -> (transcript: &Transcript)
        ensures
            transcript@ == self@.transcript,
    {
        &self.transcript
    }

    /// Where the session stands.
    pub fn phase(&self) -> (phase: &Phase)
        ensures
            phase@ == self@.phase,
    {
        &self.phase
    }

    /// Whether the user has left.
    pub fn is_over(&self) -> (over: bool)
        ensures
            over == (self@.phase is Ended),
    {
        match &self.phase {
            Phase::Ended => true,
            _ => false,
        }
    }

    /// What the driver has to do next.
    pub fn request(&self) -> (request: Request)
        ensures
            request@ == pending(self@.phase),
    {
        match &self.phase {
            Phase::Prompting => Request::ReadLine { prompt: String::from_str("ash: ") },
            Phase::Querying { prompt } => Request::Complete { prompt: prompt.clone() },
            Phase::Decoding { text } => Request::Decode { text: text.clone() },
            Phase::Confirming { command } => Request::ReadLine { prompt: String::new() },
            Phase::Running { command, interpret } => Request::Execute { command: command.clone() },
            Phase::Interpreting { prompt } => Request::Complete { prompt: prompt.clone() },
            Phase::Ended => Request::Stop,
        }
    }

    /// Takes what came of the pending request and returns the lines to show, in order.
    pub fn step(&mut self, event: Event) -> (outputs: Vec<Output>)
        ensures
            final(self)@ == transition(old(self)@, event@).state,
            output_views(outputs@) == transition(old(self)@, event@).outputs,
    {
        let mut outputs: Vec<Output> = Vec::new();
        let ghost before = self@;
        let ghost seen = event@;
        let mut phase = Phase::Ended;
        std::mem::swap(&mut self.phase, &mut phase);
        let next = match (phase, event) {
            (Phase::Prompting, Event::Line(input)) => {
                if same_text(input.as_str(), "exit") {
                    outputs.push(Output::Line(String::from_str("Exiting...")));
                    Phase::Ended
                } else {
                    self.transcript.record_user(input.as_str());
                    Phase::Querying { prompt: self.transcript.query(input.as_str()) }
                }
            },
            (Phase::Querying { prompt }, Event::CompletionArrived(text)) => Phase::Decoding {
                text,
            },
            (Phase::Querying { prompt }, Event::CompletionFailed(error)) => {
                let message = join2("Error sending request: ", error.as_str());
                outputs.push(Output::ErrorLine(report(message.as_str())));
                Phase::Prompting
            },
            (Phase::Decoding { text }, Event::ReplyDecoded(reply)) => {
                self.transcript.record_ai(reply.payload());
                match reply {
                    StructuredReply::Command(command) => {
                        outputs.push(Output::Line(join2("run? (y/i/n)> ", command.as_str())));
                        Phase::Confirming { command }
                    },
                    StructuredReply::Response(response) => {
                        outputs.push(Output::Line(join2("gpt> ", response.as_str())));
                        Phase::Prompting
                    },
                }
            },
            (Phase::Decoding { text }, Event::ReplyMalformed(error)) => {
                let message = join2("Error deserializing response: ", error.as_str());
                outputs.push(Output::ErrorLine(report(message.as_str())));
                Phase::Prompting
            },
            (Phase::Confirming { command }, Event::Line(line)) => {
                match Confirmation::of(line.as_str()) {
                    Confirmation::Execute => Phase::Running { command, interpret: false },
                    Confirmation::Interpret => Phase::Running { command, interpret: true },
                    Confirmation::Skip => Phase::Prompting,
                }
            },
            (Phase::Running { command, interpret }, Event::CommandFinished { stdout, stderr }) => {
                let next = if interpret {
                    Phase::Interpreting { prompt: self.transcript.query(stdout.as_str()) }
                } else {
                    outputs.push(Output::Line(stdout));
                    Phase::Prompting
                };
                if !stderr.as_str().is_empty() {
                    outputs.push(Output::ErrorLine(stderr));
                }
                next
            },
            (Phase::Running { command, interpret }, Event::CommandNotStarted(error)) => {
                outputs.push(
                    Output::ErrorLine(join2("Failed to execute command: ", error.as_str())),
                );
                Phase::Prompting
            },
            (Phase::Interpreting { prompt }, Event::CompletionArrived(text)) => {
                self.transcript.record_interpretation(text.as_str());
                outputs.push(Output::Line(text));
                Phase::Prompting
            },
            (Phase::Interpreting { prompt }, Event::CompletionFailed(error)) => {
                let message = join2("Error sending request: ", error.as_str());
                outputs.push(
                    Output::ErrorLine(join2("Error interpreting result: ", message.as_str())),
                );
                Phase::Prompting
            },
            (phase, _) => phase,
        };
        self.phase = next;
        proof {
            let after = transition(before, seen);
            assert(self@.transcript =~= after.state.transcript);
            assert(output_views(outputs@) =~= after.outputs);
        }
        outputs
    }
}

} // verus!
