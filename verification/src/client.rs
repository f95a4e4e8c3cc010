//! The completion client, without its transport.
//!
//! One call of the client is one HTTP exchange. This module says what to send
//! ([`GptClient::request`]) and what an exchange amounts to ([`Exchange::into_body`],
//! [`Envelope::into_content`]); carrying the request over the wire and decoding the body
//! are left to the caller.

use vstd::prelude::*;
use vstd::string::*;
use crate::settings::Settings;
use crate::text::{join2, join3};

verus! {

/// The text that `reqwest::StatusCode` displays for the status with this number: the
/// number, a space, and the reason phrase that the `http` crate lists for it.
pub uninterp spec fn status_display(code: u16) -> Seq<char>;

/// The character for a digit.
pub open spec fn digit(value: int) -> char {
    if value == 0 {
        '0'
    } else if value == 1 {
        '1'
    } else if value == 2 {
        '2'
    } else if value == 3 {
        '3'
    } else if value == 4 {
        '4'
    } else if value == 5 {
        '5'
    } else if value == 6 {
        '6'
    } else if value == 7 {
        '7'
    } else if value == 8 {
        '8'
    } else {
        '9'
    }
}

/// A status number written out: its hundreds, its tens and its units.
pub open spec fn decimal(code: u16) -> Seq<char> {
    seq![digit(code as int / 100), digit(code as int / 10 % 10), digit(code as int % 10)]
}

/// Whether `part` stands somewhere in `whole`, unbroken.
pub open spec fn occurs_in(part: Seq<char>, whole: Seq<char>) -> bool {
    exists|start: int|
        0 <= start && start + part.len() <= whole.len() && #[trigger] whole.subrange(
            start,
            start + part.len(),
        ) == part
}

/// Formats a status with the `Display` of `reqwest::StatusCode`. `StatusCode::from_u16`
/// accepts exactly the numbers from 100 to 999, so the second arm is never taken. The
/// contract names the result, which is fixed by the number, and claims one thing of it:
/// that it opens with the number in decimal.
#[verifier::external_body]
fn status_text(code: u16) -> (text: String)
    requires
        100 <= code <= 999,
    ensures
        text@ == status_display(code),
        decimal(code).is_prefix_of(text@),
{
    match reqwest::StatusCode::from_u16(code) {
        Ok(status) => status.to_string(),
        Err(_) => String::new(),
    }
}

/// The status of an HTTP response: a number of three digits.
#[derive(Clone, Copy, Debug, PartialEq, Eq)]
pub struct HttpStatus {
    code: u16,
}

impl View for HttpStatus {
    type V = u16;

    closed spec fn view(&self) -> u16 {
        self.code
    }
}

/// Whether a status number stands for success.
pub open spec fn is_success_code(code: u16) -> bool {
    200 <= code < 300
}

impl HttpStatus {
    #[verifier::type_invariant]
    spec fn three_digits(self) -> bool {
        100 <= self.code <= 999
    }

    /// The status with this number, if the number has three digits.
    pub fn new(code: u16) -> (status: Option<HttpStatus>)
        ensures
            status is Some <==> 100 <= code <= 999,
            status matches Some(s) ==> s@ == code,
    {
        if 100 <= code && code <= 999 {
            Some(HttpStatus { code })
        } else {
            None
        }
    }

    /// The number.
    pub fn code(&self) -> (code: u16)
        ensures
            code == self@,
            100 <= code <= 999,
    {
        proof {
            use_type_invariant(self);
        }
        self.code
    }

    /// Whether the status stands for success.
    pub fn is_success(&self) -> (success: bool)
        ensures
            success == is_success_code(self@),
    {
        200 <= self.code && self.code < 300
    }

    /// The status as it is shown in messages: its number, then what the number stands for.
    pub fn describe(&self) -> (text: String)
        ensures
            text@ == status_display(self@),
            decimal(self@).is_prefix_of(text@),
    {
        proof {
            use_type_invariant(self);
        }
        status_text(self.code)
    }
}

/// One message of a completion request.
#[derive(Debug, PartialEq, Eq)]
pub struct Message {
    pub role: String,
    pub content: String,
}

/// What a [`Message`] holds, as plain text.
pub struct MessageView {
    pub role: Seq<char>,
    pub content: Seq<char>,
}

impl View for Message {
    type V = MessageView;

    open spec fn view(&self) -> MessageView {
        MessageView { role: self.role@, content: self.content@ }
    }
}

/// Everything the transport needs for one completion call.
#[derive(Debug, PartialEq, Eq)]
pub struct CompletionRequest {
    /// Where to post the request.
    pub endpoint: String,
    /// The value of the `Authorization` header.
    pub authorization: String,
    /// The model to ask.
    pub model: String,
    /// The conversation, oldest message first.
    pub messages: Vec<Message>,
    /// The most tokens the model may answer with.
    pub max_tokens: u16,
}

/// What a [`CompletionRequest`] holds, as plain values.
pub struct CompletionRequestView {
    pub endpoint: Seq<char>,
    pub authorization: Seq<char>,
    pub model: Seq<char>,
    pub messages: Seq<MessageView>,
    pub max_tokens: u16,
}

impl View for CompletionRequest {
    type V = CompletionRequestView;

    open spec fn view(&self) -> CompletionRequestView {
        CompletionRequestView {
            endpoint: self.endpoint@,
            authorization: self.authorization@,
            model: self.model@,
            messages: self.messages@.map_values(|message: Message| message@),
            max_tokens: self.max_tokens,
        }
    }
}

/// The address of the chat-completion endpoint.
pub open spec fn endpoint() -> Seq<char> {
    "https://api.openai.com/v1/chat/completions"@
}

/// The value of the `Authorization` header for a credential.
pub open spec fn bearer(api_key: Seq<char>) -> Seq<char> {
    "Bearer "@ + api_key
}

/// The token budget of every request.
pub const MAX_TOKENS: u16 = 100;

/// The model that the assistant asks.
pub open spec fn assistant_model() -> Seq<char> {
    "gpt-4-turbo"@
}

/// The instructions that the assistant gives the model with every request.
pub open spec fn assistant_instructions() -> Seq<char> {
    "You are an intelligent command prompt. You will receive english-language instructions from the user, and then turn those instructions into executable shell commands or scripts. You are running on macOS. You will also summarize and interpret command output for the user. Return all of your responses in JSON format, with the following structure: { type: \"command\" | \"response\", response: string }. type indicates whether your response is an executable set of instructions, or human-readable text output addressing the user's most recent prompt."@
}

/// A completion client's configuration. Nothing changes it once it is made.
pub struct GptClient {
    api_key: String,
    model: String,
    system_prompt: String,
}

/// What a [`GptClient`] holds, as plain text.
pub struct GptClientView {
    pub api_key: Seq<char>,
    pub model: Seq<char>,
    pub system_prompt: Seq<char>,
}

impl View for GptClient {
    type V = GptClientView;

    closed spec fn view(&self) -> GptClientView {
        GptClientView {
            api_key: self.api_key@,
            model: self.model@,
            system_prompt: self.system_prompt@,
        }
    }
}

/// The request that a client sends for `prompt`: the system message with the client's
/// instructions, then one user message with the prompt.
pub open spec fn request_for(client: GptClientView, prompt: Seq<char>) -> CompletionRequestView {
    CompletionRequestView {
        endpoint: endpoint(),
        authorization: bearer(client.api_key),
        model: client.model,
        messages: seq![
            MessageView { role: "system"@, content: client.system_prompt },
            MessageView { role: "user"@, content: prompt },
        ],
        max_tokens: MAX_TOKENS,
    }
}

impl GptClient {
    /// A client for the given credential, model and instructions.
    pub fn new(api_key: String, model: String, system_prompt: String) -> (client: GptClient)
        ensures
            client@ == (GptClientView {
                api_key: api_key@,
                model: model@,
                system_prompt: system_prompt@,
            }),
    {
        GptClient { api_key, model, system_prompt }
    }

    /// The assistant's client: its model and instructions, with the credential of `settings`.
    pub fn assistant(settings: &Settings) -> (client: GptClient)
        ensures
            client@ == (GptClientView {
                api_key: settings.openai_api_key@,
                model: assistant_model(),
                system_prompt: assistant_instructions(),
            }),
    {
        GptClient::new(
            settings.openai_api_key.clone(),
            String::from_str("gpt-4-turbo"),
            String::from_str(
                "You are an intelligent command prompt. You will receive english-language instructions from the user, and then turn those instructions into executable shell commands or scripts. You are running on macOS. You will also summarize and interpret command output for the user. Return all of your responses in JSON format, with the following structure: { type: \"command\" | \"response\", response: string }. type indicates whether your response is an executable set of instructions, or human-readable text output addressing the user's most recent prompt.",
            ),
        )
    }

    /// The credential.
    pub fn api_key(&self) -> (text: &str)
        ensures
            text@ == self@.api_key,
    {
        self.api_key.as_str()
    }

    /// The model.
    pub fn model(&self) -> (text: &str)
        ensures
            text@ == self@.model,
    {
        self.model.as_str()
    }

    /// The instructions.
    pub fn system_prompt(&self) -> (text: &str)
        ensures
            text@ == self@.system_prompt,
    {
        self.system_prompt.as_str()
    }

    /// What to send for `prompt`.
    pub fn request(&self, prompt: &str) -> (request: CompletionRequest)
        ensures
            request@ == request_for(self@, prompt@),
    {
        let mut messages: Vec<Message> = Vec::new();
        messages.push(
            Message { role: String::from_str("system"), content: self.system_prompt.clone() },
        );
        messages.push(Message { role: String::from_str("user"), content: String::from_str(prompt) });
        let request = CompletionRequest {
            endpoint: String::from_str("https://api.openai.com/v1/chat/completions"),
            authorization: join2("Bearer ", self.api_key.as_str()),
            model: self.model.clone(),
            messages,
            max_tokens: MAX_TOKENS,
        };
        assert(request@.messages =~= request_for(self@, prompt@).messages);
        request
    }
}

impl Clone for GptClient {
    fn clone(&self) -> (copy: Self)
        ensures
            copy@ == self@,
    {
        GptClient {
            api_key: self.api_key.clone(),
            model: self.model.clone(),
            system_prompt: self.system_prompt.clone(),
        }
    }
}

/// What an attempt to carry a request over the wire came to.
#[derive(Debug, PartialEq, Eq)]
pub enum Exchange {
    /// The request did not get through; the transport gave this reason.
    Unsent(String),
    /// A response arrived and its body was read.
    Received { status: HttpStatus, body: String },
    /// A response arrived, but reading its body failed for this reason.
    Unreadable { status: HttpStatus, reason: String },
}

/// What an [`Exchange`] holds, as plain values.
pub enum ExchangeView {
    Unsent(Seq<char>),
    Received { status: u16, body: Seq<char> },
    Unreadable { status: u16, reason: Seq<char> },
}

impl View for Exchange {
    type V = ExchangeView;

    open spec fn view(&self) -> ExchangeView {
        match self {
            Exchange::Unsent(reason) => ExchangeView::Unsent(reason@),
            Exchange::Received { status, body } => ExchangeView::Received {
                status: status@,
                body: body@,
            },
            Exchange::Unreadable { status, reason } => ExchangeView::Unreadable {
                status: status@,
                reason: reason@,
            },
        }
    }
}

/// Why a completion call gave no text.
#[derive(Debug, PartialEq, Eq)]
pub enum CompletionError {
    /// The request could not be sent.
    Network(String),
    /// The service answered with a status other than success.
    Api { status: HttpStatus, body: String },
    /// The body of a successful response could not be read.
    Read(String),
    /// The body is not a completion envelope.
    Parse(String),
    /// The envelope holds no candidate.
    EmptyResponse,
}

/// What a [`CompletionError`] holds, as plain values.
pub enum CompletionErrorView {
    Network(Seq<char>),
    Api { status: u16, body: Seq<char> },
    Read(Seq<char>),
    Parse(Seq<char>),
    EmptyResponse,
}

impl View for CompletionError {
    type V = CompletionErrorView;

    open spec fn view(&self) -> CompletionErrorView {
        match self {
            CompletionError::Network(reason) => CompletionErrorView::Network(reason@),
            CompletionError::Api { status, body } => CompletionErrorView::Api {
                status: status@,
                body: body@,
            },
            CompletionError::Read(reason) => CompletionErrorView::Read(reason@),
            CompletionError::Parse(reason) => CompletionErrorView::Parse(reason@),
            CompletionError::EmptyResponse => CompletionErrorView::EmptyResponse,
        }
    }
}

/// The body text that stands in when the body of a failed response cannot be read.
pub open spec fn unread_body() -> Seq<char> {
    "Failed to get response text."@
}

/// The message for a status other than success, from the status as displayed and the body.
pub open spec fn api_failure(status: Seq<char>, body: Seq<char>) -> Seq<char> {
    "Request failed with status code: "@ + status + ". Response text: "@ + body
}

/// The message of each error.
pub open spec fn message_of(error: CompletionErrorView) -> Seq<char> {
    match error {
        CompletionErrorView::Network(reason) => "Failed to send request: "@ + reason,
        CompletionErrorView::Api { status, body } => api_failure(status_display(status), body),
        CompletionErrorView::Read(reason) => "Failed to read response body: "@ + reason,
        CompletionErrorView::Parse(reason) => "Failed to parse response: "@ + reason,
        CompletionErrorView::EmptyResponse => "No choices returned by GPT API"@,
    }
}

/// The message for a status other than success, from the status as displayed and the body.
/// Both stand in it unbroken.
pub fn api_failure_message(status: &str, body: &str) -> (message: String)
    ensures
        message@ == api_failure(status@, body@),
        occurs_in(status@, message@),
        occurs_in(body@, message@),
{
    let mut message = join3("Request failed with status code: ", status, ". Response text: ");
    message.append(body);
    proof {
        lemma_api_failure_holds_its_parts(status@, body@);
    }
    message
}

/// The message for a status other than success holds the status and the body, and with the
/// status whatever the status opens with.
pub proof fn lemma_api_failure_holds_its_parts(status: Seq<char>, body: Seq<char>)
    ensures
        occurs_in(status, api_failure(status, body)),
        occurs_in(body, api_failure(status, body)),
        forall|opening: Seq<char>|
            opening.is_prefix_of(status) ==> occurs_in(opening, api_failure(status, body)),
{
    let head = "Request failed with status code: "@;
    let middle = ". Response text: "@;
    let whole = api_failure(status, body);
    let at_status = head.len() as int;
    let at_body = (head.len() + status.len() + middle.len()) as int;
    assert(whole.subrange(at_status, at_status + status.len()) =~= status);
    assert(whole.subrange(at_body, at_body + body.len()) =~= body);
    assert forall|opening: Seq<char>| opening.is_prefix_of(status) implies occurs_in(
        opening,
        whole,
    ) by {
        assert(whole.subrange(at_status, at_status + opening.len()) =~= opening);
    }
}

impl CompletionError {
    /// The message to show for this error. For a status other than success it holds the
    /// number of the status and the body.
    pub fn message(&self) -> (message: String)
        ensures
            message@ == message_of(self@),
            self@ matches CompletionErrorView::Api { status, body } ==> occurs_in(
                decimal(status),
                message@,
            ) && occurs_in(body, message@),
    {
        match self {
            CompletionError::Network(reason) => join2("Failed to send request: ", reason.as_str()),
            CompletionError::Api { status, body } => {
                let shown = status.describe();
                proof {
                    lemma_api_failure_holds_its_parts(shown@, body@);
                }
                api_failure_message(shown.as_str(), body.as_str())
            },
            CompletionError::Read(reason) => join2(
                "Failed to read response body: ",
                reason.as_str(),
            ),
            CompletionError::Parse(reason) => join2("Failed to parse response: ", reason.as_str()),
            CompletionError::EmptyResponse => String::from_str("No choices returned by GPT API"),
        }
    }
}

/// The body that an exchange yields, or the error it amounts to. A status other than
/// success is an error whether or not the body could be read.
pub open spec fn body_of(exchange: ExchangeView) -> Result<Seq<char>, CompletionErrorView> {
    match exchange {
        ExchangeView::Unsent(reason) => Err(CompletionErrorView::Network(reason)),
        ExchangeView::Received { status, body } => if is_success_code(status) {
            Ok(body)
        } else {
            Err(CompletionErrorView::Api { status, body })
        },
        ExchangeView::Unreadable { status, reason } => if is_success_code(status) {
            Err(CompletionErrorView::Read(reason))
        } else {
            Err(CompletionErrorView::Api { status, body: unread_body() })
        },
    }
}

/// A result of the client, as plain values.
pub open spec fn outcome_view(outcome: Result<String, CompletionError>) -> Result<
    Seq<char>,
    CompletionErrorView,
> {
    match outcome {
        Ok(text) => Ok(text@),
        Err(error) => Err(error@),
    }
}

impl Exchange {
    /// The body to decode, or the error that the exchange amounts to.
    pub fn into_body(self) -> (outcome: Result<String, CompletionError>)
        ensures
            outcome_view(outcome) == body_of(self@),
    {
        match self {
            Exchange::Unsent(reason) => Err(CompletionError::Network(reason)),
            Exchange::Received { status, body } => {
                if status.is_success() {
                    Ok(body)
                } else {
                    Err(CompletionError::Api { status, body })
                }
            },
            Exchange::Unreadable { status, reason } => {
                if status.is_success() {
                    Err(CompletionError::Read(reason))
                } else {
                    Err(
                        CompletionError::Api {
                            status,
                            body: String::from_str("Failed to get response text."),
                        },
                    )
                }
            },
        }
    }
}

/// One candidate completion.
#[derive(Debug, PartialEq, Eq)]
pub struct Choice {
    pub role: String,
    pub content: String,
}

/// The decoded body of a successful response: the candidates, in the order given.
#[derive(Debug, PartialEq, Eq)]
pub struct Envelope {
    pub choices: Vec<Choice>,
}

impl View for Envelope {
    type V = Seq<Seq<char>>;

    /// The content of each candidate.
    open spec fn view(&self) -> Seq<Seq<char>> {
        self.choices@.map_values(|choice: Choice| choice.content@)
    }
}

/// What a decoding attempt came to, as plain values: the candidates' contents, or the
/// decoder's complaint.
pub open spec fn decoded_view(decoded: Result<Envelope, String>) -> Result<
    Seq<Seq<char>>,
    Seq<char>,
> {
    match decoded {
        Ok(envelope) => Ok(envelope@),
        Err(reason) => Err(reason@),
    }
}

/// The text of a completion: the content of the first candidate.
pub open spec fn content_of(decoded: Result<Seq<Seq<char>>, Seq<char>>) -> Result<
    Seq<char>,
    CompletionErrorView,
> {
    match decoded {
        Err(reason) => Err(CompletionErrorView::Parse(reason)),
        Ok(contents) => if contents.len() == 0 {
            Err(CompletionErrorView::EmptyResponse)
        } else {
            Ok(contents[0])
        },
    }
}

impl Envelope {
    /// The text of the completion, from what decoding the body came to.
    pub fn into_content(decoded: Result<Envelope, String>) -> (outcome: Result<
        String,
        CompletionError,
    >)
        ensures
            outcome_view(outcome) == content_of(decoded_view(decoded)),
    {
        match decoded {
            Err(reason) => Err(CompletionError::Parse(reason)),
            Ok(envelope) => {
                if envelope.choices.len() == 0 {
                    Err(CompletionError::EmptyResponse)
                } else {
                    let content = envelope.choices[0].content.clone();
                    Ok(content)
                }
            },
        }
    }
}

} // verus!
