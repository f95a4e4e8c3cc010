//! The reply contract: what the model is told to answer with.

use vstd::prelude::*;
use vstd::string::*;

verus! {

/// A reply of the model, read from its two fields `type` and `response`.
#[derive(Debug, PartialEq, Eq)]
pub enum StructuredReply {
    /// A shell command offered for execution.
    Command(String),
    /// Text meant for the user to read.
    Response(String),
}

/// What a [`StructuredReply`] holds, as plain text.
pub enum StructuredReplyView {
    Command(Seq<char>),
    Response(Seq<char>),
}

impl StructuredReplyView {
    /// The text of the reply, whatever its kind.
    pub open spec fn payload(self) -> Seq<char> {
        match self {
            StructuredReplyView::Command(command) => command,
            StructuredReplyView::Response(text) => text,
        }
    }
}

impl View for StructuredReply {
    type V = StructuredReplyView;

    open spec fn view(&self) -> StructuredReplyView {
        match self {
            StructuredReply::Command(command) => StructuredReplyView::Command(command@),
            StructuredReply::Response(text) => StructuredReplyView::Response(text@),
        }
    }
}

/// The one value of the `type` field that marks a command.
pub open spec fn command_tag() -> Seq<char> {
    "command"@
}

/// The reply that the two fields stand for: a command when `kind` is the command tag, and
/// text for the user under every other tag.
pub open spec fn classify(kind: Seq<char>, response: Seq<char>) -> StructuredReplyView {
    if kind == command_tag() {
        StructuredReplyView::Command(response)
    } else {
        StructuredReplyView::Response(response)
    }
}

impl StructuredReply {
    /// Builds the reply from the decoded fields `type` and `response`.
    pub fn from_fields(kind: &str, response: String) -> (reply: StructuredReply)
        ensures
            reply@ == classify(kind@, response@),
    {
        if crate::text::same_text(kind, "command") {
            StructuredReply::Command(response)
        } else {
            StructuredReply::Response(response)
        }
    }

    /// Whether the reply offers a command.
    pub fn is_command(&self) -> (yes: bool)
        ensures
            yes == (self@ is Command),
    {
        match self {
            StructuredReply::Command(_) => true,
            StructuredReply::Response(_) => false,
        }
    }

    /// The text of the reply, whatever its kind.
    pub fn payload(&self) -> (text: &str)
        ensures
            text@ == self@.payload(),
    {
        match self {
            StructuredReply::Command(command) => command.as_str(),
            StructuredReply::Response(text) => text.as_str(),
        }
    }
}

} // verus!
