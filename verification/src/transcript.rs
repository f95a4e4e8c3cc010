//! The conversation transcript: an append-only log of labelled entries.

use vstd::prelude::*;
use vstd::string::*;

verus! {

/// Who wrote an entry.
#[derive(Clone, Copy, Debug, PartialEq, Eq, Structural)]
pub enum Origin {
    /// The user, at the primary prompt.
    User,
    /// The assistant, answering a request.
    Assistant,
    /// The assistant, reading a command's output.
    Interpretation,
}

impl Origin {
    /// The label that opens every line of this origin.
    pub open spec fn label(self) -> Seq<char> {
        match self {
            Origin::User => "User: "@,
            Origin::Assistant => "AI: "@,
            Origin::Interpretation => "AI Interpretation: "@,
        }
    }

    /// The label as text.
    pub fn label_text(self) -> (text: &'static str)
        ensures
            text@ == self.label(),
    {
        match self {
            Origin::User => "User: ",
            Origin::Assistant => "AI: ",
            Origin::Interpretation => "AI Interpretation: ",
        }
    }
}

/// The transcript line for `text` written by `origin`.
pub open spec fn entry_line(origin: Origin, text: Seq<char>) -> Seq<char> {
    origin.label() + text
}

/// The transcript line that records what the user typed.
pub open spec fn user_entry(input: Seq<char>) -> Seq<char> {
    entry_line(Origin::User, input)
}

/// The transcript line that records the assistant's reply.
pub open spec fn ai_entry(response: Seq<char>) -> Seq<char> {
    entry_line(Origin::Assistant, response)
}

/// The transcript line that records the assistant's reading of a command's output.
pub open spec fn interpretation_entry(text: Seq<char>) -> Seq<char> {
    entry_line(Origin::Interpretation, text)
}

/// Whether a line carries one of the three origin labels.
pub open spec fn is_entry(line: Seq<char>) -> bool {
    exists|origin: Origin, text: Seq<char>| line == #[trigger] entry_line(origin, text)
}

/// The lines with a line feed between each two neighbours.
pub open spec fn join_lines(lines: Seq<Seq<char>>) -> Seq<char>
    decreases lines.len(),
{
    if lines.len() == 0 {
        Seq::empty()
    } else if lines.len() == 1 {
        lines[0]
    } else {
        join_lines(lines.drop_last()) + seq!['\n'] + lines.last()
    }
}

/// What is sent for completion: every line of the transcript, then the newest input once more.
pub open spec fn query_text(lines: Seq<Seq<char>>, input: Seq<char>) -> Seq<char> {
    join_lines(lines) + seq!['\n'] + input
}

struct Entry {
    origin: Origin,
    text: String,
}

impl Entry {
    spec fn line(self) -> Seq<char> {
        entry_line(self.origin, self.text@)
    }
}

/// The ordered log of a session. Entries are only ever added at the end.
pub struct Transcript {
    entries: Vec<Entry>,
}

impl View for Transcript {
    type V = Seq<Seq<char>>;

    closed spec fn view(&self) -> Seq<Seq<char>> {
        Seq::new(self.entries.len() as nat, |i: int| self.entries[i].line())
    }
}

impl Transcript {
    /// An empty transcript.
    pub fn new() -> (transcript: Transcript)
        ensures
            transcript@ == Seq::<Seq<char>>::empty(),
    {
        let transcript = Transcript { entries: Vec::new() };
        assert(transcript@ =~= Seq::<Seq<char>>::empty());
        transcript
    }

    /// How many entries were recorded.
    pub fn len(&self) -> (count: usize)
        ensures
            count == self@.len(),
    {
        self.entries.len()
    }

    /// The entry at `index`, label included.
    pub fn entry(&self, index: usize) -> (line: String)
        requires
            index < self@.len(),
        ensures
            line@ == self@[index as int],
            is_entry(line@),
    {
        let entry = &self.entries[index];
        assert(self@[index as int] == entry_line(entry.origin, entry.text@));
        crate::text::join2(entry.origin.label_text(), entry.text.as_str())
    }

    /// Every line of a transcript carries an origin label.
    pub proof fn lemma_labelled(&self)
        ensures
            forall|i: int| 0 <= i < self@.len() ==> is_entry(#[trigger] self@[i]),
    {
        assert forall|i: int| 0 <= i < self@.len() implies is_entry(#[trigger] self@[i]) by {
            assert(self@[i] == entry_line(self.entries[i].origin, self.entries[i].text@));
        }
    }

    /// Adds `text` as written by `origin`.
    pub fn record(&mut self, origin: Origin, text: &str)
        ensures
            final(self)@ == old(self)@.push(entry_line(origin, text@)),
    {
        self.entries.push(Entry { origin, text: String::from_str(text) });
        assert(self@ =~= old(self)@.push(entry_line(origin, text@)));
    }

    /// Adds what the user typed.
    pub fn record_user(&mut self, input: &str)
        ensures
            final(self)@ == old(self)@.push(user_entry(input@)),
    {
        self.record(Origin::User, input);
    }

    /// Adds the assistant's reply.
    pub fn record_ai(&mut self, response: &str)
        ensures
            final(self)@ == old(self)@.push(ai_entry(response@)),
    {
        self.record(Origin::Assistant, response);
    }

    /// Adds the assistant's reading of a command's output.
    pub fn record_interpretation(&mut self, text: &str)
        ensures
            final(self)@ == old(self)@.push(interpretation_entry(text@)),
    {
        self.record(Origin::Interpretation, text);
    }

    /// All entries in order, separated by line feeds.
    pub fn joined(&self) -> (text: String)
        ensures
            text@ == join_lines(self@),
    {
        let mut text = String::new();
        let mut index: usize = 0;
        proof {
            reveal_strlit("\n");
        }
        while index < self.entries.len()
            invariant
                index <= self.entries.len(),
                "\n"@ == seq!['\n'],
                text@ == join_lines(self@.take(index as int)),
            decreases self.entries.len() - index,
        {
            let ghost before = self@.take(index as int);
            let ghost after = self@.take(index + 1);
            if index > 0 {
                text.append("\n");
            }
            let entry = &self.entries[index];
            text.append(entry.origin.label_text());
            text.append(entry.text.as_str());
            proof {
                assert(after.drop_last() =~= before);
                assert(after.last() == entry.line());
                assert(text@ =~= join_lines(after));
            }
            index += 1;
        }
        assert(self@.take(index as int) =~= self@);
        text
    }

    /// The text to send for completion after `input` was typed.
    pub fn query(&self, input: &str) -> (text: String)
        ensures
            text@ == query_text(self@, input@),
    {
        let lines = self.joined();
        proof {
            reveal_strlit("\n");
        }
        crate::text::join3(lines.as_str(), "\n", input)
    }
}

} // verus!
