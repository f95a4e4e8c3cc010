use ash::reply::StructuredReply;
use ash::text::{join2, join3, same_text};
use ash::transcript::{Origin, Transcript};

#[test]
fn empty_transcript_joins_to_nothing() {
    let transcript = Transcript::new();
    assert_eq!(transcript.len(), 0);
    assert_eq!(transcript.joined(), "");
    assert_eq!(transcript.query("hi"), "\nhi");
}

#[test]
fn single_entry_joins_without_a_line_feed() {
    let mut transcript = Transcript::new();
    transcript.record_user("hi");
    assert_eq!(transcript.joined(), "User: hi");
    assert_eq!(transcript.query("hi"), "User: hi\nhi");
}

#[test]
fn entries_carry_their_labels_in_order() {
    let mut transcript = Transcript::new();
    transcript.record_user("what day is it");
    transcript.record_ai("date");
    transcript.record_interpretation("It is Monday.");
    transcript.record(Origin::User, "");
    assert_eq!(transcript.len(), 4);
    assert_eq!(transcript.entry(0), "User: what day is it");
    assert_eq!(transcript.entry(1), "AI: date");
    assert_eq!(transcript.entry(2), "AI Interpretation: It is Monday.");
    assert_eq!(transcript.entry(3), "User: ");
    assert_eq!(
        transcript.joined(),
        "User: what day is it\nAI: date\nAI Interpretation: It is Monday.\nUser: "
    );
}

#[test]
fn labels_are_fixed() {
    assert_eq!(Origin::User.label_text(), "User: ");
    assert_eq!(Origin::Assistant.label_text(), "AI: ");
    assert_eq!(Origin::Interpretation.label_text(), "AI Interpretation: ");
}

#[test]
fn recording_leaves_earlier_entries_alone() {
    let mut transcript = Transcript::new();
    transcript.record_user("a\nb");
    let first = transcript.entry(0);
    transcript.record_ai("c");
    assert_eq!(transcript.entry(0), first);
    assert_eq!(transcript.query("d"), "User: a\nb\nAI: c\nd");
}

#[test]
fn only_the_command_tag_makes_a_command() {
    let command = StructuredReply::from_fields("command", "ls".to_string());
    assert_eq!(command, StructuredReply::Command("ls".to_string()));
    assert!(command.is_command());
    assert_eq!(command.payload(), "ls");
    for tag in ["response", "Command", "command ", "", "cmd"] {
        let reply = StructuredReply::from_fields(tag, "ls".to_string());
        assert_eq!(reply, StructuredReply::Response("ls".to_string()));
        assert!(!reply.is_command());
        assert_eq!(reply.payload(), "ls");
    }
}

#[test]
fn text_helpers_compare_and_join() {
    assert!(same_text("exit", "exit"));
    assert!(!same_text("exit", "exit "));
    assert!(same_text("", ""));
    assert_eq!(join2("a", "b"), "ab");
    assert_eq!(join3("a", "", "c"), "ac");
}
