use ash::reply::StructuredReply;
use ash::session::{report, report_line, Confirmation, Event, Output, Phase, Request, Session};

fn decode(text: &str) -> Event {
    let value = match serde_json::from_str::<serde_json::Value>(text) {
        Ok(value) => value,
        Err(error) => return Event::ReplyMalformed(error.to_string()),
    };
    let kind = value.get("type").and_then(|field| field.as_str());
    let response = value.get("response").and_then(|field| field.as_str());
    match (kind, response) {
        (Some(kind), Some(response)) => {
            Event::ReplyDecoded(StructuredReply::from_fields(kind, response.to_string()))
        }
        _ => Event::ReplyMalformed("missing field".to_string()),
    }
}

fn session_after_reply(input: &str, completion: &str) -> (Session, Vec<Output>) {
    let mut session = Session::new();
    assert!(session.step(Event::line(input)).is_empty());
    assert!(session.step(Event::CompletionArrived(completion.to_string())).is_empty());
    let text = match session.request() {
        Request::Decode { text } => text,
        other => panic!("expected a decode request, got {:?}", other),
    };
    let shown = session.step(decode(&text));
    (session, shown)
}

#[test]
fn new_session_waits_at_the_primary_prompt() {
    let session = Session::new();
    assert_eq!(session.request(), Request::ReadLine { prompt: "ash: ".to_string() });
    assert_eq!(session.phase(), &Phase::Prompting);
    assert_eq!(session.transcript().len(), 0);
    assert!(!session.is_over());
}

#[test]
fn input_leads_to_one_completion_call_before_any_output() {
    let mut session = Session::new();
    let shown = session.step(Event::line("list files\n"));
    assert!(shown.is_empty());
    assert_eq!(
        session.request(),
        Request::Complete { prompt: "User: list files\nlist files".to_string() }
    );
    let shown = session.step(Event::CompletionArrived("{}".to_string()));
    assert!(shown.is_empty());
    assert_eq!(session.request(), Request::Decode { text: "{}".to_string() });
}

#[test]
fn query_repeats_the_newest_input_after_the_whole_transcript() {
    let (mut session, _) = session_after_reply("first", r#"{"type":"response","response":"one"}"#);
    session.step(Event::line("second"));
    assert_eq!(
        session.request(),
        Request::Complete { prompt: "User: first\nAI: one\nUser: second\nsecond".to_string() }
    );
}

#[test]
fn plain_reply_is_shown_and_nothing_is_executed() {
    let (session, shown) = session_after_reply("hi", r#"{"type":"response","response":"hello"}"#);
    assert_eq!(shown, vec![Output::Line("gpt> hello".to_string())]);
    assert_eq!(session.request(), Request::ReadLine { prompt: "ash: ".to_string() });
    assert_eq!(session.transcript().len(), 2);
    assert_eq!(session.transcript().entry(0), "User: hi");
    assert_eq!(session.transcript().entry(1), "AI: hello");
}

#[test]
fn unknown_tag_is_read_as_plain_text() {
    let (session, shown) = session_after_reply("hi", r#"{"type":"comand","response":"ls"}"#);
    assert_eq!(shown, vec![Output::Line("gpt> ls".to_string())]);
    assert_eq!(session.phase(), &Phase::Prompting);
}

#[test]
fn confirmed_command_is_executed_once_and_its_output_shown() {
    let (mut session, shown) =
        session_after_reply("say hi", r#"{"type":"command","response":"echo hi"}"#);
    assert_eq!(shown, vec![Output::Line("run? (y/i/n)> echo hi".to_string())]);
    assert_eq!(session.request(), Request::ReadLine { prompt: String::new() });
    assert!(session.step(Event::line("y\n")).is_empty());
    assert_eq!(session.request(), Request::Execute { command: "echo hi".to_string() });
    let shown = session.step(Event::command_finished(b"hi\n", b""));
    assert_eq!(shown, vec![Output::Line("hi\n".to_string())]);
    assert_eq!(session.request(), Request::ReadLine { prompt: "ash: ".to_string() });
    assert_eq!(session.transcript().len(), 2);
}

#[test]
fn declined_command_is_never_executed() {
    let (mut session, _) =
        session_after_reply("say hi", r#"{"type":"command","response":"echo hi"}"#);
    assert!(session.step(Event::line("n")).is_empty());
    assert_eq!(session.request(), Request::ReadLine { prompt: "ash: ".to_string() });
    assert_eq!(session.phase(), &Phase::Prompting);
}

#[test]
fn any_other_verdict_skips_the_command() {
    for verdict in ["", "yes", "Y", "I", "no", " "] {
        let (mut session, _) =
            session_after_reply("say hi", r#"{"type":"command","response":"echo hi"}"#);
        session.step(Event::Line(verdict.to_string()));
        assert_eq!(session.phase(), &Phase::Prompting);
    }
}

#[test]
fn verdicts_are_read_letter_for_letter() {
    assert_eq!(Confirmation::of("y"), Confirmation::Execute);
    assert_eq!(Confirmation::of("i"), Confirmation::Interpret);
    assert_eq!(Confirmation::of("n"), Confirmation::Skip);
    assert_eq!(Confirmation::of("yi"), Confirmation::Skip);
}

#[test]
fn error_output_of_a_command_goes_to_the_error_stream() {
    let (mut session, _) = session_after_reply("x", r#"{"type":"command","response":"ls /nope"}"#);
    session.step(Event::line("y"));
    let shown = session.step(Event::command_finished(b"", b"ls: /nope: No such file\n"));
    assert_eq!(
        shown,
        vec![
            Output::Line(String::new()),
            Output::ErrorLine("ls: /nope: No such file\n".to_string()),
        ]
    );
}

#[test]
fn interpreted_command_sends_its_output_back_to_the_model() {
    let (mut session, _) = session_after_reply("when", r#"{"type":"command","response":"date"}"#);
    assert!(session.step(Event::line("i")).is_empty());
    assert_eq!(session.request(), Request::Execute { command: "date".to_string() });
    let shown = session.step(Event::command_finished(b"Monday\n", b"warning\n"));
    assert_eq!(shown, vec![Output::ErrorLine("warning\n".to_string())]);
    assert_eq!(
        session.request(),
        Request::Complete { prompt: "User: when\nAI: date\nMonday\n".to_string() }
    );
    let shown = session.step(Event::CompletionArrived("It is Monday.".to_string()));
    assert_eq!(shown, vec![Output::Line("It is Monday.".to_string())]);
    assert_eq!(session.request(), Request::ReadLine { prompt: "ash: ".to_string() });
    assert_eq!(session.transcript().len(), 3);
    assert_eq!(session.transcript().entry(2), "AI Interpretation: It is Monday.");
}

#[test]
fn interpretation_is_not_decoded() {
    let (mut session, _) = session_after_reply("when", r#"{"type":"command","response":"date"}"#);
    session.step(Event::line("i"));
    session.step(Event::command_finished(b"Monday\n", b""));
    let raw = r#"{"type":"command","response":"rm -rf /"}"#;
    let shown = session.step(Event::CompletionArrived(raw.to_string()));
    assert_eq!(shown, vec![Output::Line(raw.to_string())]);
    assert_eq!(session.phase(), &Phase::Prompting);
}

#[test]
fn failed_interpretation_is_reported_and_not_recorded() {
    let (mut session, _) = session_after_reply("when", r#"{"type":"command","response":"date"}"#);
    session.step(Event::line("i"));
    session.step(Event::command_finished(b"Monday\n", b""));
    let shown = session.step(Event::CompletionFailed("boom".to_string()));
    assert_eq!(
        shown,
        vec![Output::ErrorLine(
            "Error interpreting result: Error sending request: boom".to_string()
        )]
    );
    assert_eq!(session.transcript().len(), 2);
    assert_eq!(session.phase(), &Phase::Prompting);
}

#[test]
fn command_that_cannot_start_is_reported_and_the_loop_goes_on() {
    let (mut session, _) = session_after_reply("x", r#"{"type":"command","response":"nope"}"#);
    session.step(Event::line("y"));
    let shown = session.step(Event::CommandNotStarted("no shell".to_string()));
    assert_eq!(
        shown,
        vec![Output::ErrorLine("Failed to execute command: no shell".to_string())]
    );
    assert_eq!(session.request(), Request::ReadLine { prompt: "ash: ".to_string() });
}

#[test]
fn malformed_reply_is_reported_and_not_recorded() {
    let (session, shown) = session_after_reply("hi", "not json");
    assert_eq!(shown.len(), 1);
    match &shown[0] {
        Output::ErrorLine(line) => {
            assert!(line.starts_with("Error: \"Error deserializing response: "), "{}", line);
            assert!(line.ends_with('"'));
        }
        other => panic!("expected an error line, got {:?}", other),
    }
    assert_eq!(session.request(), Request::ReadLine { prompt: "ash: ".to_string() });
    assert_eq!(session.transcript().len(), 1);
    assert_eq!(session.transcript().entry(0), "User: hi");
}

#[test]
fn reply_without_its_fields_is_malformed() {
    let (session, shown) = session_after_reply("hi", r#"{"type":"command"}"#);
    assert_eq!(
        shown,
        vec![Output::ErrorLine(
            "Error: \"Error deserializing response: missing field\"".to_string()
        )]
    );
    assert_eq!(session.transcript().len(), 1);
}

#[test]
fn failed_completion_is_reported_and_the_loop_goes_on() {
    let mut session = Session::new();
    session.step(Event::line("hi"));
    let shown = session.step(Event::CompletionFailed("no route".to_string()));
    assert_eq!(
        shown,
        vec![Output::ErrorLine("Error: \"Error sending request: no route\"".to_string())]
    );
    assert_eq!(session.request(), Request::ReadLine { prompt: "ash: ".to_string() });
    assert_eq!(session.transcript().len(), 1);
}

#[test]
fn report_quotes_and_escapes_the_message() {
    assert_eq!(report("a \"b\"\n"), "Error: \"a \\\"b\\\"\\n\"");
    assert_eq!(report_line("\"plain\""), "Error: \"plain\"");
}

#[test]
fn exit_ends_the_session_without_a_call() {
    let mut session = Session::new();
    let shown = session.step(Event::line("exit\n"));
    assert_eq!(shown, vec![Output::Line("Exiting...".to_string())]);
    assert_eq!(session.request(), Request::Stop);
    assert!(session.is_over());
    assert_eq!(session.transcript().len(), 0);
}

#[test]
fn nothing_moves_an_ended_session() {
    let mut session = Session::new();
    session.step(Event::line("exit"));
    let events = vec![
        Event::line("hi"),
        Event::CompletionArrived("x".to_string()),
        Event::CompletionFailed("x".to_string()),
        Event::ReplyMalformed("x".to_string()),
        Event::command_finished(b"x", b"y"),
        Event::CommandNotStarted("x".to_string()),
    ];
    for event in events {
        assert!(session.step(event).is_empty());
        assert_eq!(session.request(), Request::Stop);
        assert_eq!(session.transcript().len(), 0);
    }
}

#[test]
fn exit_is_only_special_at_the_primary_prompt() {
    let (mut session, _) = session_after_reply("x", r#"{"type":"command","response":"ls"}"#);
    assert!(session.step(Event::line("exit")).is_empty());
    assert_eq!(session.phase(), &Phase::Prompting);
    assert!(!session.is_over());
}

#[test]
fn words_around_exit_do_not_end_the_session() {
    for input in ["Exit", "exit now", "exi", ""] {
        let mut session = Session::new();
        assert!(session.step(Event::Line(input.to_string())).is_empty());
        assert!(!session.is_over());
        assert_eq!(session.transcript().len(), 1);
    }
}

#[test]
fn event_that_answers_nothing_changes_nothing() {
    let mut session = Session::new();
    assert!(session.step(Event::CompletionArrived("x".to_string())).is_empty());
    assert_eq!(session.phase(), &Phase::Prompting);
    session.step(Event::line("hi"));
    let waiting = session.request();
    assert!(session.step(Event::line("again")).is_empty());
    assert!(session.step(Event::command_finished(b"x", b"y")).is_empty());
    assert_eq!(session.request(), waiting);
    assert_eq!(session.transcript().len(), 1);
}

#[test]
fn transcript_only_grows_at_its_end() {
    let mut session = Session::new();
    let mut seen: Vec<String> = Vec::new();
    let turns = [
        ("one", r#"{"type":"response","response":"first"}"#, 2),
        ("two", "not json", 1),
        ("three", r#"{"type":"command","response":"ls"}"#, 2),
    ];
    for (input, completion, added) in turns {
        session.step(Event::line(input));
        session.step(Event::CompletionArrived(completion.to_string()));
        session.step(decode(completion));
        if let Phase::Confirming { .. } = session.phase() {
            session.step(Event::line("n"));
        }
        let transcript = session.transcript();
        assert_eq!(transcript.len(), seen.len() + added);
        for (index, line) in seen.iter().enumerate() {
            assert_eq!(&transcript.entry(index), line);
        }
        seen = (0..transcript.len()).map(|index| transcript.entry(index)).collect();
    }
    assert_eq!(seen, vec!["User: one", "AI: first", "User: two", "User: three", "AI: ls"]);
}

#[test]
fn read_lines_lose_the_white_space_at_their_ends() {
    assert_eq!(Event::line("  exit \r\n"), Event::Line("exit".to_string()));
    assert_eq!(Event::line("a  b\n"), Event::Line("a  b".to_string()));
    assert_eq!(Event::line("\n"), Event::Line(String::new()));
}

#[test]
fn command_output_is_read_as_text_with_bad_bytes_replaced() {
    assert_eq!(
        Event::command_finished(b"ok\xff", "\u{e9}".as_bytes()),
        Event::CommandFinished { stdout: "ok\u{fffd}".to_string(), stderr: "\u{e9}".to_string() }
    );
}
