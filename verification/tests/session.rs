use chat_session::response::{Candidate, RawResult};
use chat_session::session::{Action, Event, Phase, Session, TurnError};

fn answer(text: &str) -> Event {
    Event::Reply(RawResult::Response {
        status: 200,
        body: Some(vec![Candidate { generated_text: Some(text.to_string()) }]),
    })
}

fn prompt_of(action: Action) -> String {
    match action {
        Action::Send(request) => request.inputs,
        other => panic!("expected a request, got {:?}", other),
    }
}

fn exchange(session: &mut Session, line: &str, reply: &str) {
    prompt_of(session.step(Event::Line(line.to_string())));
    assert_eq!(session.step(answer(reply)), Action::Render(reply.trim().to_string()));
    assert_eq!(session.step(Event::Rendered), Action::ReadLine);
}

#[test]
fn session_starts_waiting_and_empty() {
    let session = Session::new();
    assert_eq!(session.phase(), Phase::AwaitingInput);
    assert_eq!(session.history(), "");
    assert!(!session.is_ended());
}

#[test]
fn first_exchange_is_shown_and_recorded() {
    let mut session = Session::new();
    let sent = session.step(Event::Line("hello".to_string()));
    assert_eq!(prompt_of(sent), "hello");
    assert_eq!(session.phase(), Phase::Sending);
    let shown = session.step(answer(" hi there "));
    assert_eq!(shown, Action::Render("hi there".to_string()));
    assert_eq!(session.phase(), Phase::Rendering);
    assert_eq!(session.step(Event::Rendered), Action::ReadLine);
    assert_eq!(session.phase(), Phase::AwaitingInput);
    assert_eq!(session.history(), "User Input: hello\nBot Response: hi there\n\n");
}

#[test]
fn prompt_carries_the_history() {
    let mut session = Session::new();
    exchange(&mut session, "a", "b");
    assert_eq!(session.history(), "User Input: a\nBot Response: b\n\n");
    let sent = session.step(Event::Line("c".to_string()));
    assert_eq!(prompt_of(sent), "User Input: a\nBot Response: b\n\nc");
}

#[test]
fn failure_status_leaves_the_history_alone() {
    let mut session = Session::new();
    exchange(&mut session, "a", "b");
    let before = session.history().to_string();
    prompt_of(session.step(Event::Line("c\n".to_string())));
    let reported = session.step(Event::Reply(RawResult::Response { status: 500, body: None }));
    assert_eq!(reported, Action::ReportError(TurnError::Remote(500)));
    assert_eq!(session.phase(), Phase::ReportingError);
    assert_eq!(session.history(), before);
    assert_eq!(session.step(Event::Rendered), Action::ReadLine);
    assert_eq!(session.phase(), Phase::AwaitingInput);
    assert_eq!(session.history(), before);
    let sent = session.step(Event::Line("d".to_string()));
    assert_eq!(prompt_of(sent), "User Input: a\nBot Response: b\n\nd");
}

#[test]
fn empty_candidates_leave_the_history_alone() {
    let mut session = Session::new();
    exchange(&mut session, "a", "b");
    let before = session.history().to_string();
    prompt_of(session.step(Event::Line("c".to_string())));
    let reported =
        session.step(Event::Reply(RawResult::Response { status: 200, body: Some(vec![]) }));
    assert_eq!(reported, Action::ReportError(TurnError::Remote(200)));
    assert_eq!(session.step(Event::Rendered), Action::ReadLine);
    assert_eq!(session.history(), before);
}

#[test]
fn end_of_input_saves_once_then_clears() {
    let mut session = Session::new();
    exchange(&mut session, "hello", " hi there ");
    let full = "User Input: hello\nBot Response: hi there\n\n";
    let mut saves: u32 = 0;
    let closing = session.step(Event::EndOfInput);
    if let Action::Save(_) = &closing {
        saves += 1;
    }
    assert_eq!(closing, Action::Save(full.to_string()));
    assert_eq!(session.phase(), Phase::ShuttingDown);
    assert_eq!(session.history(), full);
    let closed = session.step(Event::SaveFinished(true));
    assert_eq!(closed, Action::Exit { saved: true });
    assert!(session.is_ended());
    assert_eq!(session.history(), "");
    for event in vec![Event::Interrupted, Event::EndOfInput, Event::SaveFinished(true)] {
        if let Action::Save(_) = session.step(event) {
            saves += 1;
        }
    }
    assert_eq!(saves, 1);
}

#[test]
fn transport_failure_is_reported_and_keeps_history() {
    let mut session = Session::new();
    exchange(&mut session, "a", "b");
    let before = session.history().to_string();
    prompt_of(session.step(Event::Line("c".to_string())));
    let reported = session.step(Event::Reply(RawResult::TransportFailure {
        cause: "timed out".to_string(),
    }));
    assert_eq!(reported, Action::ReportError(TurnError::Transport("timed out".to_string())));
    assert_eq!(session.history(), before);
    assert_eq!(session.step(Event::Rendered), Action::ReadLine);
    assert_eq!(session.history(), before);
}

#[test]
fn history_after_several_turns_is_their_blocks_in_order() {
    let mut session = Session::new();
    exchange(&mut session, " one ", " 1 ");
    exchange(&mut session, "two\n", "2\n");
    prompt_of(session.step(Event::Line("lost".to_string())));
    session.step(Event::Reply(RawResult::Response { status: 503, body: None }));
    session.step(Event::Rendered);
    exchange(&mut session, "three", "3");
    assert_eq!(
        session.history(),
        "User Input: one\nBot Response: 1\n\n\
         User Input: two\nBot Response: 2\n\n\
         User Input: three\nBot Response: 3\n\n"
    );
}

#[test]
fn failed_save_still_ends_the_session() {
    let mut session = Session::new();
    exchange(&mut session, "a", "b");
    assert_eq!(
        session.step(Event::EndOfInput),
        Action::Save("User Input: a\nBot Response: b\n\n".to_string())
    );
    assert_eq!(session.step(Event::SaveFinished(false)), Action::Exit { saved: false });
    assert!(session.is_ended());
    assert_eq!(session.history(), "");
}

#[test]
fn interruption_saves_once_from_every_live_phase() {
    // While waiting.
    let mut waiting = Session::new();
    exchange(&mut waiting, "a", "b");
    assert_eq!(
        waiting.step(Event::Interrupted),
        Action::Save("User Input: a\nBot Response: b\n\n".to_string())
    );
    assert_eq!(waiting.step(Event::Interrupted), Action::Nothing);

    // While a request is out.
    let mut sending = Session::new();
    sending.step(Event::Line("a".to_string()));
    assert_eq!(sending.step(Event::Interrupted), Action::Save(String::new()));
    assert_eq!(sending.phase(), Phase::ShuttingDown);

    // While an answer is shown: the turn is not complete and is not saved.
    let mut rendering = Session::new();
    rendering.step(Event::Line("a".to_string()));
    rendering.step(answer("b"));
    assert_eq!(rendering.step(Event::Interrupted), Action::Save(String::new()));
    assert_eq!(rendering.step(Event::Rendered), Action::Nothing);
    assert_eq!(rendering.history(), "");

    // While an error is shown.
    let mut reporting = Session::new();
    reporting.step(Event::Line("a".to_string()));
    reporting.step(Event::Reply(RawResult::Response { status: 500, body: None }));
    assert_eq!(reporting.step(Event::Interrupted), Action::Save(String::new()));
    assert_eq!(reporting.step(Event::SaveFinished(true)), Action::Exit { saved: true });
    assert_eq!(reporting.step(Event::Interrupted), Action::Nothing);
}

#[test]
fn events_out_of_place_change_nothing() {
    let mut session = Session::new();
    assert_eq!(session.step(Event::Rendered), Action::Nothing);
    assert_eq!(session.step(answer("x")), Action::Nothing);
    assert_eq!(session.step(Event::SaveFinished(true)), Action::Nothing);
    assert_eq!(session.phase(), Phase::AwaitingInput);
    assert_eq!(session.history(), "");

    session.step(Event::Line("a".to_string()));
    assert_eq!(session.step(Event::Line("b".to_string())), Action::Nothing);
    assert_eq!(session.step(Event::EndOfInput), Action::Nothing);
    assert_eq!(session.phase(), Phase::Sending);
    assert_eq!(session.step(answer("r")), Action::Render("r".to_string()));
    assert_eq!(session.step(Event::Rendered), Action::ReadLine);
    assert_eq!(session.history(), "User Input: a\nBot Response: r\n\n");
}

#[test]
fn end_of_input_on_an_empty_session_saves_an_empty_transcript() {
    let mut session = Session::new();
    assert_eq!(session.step(Event::EndOfInput), Action::Save(String::new()));
    assert_eq!(session.step(Event::SaveFinished(true)), Action::Exit { saved: true });
}

#[test]
fn error_messages_name_the_status_or_the_cause() {
    assert_eq!(TurnError::Remote(500).message(), "Error: 500");
    assert_eq!(TurnError::Remote(200).message(), "Error: 200");
    assert_eq!(TurnError::Remote(0).message(), "Error: 0");
    assert_eq!(
        TurnError::Transport("connection refused".to_string()).message(),
        "Error: connection refused"
    );
    assert_eq!(TurnError::Transport(String::new()).message(), "Error: ");
}
