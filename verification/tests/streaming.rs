use prompt_relay::reply::ContentType;
use prompt_relay::reply::Reply;
use prompt_relay::stream::relay_all;
use prompt_relay::stream::start;
use prompt_relay::stream::step;
use prompt_relay::stream::stream_head;
use prompt_relay::stream::Ending;
use prompt_relay::stream::RelayState;
use prompt_relay::stream::StreamAction;
use prompt_relay::stream::StreamEvent;
use prompt_relay::stream::Transcript;

fn fragment(text: &str) -> StreamEvent {
    StreamEvent::Fragment(text.to_string())
}

#[test]
fn stream_starts_open() {
    assert_eq!(start(), RelayState::Open);
}

#[test]
fn fragment_is_written_and_stream_stays_open() {
    let (state, action) = step(RelayState::Open, fragment("Owner"));
    assert_eq!(state, RelayState::Open);
    assert_eq!(action, StreamAction::Write("Owner".to_string()));
}

#[test]
fn end_finishes_the_stream() {
    let (state, action) = step(RelayState::Open, StreamEvent::End);
    assert_eq!(state, RelayState::Closed);
    assert_eq!(action, StreamAction::Finish);
}

#[test]
fn failure_aborts_the_stream_with_its_description() {
    let (state, action) = step(RelayState::Open, StreamEvent::Failure("broken pipe".to_string()));
    assert_eq!(state, RelayState::Closed);
    assert_eq!(action, StreamAction::Abort("broken pipe".to_string()));
}

#[test]
fn closed_stream_ignores_everything() {
    assert_eq!(
        step(RelayState::Closed, fragment("late")),
        (RelayState::Closed, StreamAction::Ignore)
    );
    assert_eq!(
        step(RelayState::Closed, StreamEvent::End),
        (RelayState::Closed, StreamAction::Ignore)
    );
    assert_eq!(
        step(RelayState::Closed, StreamEvent::Failure("late".to_string())),
        (RelayState::Closed, StreamAction::Ignore)
    );
}

#[test]
fn fragments_are_joined_in_order_until_the_end() {
    let events = vec![fragment("Owner"), fragment("ship is"), fragment(" a rule."), StreamEvent::End];
    let transcript = relay_all(&events);
    assert_eq!(
        transcript,
        Transcript { body: "Ownership is a rule.".to_string(), ending: Ending::Completed }
    );
    assert!(!transcript.body.is_empty());
}

#[test]
fn stepping_gives_the_same_body_as_relaying() {
    let events = vec![
        fragment("a"),
        fragment(""),
        fragment("bc"),
        StreamEvent::Failure("lost".to_string()),
        fragment("d"),
        StreamEvent::End,
    ];
    let mut state = start();
    let mut body = String::new();
    let mut actions = Vec::new();
    for event in events.clone() {
        let (next, action) = step(state, event);
        if let StreamAction::Write(text) = &action {
            body.push_str(text);
        }
        actions.push(action);
        state = next;
    }
    assert_eq!(state, RelayState::Closed);
    assert_eq!(
        actions,
        vec![
            StreamAction::Write("a".to_string()),
            StreamAction::Write(String::new()),
            StreamAction::Write("bc".to_string()),
            StreamAction::Abort("lost".to_string()),
            StreamAction::Ignore,
            StreamAction::Ignore,
        ]
    );
    let transcript = relay_all(&events);
    assert_eq!(transcript.body, body);
    assert_eq!(transcript.body, "abc");
    assert_eq!(transcript.ending, Ending::Failed);
}

#[test]
fn nothing_after_the_end_is_relayed() {
    let events = vec![fragment("x"), StreamEvent::End, fragment("y"), StreamEvent::Failure("z".to_string())];
    assert_eq!(
        relay_all(&events),
        Transcript { body: "x".to_string(), ending: Ending::Completed }
    );
}

#[test]
fn unfinished_stream_is_pending() {
    assert_eq!(relay_all(&Vec::new()), Transcript { body: String::new(), ending: Ending::Pending });
    assert_eq!(
        relay_all(&vec![fragment("par"), fragment("tial")]),
        Transcript { body: "partial".to_string(), ending: Ending::Pending }
    );
}

#[test]
fn immediate_failure_relays_nothing() {
    let events = vec![StreamEvent::Failure("unreachable".to_string())];
    assert_eq!(relay_all(&events), Transcript { body: String::new(), ending: Ending::Failed });
}

#[test]
fn head_of_a_created_stream_is_plain_text_success() {
    assert_eq!(
        stream_head(None),
        Reply { status: 200, content_type: Some(ContentType::PlainText), body: String::new() }
    );
}

#[test]
fn head_of_a_stream_that_could_not_be_created_is_server_error() {
    assert_eq!(
        stream_head(Some("LLM error: connection refused".to_string())),
        Reply {
            status: 500,
            content_type: None,
            body: "LLM error: connection refused".to_string(),
        }
    );
}
