//! Relaying a streamed completion: what is written to the client for each
//! thing that the producer yields, and when the stream ends.

use crate::reply::reply_for;
use crate::reply::reply_of;
use crate::reply::ContentType;
use crate::reply::Reply;
use crate::reply::ReplyView;
use vstd::prelude::*;
use vstd::string::*;

verus! {

/// What the producer of a streamed completion yields.
#[derive(Debug, Clone, PartialEq, Eq)]
pub enum StreamEvent {
    /// The next fragment of the answer.
    Fragment(String),
    /// The producer failed; the text describes the failure.
    Failure(String),
    /// The producer has nothing more to give.
    End,
}

/// What is done with the response body for one event.
#[derive(Debug, Clone, PartialEq, Eq)]
pub enum StreamAction {
    /// The fragment is written to the client.
    Write(String),
    /// The stream ends with a failed chunk that carries the description.
    Abort(String),
    /// The stream ends.
    Finish,
    /// Nothing: the stream had ended before.
    Ignore,
}

/// Whether a response stream can still take fragments.
#[derive(Debug, Clone, Copy, PartialEq, Eq, Structural)]
pub enum RelayState {
    Open,
    Closed,
}

/// How a sequence of events left the stream.
#[derive(Debug, Clone, Copy, PartialEq, Eq, Structural)]
pub enum Ending {
    /// No terminal event yet.
    Pending,
    /// The producer signalled the end.
    Completed,
    /// The producer failed.
    Failed,
}

/// The state after an event.
pub open spec fn next_state(state: RelayState, event: StreamEvent) -> RelayState {
    match (state, event) {
        (RelayState::Open, StreamEvent::Fragment(_)) => RelayState::Open,
        _ => RelayState::Closed,
    }
}

/// The action for an event.
pub open spec fn action_of(state: RelayState, event: StreamEvent) -> StreamAction {
    match state {
        RelayState::Closed => StreamAction::Ignore,
        RelayState::Open => match event {
            StreamEvent::Fragment(text) => StreamAction::Write(text),
            StreamEvent::Failure(description) => StreamAction::Abort(description),
            StreamEvent::End => StreamAction::Finish,
        },
    }
}

/// The state that a sequence of events leaves a fresh stream in.
pub open spec fn state_after(events: Seq<StreamEvent>) -> RelayState
    decreases events.len(),
{
    if events.len() == 0 {
        RelayState::Open
    } else {
        next_state(state_after(events.drop_last()), events.last())
    }
}

/// The text that has been written to the client after a sequence of events
/// on a fresh stream: the fragments up to the first terminal event, joined
/// in order.
pub open spec fn relayed(events: Seq<StreamEvent>) -> Seq<char>
    decreases events.len(),
{
    if events.len() == 0 {
        Seq::empty()
    } else {
        match action_of(state_after(events.drop_last()), events.last()) {
            StreamAction::Write(text) => relayed(events.drop_last()) + text@,
            _ => relayed(events.drop_last()),
        }
    }
}

/// How a sequence of events left a fresh stream: by its first terminal
/// event, if it has one.
pub open spec fn ending_of(events: Seq<StreamEvent>) -> Ending
    decreases events.len(),
{
    if events.len() == 0 {
        Ending::Pending
    } else {
        match action_of(state_after(events.drop_last()), events.last()) {
            StreamAction::Abort(_) => Ending::Failed,
            StreamAction::Finish => Ending::Completed,
            _ => ending_of(events.drop_last()),
        }
    }
}

/// Whether every event of the sequence is a fragment.
pub open spec fn only_fragments(events: Seq<StreamEvent>) -> bool {
    forall|i: int| 0 <= i < events.len() ==> (#[trigger] events[i]) is Fragment
}

/// The state in which a response stream starts.
pub fn start() -> (state: RelayState)
    ensures
        state == RelayState::Open,
        state == state_after(Seq::empty()),
{
    RelayState::Open
}

/// Takes one event of the producer: gives the state that follows and what
/// is done with the response body.
pub fn step(state: RelayState, event: StreamEvent) -> (next: (RelayState, StreamAction))
    ensures
        next.0 == next_state(state, event),
        next.1 == action_of(state, event),
{
    match state {
        RelayState::Closed => (RelayState::Closed, StreamAction::Ignore),
        RelayState::Open => match event {
            StreamEvent::Fragment(text) => (RelayState::Open, StreamAction::Write(text)),
            StreamEvent::Failure(description) => (
                RelayState::Closed,
                StreamAction::Abort(description),
            ),
            StreamEvent::End => (RelayState::Closed, StreamAction::Finish),
        },
    }
}

/// The head of a streamed response. Where the producer could be created
/// it is a success that declares plain text, with the body still to come;
/// where it could not, the response is the one owed for a failed
/// completion: the failure's description with status 500.
pub open spec fn head_of(failure: Option<String>) -> ReplyView {
    match failure {
        None => ReplyView {
            status: 200,
            content_type: Some(ContentType::PlainText),
            body: Seq::empty(),
        },
        Some(description) => reply_of(Err(description)),
    }
}

/// Decides the head of a streamed response from whether the producer could
/// be created.
pub fn stream_head(failure: Option<String>) -> (reply: Reply)
    ensures
        reply@ == head_of(failure),
{
    match failure {
        None => reply_for(Ok(String::new())),
        Some(description) => reply_for(Err(description)),
    }
}

/// What a client has received of a streamed response.
#[derive(Debug, Clone, PartialEq, Eq)]
pub struct Transcript {
    /// The fragments written, joined in order.
    pub body: String,
    /// How the stream stands.
    pub ending: Ending,
}

/// Relays a whole sequence of events through a fresh stream and reports
/// what the client received.
pub fn relay_all(events: &Vec<StreamEvent>) -> (transcript: Transcript)
    ensures
        transcript.body@ == relayed(events@),
        transcript.ending == ending_of(events@),
{
    let mut body: String = String::new();
    let mut ending: Ending = Ending::Pending;
    let mut state: RelayState = start();
    let mut i: usize = 0;
    while i < events.len()
        invariant
            0 <= i <= events.len(),
            state == state_after(events@.take(i as int)),
            body@ == relayed(events@.take(i as int)),
            ending == ending_of(events@.take(i as int)),
        decreases events.len() - i,
    {
        proof {
            let grown = events@.take(i + 1);
            assert(grown.drop_last() =~= events@.take(i as int));
            assert(grown.last() == events@[i as int]);
        }
        match state {
            RelayState::Closed => {},
            RelayState::Open => match &events[i] {
                StreamEvent::Fragment(text) => {
                    body.append(text.as_str());
                },
                StreamEvent::Failure(_) => {
                    ending = Ending::Failed;
                    state = RelayState::Closed;
                },
                StreamEvent::End => {
                    ending = Ending::Completed;
                    state = RelayState::Closed;
                },
            },
        }
        i = i + 1;
    }
    proof {
        assert(events@.take(i as int) =~= events@);
    }
    Transcript { body, ending }
}

/// A stream that has ended stays ended: whatever comes after a terminal
/// event changes neither the state nor what the client received nor how
/// the stream ended.
pub proof fn lemma_closed_is_final(events: Seq<StreamEvent>, event: StreamEvent)
    requires
        state_after(events) == RelayState::Closed,
    ensures
        state_after(events.push(event)) == RelayState::Closed,
        relayed(events.push(event)) == relayed(events),
        ending_of(events.push(event)) == ending_of(events),
        action_of(state_after(events), event) == StreamAction::Ignore,
{
    assert(events.push(event).drop_last() =~= events);
    assert(events.push(event).last() == event);
}

/// While a stream is open, a fragment is written through unchanged: the
/// client has received what it had before, followed by the fragment.
pub proof fn lemma_fragment_is_appended(events: Seq<StreamEvent>, text: String)
    requires
        state_after(events) == RelayState::Open,
    ensures
        state_after(events.push(StreamEvent::Fragment(text))) == RelayState::Open,
        relayed(events.push(StreamEvent::Fragment(text))) == relayed(events) + text@,
        ending_of(events.push(StreamEvent::Fragment(text))) == ending_of(events),
{
    let event = StreamEvent::Fragment(text);
    assert(events.push(event).drop_last() =~= events);
    assert(events.push(event).last() == event);
}

/// The end of the producer and a failure both end an open stream: the
/// stream is closed afterwards, it has ended by that event, and the client
/// has received nothing new.
pub proof fn lemma_terminal_event_closes(events: Seq<StreamEvent>, event: StreamEvent)
    requires
        state_after(events) == RelayState::Open,
        !(event is Fragment),
    ensures
        state_after(events.push(event)) == RelayState::Closed,
        relayed(events.push(event)) == relayed(events),
        event is End ==> ending_of(events.push(event)) == Ending::Completed,
        event is Failure ==> ending_of(events.push(event)) == Ending::Failed,
{
    assert(events.push(event).drop_last() =~= events);
    assert(events.push(event).last() == event);
}

/// A stream is open exactly as long as it has seen nothing but fragments,
/// and is then still pending.
pub proof fn lemma_open_iff_only_fragments(events: Seq<StreamEvent>)
    ensures
        state_after(events) == RelayState::Open <==> only_fragments(events),
        state_after(events) == RelayState::Open <==> ending_of(events) == Ending::Pending,
    decreases events.len(),
{
    if events.len() > 0 {
        let before = events.drop_last();
        lemma_open_iff_only_fragments(before);
        if only_fragments(events) {
            assert forall|i: int| 0 <= i < before.len() implies (#[trigger] before[i]) is Fragment by {
                assert(before[i] == events[i]);
            }
            assert(events[events.len() - 1] is Fragment);
        }
        if state_after(events) == RelayState::Open {
            assert forall|i: int| 0 <= i < events.len() implies (#[trigger] events[i]) is Fragment by {
                if i < before.len() {
                    assert(events[i] == before[i]);
                }
            }
        }
    }
}

/// A stream ends at its first event that is no fragment: where that event
/// stands at place `k`, the stream is closed after the whole sequence, the
/// client has received the fragments before place `k` and nothing else,
/// and the stream has ended as that event says.
pub proof fn lemma_first_terminal_event_decides(events: Seq<StreamEvent>, k: int)
    requires
        0 <= k < events.len(),
        only_fragments(events.take(k)),
        !(events[k] is Fragment),
    ensures
        state_after(events) == RelayState::Closed,
        relayed(events) == relayed(events.take(k)),
        events[k] is End ==> ending_of(events) == Ending::Completed,
        events[k] is Failure ==> ending_of(events) == Ending::Failed,
    decreases events.len(),
{
    let before = events.drop_last();
    assert(events =~= before.push(events.last()));
    if events.len() == k + 1 {
        assert(before =~= events.take(k));
        lemma_open_iff_only_fragments(before);
        lemma_terminal_event_closes(before, events[k]);
    } else {
        assert(before.take(k) =~= events.take(k));
        assert(before[k] == events[k]);
        lemma_first_terminal_event_decides(before, k);
        lemma_closed_is_final(before, events.last());
    }
}

} // verus!
