//! One REPL connection: the order in which its worker writes the prompt,
//! reads a line, hands it over for evaluation and writes the result.

use vstd::prelude::*;

verus! {

/// Where a connection stands.
#[derive(Debug, Clone, Copy, PartialEq, Eq, Structural)]
pub enum ConnectionState {
    /// Accepted; nothing written yet.
    Accepted,
    /// The prompt is being written.
    WritePrompt,
    /// A line is awaited from the peer.
    ReadLine,
    /// A line was handed over; its result is awaited.
    Dispatch,
    /// The result is being written.
    WriteResult,
    /// The worker has ended.
    Closed,
}

/// What happened on a connection.
#[derive(Debug, PartialEq, Eq)]
pub enum ConnectionEvent {
    /// The worker started.
    Started,
    /// What was to be written is written.
    Written,
    /// A read returned. No text at all means that the peer closed the stream.
    Line(String),
    /// The evaluation of the line that was handed over returned this text.
    Evaluated(String),
    /// Reading or writing failed.
    Failed,
}

/// What the worker of a connection does next.
#[derive(Debug, PartialEq, Eq)]
pub enum ConnectionAction {
    /// Write the prompt.
    WritePrompt,
    /// Read one line.
    ReadLine,
    /// Hand the line over for evaluation and wait for its result.
    Dispatch(String),
    /// Write the text, whole, and flush.
    WriteResult(String),
    /// End the worker.
    Close,
    /// Nothing: the worker has ended.
    Nothing,
}

/// The next state of a connection and what its worker does, for each state
/// and event. A read without text, a failure, and an event that the state
/// does not await end the worker.
pub open spec fn transition(state: ConnectionState, event: ConnectionEvent) -> (
    ConnectionState,
    ConnectionAction,
) {
    match (state, event) {
        (ConnectionState::Closed, _) => (ConnectionState::Closed, ConnectionAction::Nothing),
        (ConnectionState::Accepted, ConnectionEvent::Started) => (
            ConnectionState::WritePrompt,
            ConnectionAction::WritePrompt,
        ),
        (ConnectionState::WritePrompt, ConnectionEvent::Written) => (
            ConnectionState::ReadLine,
            ConnectionAction::ReadLine,
        ),
        (ConnectionState::ReadLine, ConnectionEvent::Line(line)) => if line@.len() == 0 {
            (ConnectionState::Closed, ConnectionAction::Close)
        } else {
            (ConnectionState::Dispatch, ConnectionAction::Dispatch(line))
        },
        (ConnectionState::Dispatch, ConnectionEvent::Evaluated(text)) => (
            ConnectionState::WriteResult,
            ConnectionAction::WriteResult(text),
        ),
        (ConnectionState::WriteResult, ConnectionEvent::Written) => (
            ConnectionState::WritePrompt,
            ConnectionAction::WritePrompt,
        ),
        _ => (ConnectionState::Closed, ConnectionAction::Close),
    }
}

/// The prompt that opens every exchange.
pub fn prompt() -> (text: String)
    ensures
        text@ == "> "@,
{
    "> ".to_owned()
}

/// Moves a connection on by one event.
pub fn advance(state: ConnectionState, event: ConnectionEvent) -> (next: (
    ConnectionState,
    ConnectionAction,
))
    ensures
        next == transition(state, event),
{
    match state {
        ConnectionState::Closed => (ConnectionState::Closed, ConnectionAction::Nothing),
        ConnectionState::Accepted => match event {
            ConnectionEvent::Started => (
                ConnectionState::WritePrompt,
                ConnectionAction::WritePrompt,
            ),
            _ => (ConnectionState::Closed, ConnectionAction::Close),
        },
        ConnectionState::WritePrompt => match event {
            ConnectionEvent::Written => (ConnectionState::ReadLine, ConnectionAction::ReadLine),
            _ => (ConnectionState::Closed, ConnectionAction::Close),
        },
        ConnectionState::ReadLine => match event {
            ConnectionEvent::Line(line) => if line.as_str().is_empty() {
                (ConnectionState::Closed, ConnectionAction::Close)
            } else {
                (ConnectionState::Dispatch, ConnectionAction::Dispatch(line))
            },
            _ => (ConnectionState::Closed, ConnectionAction::Close),
        },
        ConnectionState::Dispatch => match event {
            ConnectionEvent::Evaluated(text) => (
                ConnectionState::WriteResult,
                ConnectionAction::WriteResult(text),
            ),
            _ => (ConnectionState::Closed, ConnectionAction::Close),
        },
        ConnectionState::WriteResult => match event {
            ConnectionEvent::Written => (
                ConnectionState::WritePrompt,
                ConnectionAction::WritePrompt,
            ),
            _ => (ConnectionState::Closed, ConnectionAction::Close),
        },
    }
}

/// Whether `reply` is what a round owes a connection: nothing where no
/// line was waiting, and the text of one evaluation of the waiting line,
/// whole, where one was.
pub open spec fn answered<F: Fn(String) -> String>(
    eval: F,
    waiting: Option<String>,
    reply: Option<String>,
) -> bool {
    match waiting {
        None => reply is None,
        Some(line) => reply is Some && eval.ensures((line,), reply->0),
    }
}

/// One round of the dispatch loop over the connections, in the order in
/// which they were registered. `waiting` holds for each connection the
/// line that was waiting on it, if any. Each waiting line is evaluated
/// once, one line after the other, and its text goes to the connection
/// that the line came from, and to that one only; a connection without a
/// waiting line gets nothing.
pub fn serve_round<F: Fn(String) -> String>(waiting: &Vec<Option<String>>, eval: F) -> (replies: Vec<
    Option<String>,
>)
    requires
        forall|line: String| eval.requires((line,)),
    ensures
        replies@.len() == waiting@.len(),
        forall|k: int|
            0 <= k < waiting@.len() ==> answered(eval, waiting@[k], #[trigger] replies@[k]),
{
    let mut replies: Vec<Option<String>> = Vec::new();
    let mut connection: usize = 0;
    while connection < waiting.len()
        invariant
            connection <= waiting@.len(),
            replies@.len() == connection,
            forall|line: String| eval.requires((line,)),
            forall|k: int| 0 <= k < connection ==> answered(eval, waiting@[k], #[trigger] replies@[k]),
        decreases waiting@.len() - connection,
    {
        let reply = match &waiting[connection] {
            Some(line) => Some(eval(line.clone())),
            None => None,
        };
        replies.push(reply);
        connection += 1;
    }
    replies
}

/// In a round, the line that a connection handed over is answered by the
/// text of its own evaluation, and the connection, which was waiting for
/// it, writes that text whole. A connection on which no line was waiting
/// gets nothing in that round, whatever was waiting on the others.
pub proof fn lemma_reply_reaches_its_connection<F: Fn(String) -> String>(
    eval: F,
    waiting: Seq<Option<String>>,
    replies: Seq<Option<String>>,
    connection: int,
)
    requires
        replies.len() == waiting.len(),
        forall|k: int| 0 <= k < waiting.len() ==> answered(eval, waiting[k], #[trigger] replies[k]),
        0 <= connection < waiting.len(),
    ensures
        waiting[connection] is None ==> replies[connection] is None,
        waiting[connection] is Some ==> replies[connection] is Some && eval.ensures(
            (waiting[connection]->0,),
            replies[connection]->0,
        ) && transition(
            ConnectionState::Dispatch,
            ConnectionEvent::Evaluated(replies[connection]->0),
        ) == (ConnectionState::WriteResult, ConnectionAction::WriteResult(replies[connection]->0)),
{
    assert(answered(eval, waiting[connection], replies[connection]));
}

/// The state of a connection after a run of events.
pub open spec fn state_after(state: ConnectionState, events: Seq<ConnectionEvent>) -> ConnectionState
    decreases events.len(),
{
    if events.len() == 0 {
        state
    } else {
        state_after(transition(state, events[0]).0, events.drop_first())
    }
}

/// What the worker of a connection does over a run of events: one action
/// for each event.
pub open spec fn actions(state: ConnectionState, events: Seq<ConnectionEvent>) -> Seq<
    ConnectionAction,
>
    decreases events.len(),
{
    if events.len() == 0 {
        Seq::empty()
    } else {
        seq![transition(state, events[0]).1] + actions(
            transition(state, events[0]).0,
            events.drop_first(),
        )
    }
}

/// Over any run of events a connection acts once for each event, and the
/// action on an event is the transition from the state that the events
/// before it led to.
pub proof fn lemma_action_at(state: ConnectionState, events: Seq<ConnectionEvent>, at: int)
    requires
        0 <= at < events.len(),
    ensures
        actions(state, events).len() == events.len(),
        actions(state, events)[at] == transition(
            state_after(state, events.take(at)),
            events[at],
        ).1,
    decreases events.len(),
{
    let next = transition(state, events[0]).0;
    let rest = events.drop_first();
    lemma_actions_len(next, rest);
    if at == 0 {
        assert(events.take(0) =~= Seq::<ConnectionEvent>::empty());
    } else {
        lemma_action_at(next, rest, at - 1);
        assert(events.take(at).drop_first() =~= rest.take(at - 1));
        assert(events.take(at)[0] == events[0]);
    }
}

/// A connection acts once for each event.
pub proof fn lemma_actions_len(state: ConnectionState, events: Seq<ConnectionEvent>)
    ensures
        actions(state, events).len() == events.len(),
    decreases events.len(),
{
    if events.len() > 0 {
        lemma_actions_len(transition(state, events[0]).0, events.drop_first());
    }
}

/// Whatever happens on a connection, and in whatever order: a result that
/// it writes is the text of one evaluation, whole and unchanged, written in
/// answer to that evaluation, and the evaluation is that of the one line
/// that the connection had handed over and was waiting for.
pub proof fn lemma_results_are_whole(
    state: ConnectionState,
    events: Seq<ConnectionEvent>,
    at: int,
)
    requires
        0 <= at < events.len(),
        actions(state, events)[at] is WriteResult,
    ensures
        events[at] == ConnectionEvent::Evaluated(actions(state, events)[at]->WriteResult_0),
        state_after(state, events.take(at)) == ConnectionState::Dispatch,
        state_after(state, events.take(at + 1)) == ConnectionState::WriteResult,
{
    lemma_action_at(state, events, at);
    lemma_state_step(state, events, at);
}

/// The state after one more event is the transition from the state before.
pub proof fn lemma_state_step(state: ConnectionState, events: Seq<ConnectionEvent>, at: int)
    requires
        0 <= at < events.len(),
    ensures
        state_after(state, events.take(at + 1)) == transition(
            state_after(state, events.take(at)),
            events[at],
        ).0,
    decreases at,
{
    let next = transition(state, events[0]).0;
    let rest = events.drop_first();
    let longer = events.take(at + 1);
    let shorter = events.take(at);
    assert(longer.len() == at + 1);
    assert(longer[0] == events[0]);
    assert(longer.drop_first() =~= rest.take(at));
    assert(state_after(state, longer) == state_after(next, rest.take(at)));
    if at == 0 {
        assert(shorter.len() == 0);
        assert(rest.take(0).len() == 0);
        assert(state_after(state, shorter) == state);
        assert(state_after(next, rest.take(0)) == next);
    } else {
        assert(shorter.len() == at);
        assert(shorter[0] == events[0]);
        assert(shorter.drop_first() =~= rest.take(at - 1));
        assert(state_after(state, shorter) == state_after(next, rest.take(at - 1)));
        assert(rest[at - 1] == events[at]);
        lemma_state_step(next, rest, at - 1);
    }
}

/// From the moment a line is awaited, one exchange runs as follows: the
/// line is handed over as it was read, the text of its evaluation is
/// written whole and as it came, the prompt follows, and the next line is
/// awaited. Between the line and the written result the connection takes no
/// other line: a second one ends it.
pub proof fn lemma_exchange(line: String, text: String, second: String)
    requires
        line@.len() > 0,
    ensures
        transition(ConnectionState::ReadLine, ConnectionEvent::Line(line)) == (
            ConnectionState::Dispatch,
            ConnectionAction::Dispatch(line),
        ),
        transition(ConnectionState::Dispatch, ConnectionEvent::Evaluated(text)) == (
            ConnectionState::WriteResult,
            ConnectionAction::WriteResult(text),
        ),
        transition(ConnectionState::WriteResult, ConnectionEvent::Written) == (
            ConnectionState::WritePrompt,
            ConnectionAction::WritePrompt,
        ),
        transition(ConnectionState::WritePrompt, ConnectionEvent::Written) == (
            ConnectionState::ReadLine,
            ConnectionAction::ReadLine,
        ),
        transition(ConnectionState::Dispatch, ConnectionEvent::Line(second)).0
            == ConnectionState::Closed,
        transition(ConnectionState::WriteResult, ConnectionEvent::Line(second)).0
            == ConnectionState::Closed,
{
}

/// A connection that has ended stays so, whatever happens, and asks for
/// nothing; a read without text ends a connection that awaits a line.
pub proof fn lemma_closed(event: ConnectionEvent, nothing: String)
    requires
        nothing@.len() == 0,
    ensures
        transition(ConnectionState::Closed, event) == (
            ConnectionState::Closed,
            ConnectionAction::Nothing,
        ),
        transition(ConnectionState::ReadLine, ConnectionEvent::Line(nothing)) == (
            ConnectionState::Closed,
            ConnectionAction::Close,
        ),
{
}

} // verus!
