//! The turns of the conversation with the sound server.
//!
//! The client drives the server's event loop by hand: it asks for
//! something, then lets the loop run one round at a time until the answer is
//! there. These functions decide, after each round, whether to go on, and
//! they make the answer out of what the server said.

use vstd::prelude::*;

use crate::volume::SinkInfo;

verus! {

/// How one round of the event loop ended.
#[derive(Copy, Clone, Debug, PartialEq, Eq, Structural)]
pub enum IterateResult {
    /// It ran, and dispatched this many sources.
    Success(u32),
    /// The loop was told to quit, with this value.
    Quit(i32),
    /// It failed, with this error code.
    Failed(i32),
}

/// The state of the connection to the server.
#[derive(Copy, Clone, Debug, PartialEq, Eq, Structural)]
pub enum ContextState {
    Unconnected,
    Connecting,
    Authorizing,
    SettingName,
    Ready,
    Failed,
    Terminated,
}

/// The state of a request that the server is working on.
#[derive(Copy, Clone, Debug, PartialEq, Eq, Structural)]
pub enum OperationState {
    Running,
    Done,
    Cancelled,
}

/// One call of the server into the client while it answers a query.
#[derive(Clone, Debug)]
pub enum ListResult {
    /// A sink that matches.
    Item(SinkInfo),
    /// The list is over.
    End,
    /// The query failed.
    Error,
}

/// Whether the wait is over.
#[derive(Copy, Clone, Debug, PartialEq, Eq, Structural)]
pub enum Poll {
    /// Run the loop for another round.
    Pending,
    /// What was waited for is there.
    Ready,
}

/// Why the conversation ended early.
#[derive(Copy, Clone, Debug, PartialEq, Eq, Structural)]
pub enum ServerError {
    /// A round of the event loop ended in anything but success.
    IterateFailed,
    /// The connection failed or was closed.
    ContextFailed,
    /// The server knows no sink of the name asked for.
    SinkNotFound,
    /// The server failed to answer the query.
    SinkQueryFailed,
}

impl ServerError {
    /// The text shown to the user.
    pub open spec fn spec_message(self) -> Seq<char> {
        match self {
            ServerError::IterateFailed => "Iterate state was not success, quitting..."@,
            ServerError::ContextFailed => "Context state failed/terminated, quitting..."@,
            ServerError::SinkNotFound => "Sink not found"@,
            ServerError::SinkQueryFailed => "Failed to get sink info"@,
        }
    }

    /// The text shown to the user.
    pub fn message(&self) -> (text: &'static str)
        ensures
            text@ == self.spec_message(),
    {
        match self {
            ServerError::IterateFailed => "Iterate state was not success, quitting...",
            ServerError::ContextFailed => "Context state failed/terminated, quitting...",
            ServerError::SinkNotFound => "Sink not found",
            ServerError::SinkQueryFailed => "Failed to get sink info",
        }
    }
}

/// What follows a round of the event loop while the connection is being
/// made.
pub open spec fn connection_turn(iterated: IterateResult, state: ContextState) -> Result<
    Poll,
    ServerError,
> {
    match iterated {
        IterateResult::Quit(_) | IterateResult::Failed(_) => Err(ServerError::IterateFailed),
        IterateResult::Success(_) => match state {
            ContextState::Ready => Ok(Poll::Ready),
            ContextState::Failed | ContextState::Terminated => Err(ServerError::ContextFailed),
            _ => Ok(Poll::Pending),
        },
    }
}

/// What follows a round of the event loop while a request is under way.
pub open spec fn operation_turn(iterated: IterateResult, state: OperationState) -> Result<
    Poll,
    ServerError,
> {
    match iterated {
        IterateResult::Quit(_) | IterateResult::Failed(_) => Err(ServerError::IterateFailed),
        IterateResult::Success(_) => match state {
            OperationState::Running => Ok(Poll::Pending),
            OperationState::Done | OperationState::Cancelled => Ok(Poll::Ready),
        },
    }
}

/// The last thing that the server said other than that the list is over.
pub open spec fn last_answer(results: Seq<ListResult>) -> Option<ListResult>
    decreases results.len(),
{
    if results.len() == 0 {
        None
    } else if results.last() is End {
        last_answer(results.drop_last())
    } else {
        Some(results.last())
    }
}

/// One turn of the wait for the connection.
///
/// `iterated` is how the round of the event loop ended that was just run,
/// `state` the state of the connection after it. The wait goes on until the
/// connection is ready. It fails when the round did, and when the connection
/// has failed or was closed.
pub fn connect_to_pulseaudio(iterated: IterateResult, state: ContextState) -> (turn: Result<
    Poll,
    ServerError,
>)
    ensures
        turn == connection_turn(iterated, state),
{
    match iterated {
        IterateResult::Quit(_) | IterateResult::Failed(_) => {
            return Err(ServerError::IterateFailed);
        },
        IterateResult::Success(_) => {},
    }
    match state {
        ContextState::Ready => Ok(Poll::Ready),
        ContextState::Failed | ContextState::Terminated => Err(ServerError::ContextFailed),
        _ => Ok(Poll::Pending),
    }
}

/// One turn of the wait for a request to end.
///
/// `iterated` is how the round of the event loop ended that was just run,
/// `state` the state of the request after it. The wait goes on while the
/// request is running, and fails when the round did.
pub fn wait_for_operation(iterated: IterateResult, state: OperationState) -> (turn: Result<
    Poll,
    ServerError,
>)
    ensures
        turn == operation_turn(iterated, state),
{
    match iterated {
        IterateResult::Quit(_) | IterateResult::Failed(_) => {
            return Err(ServerError::IterateFailed);
        },
        IterateResult::Success(_) => {},
    }
    match state {
        OperationState::Running => Ok(Poll::Pending),
        OperationState::Done => Ok(Poll::Ready),
        OperationState::Cancelled => Ok(Poll::Ready),
    }
}

/// The answer to a query for a sink by its name.
///
/// `results` holds what the server said while the query ran, in the order
/// in which it said it. The last sink it named is the answer. The query
/// fails where the last thing it reported was an error, and where it named
/// no sink at all.
pub fn get_sink_info_by_name(results: Vec<ListResult>) -> (answer: Result<SinkInfo, ServerError>)
    ensures
        match last_answer(results@) {
            Some(ListResult::Item(info)) => answer == Ok::<SinkInfo, ServerError>(info),
            Some(ListResult::Error) => answer == Err::<SinkInfo, ServerError>(
                ServerError::SinkQueryFailed,
            ),
            _ => answer == Err::<SinkInfo, ServerError>(ServerError::SinkNotFound),
        },
{
    let mut rest = results;
    loop
        invariant
            last_answer(rest@) == last_answer(results@),
        decreases rest@.len(),
    {
        match rest.pop() {
            Some(ListResult::Item(info)) => {
                return Ok(info);
            },
            Some(ListResult::Error) => {
                return Err(ServerError::SinkQueryFailed);
            },
            Some(ListResult::End) => {},
            None => {
                return Err(ServerError::SinkNotFound);
            },
        }
    }
}

} // verus!
