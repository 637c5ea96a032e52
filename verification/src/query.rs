//! The two-call query: ask for the size, then fill a buffer of that size.
//!
//! Every variable-sized answer of the operating system is fetched this way.
//! The caller makes the calls; `query_sized` decides after each call what
//! comes next. What is counted (entries or bytes) is the caller's affair.

use vstd::prelude::*;
use crate::error::{ERROR_INSUFFICIENT_BUFFER, ERROR_INVALID_DATA};

verus! {

/// The value that a query returns in place of a count when it failed.
pub const QUERY_FAILED: u32 = 0xFFFF_FFFF;

/// What one call of the query gave back.
#[derive(Clone, Copy, Debug, PartialEq, Eq, Structural)]
pub struct QueryReply {
    /// The call's return value: `QUERY_FAILED`, or what was filled in.
    pub returned: u32,
    /// The size that the call reported as required.
    pub size: u32,
    /// The status code of the failure, where the call failed.
    pub last_error: u32,
}

/// Where a query stands between two calls.
#[derive(Clone, Copy, Debug, PartialEq, Eq, Structural)]
pub enum QueryState {
    /// The size was asked for.
    Probing,
    /// A buffer of `capacity` was handed over to be filled.
    Filling { capacity: u32 },
}

/// What the caller of a query does next.
#[derive(Clone, Copy, Debug, PartialEq, Eq, Structural)]
pub enum QueryAction {
    /// Ask for the required size.
    Probe,
    /// Hand over a buffer of `capacity` to be filled.
    Fill { capacity: u32 },
    /// The query is answered: `filled` of the buffer is valid.
    Finish { filled: u32 },
    /// The query failed for good with this status code.
    Fail { os_code: u32 },
}

/// The step that follows `reply` in `state`.
///
/// A failed probe fails the query. A probe that asks for nothing finishes
/// it with nothing; any other probe is followed by a fill of the size
/// asked for. A fill that found its buffer too small starts the query
/// over, since what is asked for may have grown between the two calls; any
/// other failed fill fails the query, as does a fill that claims more than
/// the buffer holds.
pub open spec fn next_action(state: QueryState, reply: QueryReply) -> QueryAction {
    match state {
        QueryState::Probing => if reply.returned == QUERY_FAILED {
            QueryAction::Fail { os_code: reply.last_error }
        } else if reply.size == 0 {
            QueryAction::Finish { filled: 0 }
        } else {
            QueryAction::Fill { capacity: reply.size }
        },
        QueryState::Filling { capacity } => if reply.returned == QUERY_FAILED {
            if reply.last_error == ERROR_INSUFFICIENT_BUFFER {
                QueryAction::Probe
            } else {
                QueryAction::Fail { os_code: reply.last_error }
            }
        } else if reply.returned > capacity {
            QueryAction::Fail { os_code: ERROR_INVALID_DATA }
        } else {
            QueryAction::Finish { filled: reply.returned }
        },
    }
}

impl QueryAction {
    /// The state in which the reply to this action is awaited, if the
    /// action is a call.
    pub open spec fn spec_awaits(self) -> Option<QueryState> {
        match self {
            QueryAction::Probe => Some(QueryState::Probing),
            QueryAction::Fill { capacity } => Some(QueryState::Filling { capacity }),
            QueryAction::Finish { .. } => None,
            QueryAction::Fail { .. } => None,
        }
    }

    /// The state in which the reply to this action is awaited, if the
    /// action is a call.
    pub fn awaits(&self) -> (state: Option<QueryState>)
        ensures
            state == self.spec_awaits(),
    {
        match self {
            QueryAction::Probe => Some(QueryState::Probing),
            QueryAction::Fill { capacity } => Some(QueryState::Filling { capacity: *capacity }),
            QueryAction::Finish { .. } => None,
            QueryAction::Fail { .. } => None,
        }
    }
}

/// The first action of every query: the probe. No buffer is filled before
/// the size was asked for, even where the size is known beforehand.
pub fn begin_query() -> (action: QueryAction)
    ensures
        action == QueryAction::Probe,
{
    QueryAction::Probe
}

/// Decides what follows `reply`, which answered the call awaited in `state`.
pub fn query_sized(state: QueryState, reply: QueryReply) -> (action: QueryAction)
    ensures
        action == next_action(state, reply),
        action matches QueryAction::Finish { filled } ==> match state {
            QueryState::Probing => filled == 0,
            QueryState::Filling { capacity } => filled <= capacity,
        },
        action matches QueryAction::Fill { capacity } ==> capacity > 0 && state == QueryState::Probing,
{
    match state {
        QueryState::Probing => {
            if reply.returned == QUERY_FAILED {
                QueryAction::Fail { os_code: reply.last_error }
            } else if reply.size == 0 {
                QueryAction::Finish { filled: 0 }
            } else {
                QueryAction::Fill { capacity: reply.size }
            }
        },
        QueryState::Filling { capacity } => {
            if reply.returned == QUERY_FAILED {
                if reply.last_error == ERROR_INSUFFICIENT_BUFFER {
                    QueryAction::Probe
                } else {
                    QueryAction::Fail { os_code: reply.last_error }
                }
            } else if reply.returned > capacity {
                QueryAction::Fail { os_code: ERROR_INVALID_DATA }
            } else {
                QueryAction::Finish { filled: reply.returned }
            }
        },
    }
}

/// A fetch that failed: the status code of the failure, and the buffer as
/// the failed call left it. Where no buffer was handed over, `filled` is
/// empty.
#[derive(Clone, Debug, PartialEq, Eq)]
pub struct FailedFetch {
    pub os_code: u32,
    pub filled: Vec<u8>,
}

/// A failed fetch as the contracts see it.
pub struct Failure {
    pub os_code: u32,
    pub filled: Seq<u8>,
}

impl View for FailedFetch {
    type V = Failure;

    open spec fn view(&self) -> Failure {
        Failure { os_code: self.os_code, filled: self.filled@ }
    }
}

/// A finished fetch as the contracts see it: the bytes that were filled
/// in, or the failure.
pub open spec fn fetched(fetch: Result<Vec<u8>, FailedFetch>) -> Result<Seq<u8>, Failure> {
    match fetch {
        Ok(bytes) => Ok(bytes@),
        Err(failure) => Err(failure@),
    }
}

} // verus!
