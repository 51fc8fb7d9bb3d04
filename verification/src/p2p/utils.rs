//! What a connection handler does after each attempt to read from its
//! connection.

use vstd::prelude::*;

verus! {

/// The result of one attempt to read from a connection.
#[derive(Debug, Clone, Copy, PartialEq, Eq, Structural)]
pub enum ReadOutcome {
    /// This many bytes were read.
    Read(usize),
    /// Nothing to read yet.
    WouldBlock,
    /// The read failed.
    Failed,
}

/// What the handler does next.
#[derive(Debug, Clone, Copy, PartialEq, Eq, Structural)]
pub enum ConnectionAction {
    /// The other side closed the connection: stop handling it.
    Close,
    /// Decode the bytes read as a message and route it.
    Process,
    /// Wait for the connection to be ready again.
    Retry,
}

/// The next step after a read: zero bytes read means the connection was
/// closed; bytes read are processed; a read that would block or failed is
/// retried.
pub fn next_connection_action(outcome: ReadOutcome) -> (a: ConnectionAction)
    ensures
        a == (match outcome {
            ReadOutcome::Read(n) => if n == 0 {
                ConnectionAction::Close
            } else {
                ConnectionAction::Process
            },
            ReadOutcome::WouldBlock => ConnectionAction::Retry,
            ReadOutcome::Failed => ConnectionAction::Retry,
        }),
{
    match outcome {
        ReadOutcome::Read(n) => if n == 0 {
            ConnectionAction::Close
        } else {
            ConnectionAction::Process
        },
        ReadOutcome::WouldBlock => ConnectionAction::Retry,
        ReadOutcome::Failed => ConnectionAction::Retry,
    }
}

} // verus!
