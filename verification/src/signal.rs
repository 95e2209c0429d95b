//! Listening for a dialog's response instead of waiting for it: what is
//! asked of the toolkit's signal connection, and whether it was granted.

use crate::filter::{native_text, nul_terminated};
use vstd::prelude::*;

verus! {

/// What the toolkit's signal connection is asked for.
#[derive(Clone, Debug)]
pub struct SignalConnection {
    /// The signal's name, NUL-terminated.
    pub signal: String,
    /// The connection flags.
    pub flags: u32,
}

/// The connection through which a listener hears a dialog's response: the
/// signal named `response`, with no flag set.
pub fn connect_response() -> (connection: SignalConnection)
    ensures
        connection.signal@ == nul_terminated("response"@),
        connection.flags == 0,
{
    SignalConnection { signal: native_text("response"), flags: 0 }
}

/// Whether the handler id that the toolkit returned stands for a connection:
/// the toolkit numbers its handlers from one.
pub fn connection_made(handler: u64) -> (made: bool)
    ensures
        made == (handler > 0),
{
    handler > 0
}

} // verus!
