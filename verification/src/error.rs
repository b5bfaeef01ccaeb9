//! The error values that every pipe operation can surface.

use vstd::prelude::*;

verus! {

/// Everything that can go wrong while talking to an engine.
///
/// Each operation returns one of these instead of panicking.  Variants that
/// wrap a failure of an outside facility carry its message as plain text.
#[derive(Debug, Clone)]
pub enum Error {
    /// A read, write, connect or spawn failed; the text is the reported cause.
    Io(String),
    /// No open engine session: the inherited transport found no usable
    /// descriptor pair in the environment.
    NoSession,
    /// The engine produced no bytes where a non-empty reply or JSON was
    /// required.
    EmptyResponse,
    /// Parallel argument lists of unequal length were handed to the pool.
    ArgumentMismatch,
    /// A reply could not be decoded as JSON; the text is the decoder's
    /// message.
    SerdeError(String),
    /// A framed reply was not valid UTF-8.
    Utf8,
    /// A blocking receive on a pool channel failed because the sender is gone.
    ChannelReceiveError,
    /// A non-blocking receive on a pool channel found nothing or no sender.
    ChannelTryReceiveError,
    /// A send on a pool channel failed because the receiver is gone.
    ChannelSendError,
    /// A shared library could not be loaded or a symbol could not be
    /// resolved; the text is the reported cause.
    SharedLibraryError(String),
}

} // verus!
