use vstd::prelude::*;

verus! {

/// The uniform error taxonomy of a transfer. Every failure is fatal.
#[derive(Clone, Copy, Debug, PartialEq, Eq, Structural)]
pub enum TransferError {
    /// The address is in use or invalid.
    AddressBind,
    /// The peer refused the connection.
    ConnectionRefused,
    /// The connection attempt timed out.
    ConnectTimeout,
    /// Reading or writing a socket or a file failed.
    IoTransfer,
    /// A file's size does not fit the platform's `usize`.
    SizeConversion,
    /// The concurrent listener task ended abnormally.
    TaskJoin,
    /// The message transport reported a failure of its own.
    Transport,
    /// An event arrived that the session does not expect in its current phase.
    OutOfOrder,
}

} // verus!
