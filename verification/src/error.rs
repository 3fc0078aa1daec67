use vstd::prelude::*;

verus! {

/// Kind of an input/output failure, in the classification of the standard
/// library's `std::io::ErrorKind`; the kinds that it adds later than these are
/// all `Uncategorized`.
#[derive(Debug, PartialEq, Eq, Clone, Copy, Structural)]
pub enum IoErrorKind {
    NotFound,
    PermissionDenied,
    ConnectionRefused,
    ConnectionReset,
    HostUnreachable,
    NetworkUnreachable,
    ConnectionAborted,
    NotConnected,
    AddrInUse,
    AddrNotAvailable,
    NetworkDown,
    BrokenPipe,
    AlreadyExists,
    WouldBlock,
    NotADirectory,
    IsADirectory,
    DirectoryNotEmpty,
    ReadOnlyFilesystem,
    StaleNetworkFileHandle,
    InvalidInput,
    InvalidData,
    TimedOut,
    WriteZero,
    StorageFull,
    NotSeekable,
    FileTooLarge,
    ResourceBusy,
    ExecutableFileBusy,
    Deadlock,
    TooManyLinks,
    ArgumentListTooLong,
    Interrupted,
    Unsupported,
    UnexpectedEof,
    OutOfMemory,
    QuotaExceeded,
    CrossesDevices,
    InvalidFilename,
    InProgress,
    Other,
    Uncategorized,
}

/// Possible error of an `EthosClient`. `E` is the error type of the message
/// codec (packing a client message, decoding a server message).
#[derive(Debug, PartialEq, Eq, Structural)]
pub enum Error<E> {
    /// Happens when trying to do action while client is disconnected.
    ClientDisconnected,
    /// Invalid connection string given.
    InvalidConnectionString,
    /// Client is already connected.
    ClientAlreadyConnected,
    /// Sending a client message failed. Usually mean channel is closed.
    SendClientMessageFailed,
    /// Server is down.
    ServerDown,
    /// Unhandled IO error.
    UnhandledIOError(IoErrorKind),
    /// Client message size is too large.
    ClientMessageTooLarge,
    /// Error occurred when packing bytes.
    ClientMessagePackError(E),
    /// Failed to send message to server.
    ClientMessageSendError(IoErrorKind),
    /// Error occurred while reading message from server.
    ServerMessageReadError(IoErrorKind),
    /// Error occurred when retrieving a server message from bytes.
    ServerMessageFromBytesError(E),
    /// Happens when client channels are down; the client must be dropped and recreated.
    ClientChannelDown,
}

/// The errors that tell a connecting client that no connection came about:
/// the attempt failed, or the thread had no connection to offer.
pub open spec fn ends_connection<E>(err: Error<E>) -> bool {
    ||| err is ClientDisconnected
    ||| err is InvalidConnectionString
    ||| err is UnhandledIOError
    ||| err is ServerDown
}

/// The kinds of connection failure that mean that the server cannot be reached.
pub open spec fn server_unreachable(kind: IoErrorKind) -> bool {
    ||| kind == IoErrorKind::NotFound
    ||| kind == IoErrorKind::PermissionDenied
    ||| kind == IoErrorKind::ConnectionRefused
    ||| kind == IoErrorKind::ConnectionReset
    ||| kind == IoErrorKind::HostUnreachable
    ||| kind == IoErrorKind::NetworkUnreachable
    ||| kind == IoErrorKind::ConnectionAborted
    ||| kind == IoErrorKind::NotConnected
}

/// The error that a failed attempt to open a connection is reported as.
pub open spec fn connect_failure<E>(kind: IoErrorKind) -> Error<E> {
    if kind == IoErrorKind::InvalidInput {
        Error::InvalidConnectionString
    } else if server_unreachable(kind) {
        Error::ServerDown
    } else {
        Error::UnhandledIOError(kind)
    }
}

/// Classifies the failure of an attempt to open a connection: an invalid
/// connection string, a server that cannot be reached, or another error.
pub fn connect_error<E>(kind: IoErrorKind) -> (err: Error<E>)
    ensures
        err == connect_failure::<E>(kind),
        (err == Error::<E>::InvalidConnectionString) <==> kind == IoErrorKind::InvalidInput,
        (err == Error::<E>::ServerDown) <==> (kind == IoErrorKind::NotFound || kind
            == IoErrorKind::PermissionDenied || kind == IoErrorKind::ConnectionRefused || kind
            == IoErrorKind::ConnectionReset || kind == IoErrorKind::HostUnreachable || kind
            == IoErrorKind::NetworkUnreachable || kind == IoErrorKind::ConnectionAborted || kind
            == IoErrorKind::NotConnected),
        err is InvalidConnectionString || err is ServerDown || err == Error::<E>::UnhandledIOError(
            kind,
        ),
{
    match kind {
        IoErrorKind::InvalidInput => Error::InvalidConnectionString,
        IoErrorKind::NotFound
        | IoErrorKind::PermissionDenied
        | IoErrorKind::ConnectionRefused
        | IoErrorKind::ConnectionReset
        | IoErrorKind::HostUnreachable
        | IoErrorKind::NetworkUnreachable
        | IoErrorKind::ConnectionAborted
        | IoErrorKind::NotConnected => Error::ServerDown,
        _ => Error::UnhandledIOError(kind),
    }
}

/// A failed attempt to open a connection is reported as an invalid connection
/// string exactly when the string was refused as invalid input, as a server
/// that is down exactly when the failure is one of the eight kinds that say
/// that the server cannot be reached (not found, permission denied, refused,
/// reset, host or network unreachable, aborted, not connected), and otherwise
/// as an unhandled error of that very kind.
pub proof fn connect_failures_are_classified<E>(kind: IoErrorKind)
    ensures
        (connect_failure::<E>(kind) == Error::<E>::InvalidConnectionString) <==> kind
            == IoErrorKind::InvalidInput,
        (connect_failure::<E>(kind) == Error::<E>::ServerDown) <==> (kind == IoErrorKind::NotFound
            || kind == IoErrorKind::PermissionDenied || kind == IoErrorKind::ConnectionRefused || kind
            == IoErrorKind::ConnectionReset || kind == IoErrorKind::HostUnreachable || kind
            == IoErrorKind::NetworkUnreachable || kind == IoErrorKind::ConnectionAborted || kind
            == IoErrorKind::NotConnected),
        kind != IoErrorKind::InvalidInput && !(kind == IoErrorKind::NotFound || kind
            == IoErrorKind::PermissionDenied || kind == IoErrorKind::ConnectionRefused || kind
            == IoErrorKind::ConnectionReset || kind == IoErrorKind::HostUnreachable || kind
            == IoErrorKind::NetworkUnreachable || kind == IoErrorKind::ConnectionAborted || kind
            == IoErrorKind::NotConnected) ==> connect_failure::<E>(kind) == Error::<E>::UnhandledIOError(
            kind,
        ),
{
}

} // verus!
