//! The driver error taxonomy and the single conversion that every transport
//! failure goes through.

use vstd::prelude::*;

verus! {

/// The error type for device operation failures.
#[derive(Clone, Copy, Debug, PartialEq, Eq, Structural)]
pub enum DevError {
    /// An entity already exists.
    AlreadyExists,
    /// Try again, for non-blocking APIs.
    Again,
    /// Bad internal state.
    BadState,
    /// Invalid parameter/argument.
    InvalidParam,
    /// Input/output error.
    Io,
    /// Not enough space/cannot allocate memory (DMA).
    NoMemory,
    /// Device or resource is busy.
    ResourceBusy,
    /// This operation is unsupported or unimplemented.
    Unsupported,
}

/// A specialized `Result` type for device operations.
pub type DevResult<T = ()> = Result<T, DevError>;

/// What went wrong inside the socket device, as the transport reports it.
#[derive(Clone, Copy, Debug, PartialEq, Eq, Structural)]
pub enum SocketError {
    /// There is an existing connection.
    ConnectionExists,
    /// Failed to establish the connection.
    ConnectionFailed,
    /// No connection matches the given peer and local port.
    NotConnected,
    /// Peer socket is shutdown.
    PeerSocketShutdown,
    /// No response received.
    NoResponseReceived,
    /// The given buffer is shorter than expected.
    BufferTooShort,
    /// The given output buffer is too short; the payload is the length needed.
    OutputBufferTooShort(usize),
    /// The given buffer is longer than allowed; the payload is the actual
    /// length and the maximum.
    BufferTooLong(usize, usize),
    /// Unknown operation code.
    UnknownOperation(u16),
    /// Invalid operation.
    InvalidOperation,
    /// Invalid number.
    InvalidNumber,
    /// Unexpected data in packet.
    UnexpectedDataInPacket,
    /// Peer has insufficient buffer space, try again later.
    InsufficientBufferSpaceInPeer,
    /// Recycled a wrong buffer.
    RecycledWrongBuffer,
}

/// A failure reported by the transport underneath the driver.
#[derive(Clone, Copy, Debug, PartialEq, Eq, Structural)]
pub enum TransportError {
    /// There are not enough descriptors available in the virtqueue.
    QueueFull,
    /// The device is not ready.
    NotReady,
    /// The device used a different descriptor chain to the one expected.
    WrongToken,
    /// The queue is already in use.
    AlreadyUsed,
    /// Invalid parameter.
    InvalidParam,
    /// Failed to allocate DMA memory.
    DmaError,
    /// I/O error.
    IoError,
    /// The request was not supported by the device.
    Unsupported,
    /// The config space advertised by the device is smaller than expected.
    ConfigSpaceTooSmall,
    /// The device has no config space, but the driver expects some.
    ConfigSpaceMissing,
    /// Error from the socket device.
    SocketDevice(SocketError),
}

/// The driver error that stands for a transport failure.
///
/// Only the top-level kind of the failure decides. The taxonomy has no entry
/// of its own for socket-level failures (a missing connection among them):
/// all of them are a bad state of the device.
pub open spec fn dev_err(e: TransportError) -> DevError {
    match e {
        TransportError::QueueFull => DevError::BadState,
        TransportError::NotReady => DevError::Again,
        TransportError::WrongToken => DevError::BadState,
        TransportError::AlreadyUsed => DevError::AlreadyExists,
        TransportError::InvalidParam => DevError::InvalidParam,
        TransportError::DmaError => DevError::NoMemory,
        TransportError::IoError => DevError::Io,
        TransportError::Unsupported => DevError::Unsupported,
        TransportError::ConfigSpaceTooSmall => DevError::BadState,
        TransportError::ConfigSpaceMissing => DevError::BadState,
        TransportError::SocketDevice(_) => DevError::BadState,
    }
}

/// A transport result with its failure, if any, replaced by the driver error
/// that stands for it.
pub open spec fn dev_result_of<T>(outcome: Result<T, TransportError>) -> Result<T, DevError> {
    match outcome {
        Ok(value) => Ok(value),
        Err(e) => Err(dev_err(e)),
    }
}

/// Converts a transport failure into the driver error taxonomy.
pub fn as_dev_err(e: TransportError) -> (err: DevError)
    ensures
        err == dev_err(e),
{
    match e {
        TransportError::QueueFull => DevError::BadState,
        TransportError::NotReady => DevError::Again,
        TransportError::WrongToken => DevError::BadState,
        TransportError::AlreadyUsed => DevError::AlreadyExists,
        TransportError::InvalidParam => DevError::InvalidParam,
        TransportError::DmaError => DevError::NoMemory,
        TransportError::IoError => DevError::Io,
        TransportError::Unsupported => DevError::Unsupported,
        TransportError::ConfigSpaceTooSmall => DevError::BadState,
        TransportError::ConfigSpaceMissing => DevError::BadState,
        _ => DevError::BadState,
    }
}

/// Passes a transport success on unchanged and converts a transport failure
/// with [`as_dev_err`].
pub fn dev_result<T>(outcome: Result<T, TransportError>) -> (res: DevResult<T>)
    ensures
        res == dev_result_of(outcome),
{
    match outcome {
        Ok(value) => Ok(value),
        Err(e) => Err(as_dev_err(e)),
    }
}

/// The conversion adds no error kind of its own and answers every transport
/// failure: a driver error stands for some transport failure exactly when it
/// is not `ResourceBusy`.
pub proof fn lemma_dev_err_range(err: DevError)
    ensures
        (exists|e: TransportError| dev_err(e) == err) <==> err != DevError::ResourceBusy,
{
    match err {
        DevError::AlreadyExists => {
            assert(dev_err(TransportError::AlreadyUsed) == err);
        },
        DevError::Again => {
            assert(dev_err(TransportError::NotReady) == err);
        },
        DevError::BadState => {
            assert(dev_err(TransportError::QueueFull) == err);
        },
        DevError::InvalidParam => {
            assert(dev_err(TransportError::InvalidParam) == err);
        },
        DevError::Io => {
            assert(dev_err(TransportError::IoError) == err);
        },
        DevError::NoMemory => {
            assert(dev_err(TransportError::DmaError) == err);
        },
        DevError::ResourceBusy => {
            assert forall|e: TransportError| dev_err(e) != err by {}
        },
        DevError::Unsupported => {
            assert(dev_err(TransportError::Unsupported) == err);
        },
    }
}

} // verus!
