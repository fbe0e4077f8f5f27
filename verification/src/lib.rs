//! Vsock device driver interface, and the decisions of a driver that sits on a
//! VirtIO socket transport.
//!
//! [`VsockDriverOps`] is what every vsock driver offers. The rest of the crate
//! is what a driver over a connection-oriented transport decides, kept apart
//! from the transport itself: which address a peer has ([`peer_address`]),
//! which driver error stands for a failure of the transport
//! ([`as_dev_err`]), what a send reports ([`send_result`]), and how an event
//! of the transport becomes an event of the driver ([`poll_step`],
//! [`finish_poll`]). Each takes what the transport returned as a plain value
//! and is verified for every such value; the driver makes the calls.

pub mod addr;
pub mod error;
pub mod event;
pub mod ops;
pub mod poll;

pub use addr::{narrow_cid, peer_address, Address};
pub use error::{as_dev_err, dev_result, DevError, DevResult, SocketError, TransportError};
pub use event::{
    complete_drain, convert_vsock_event, Conversion, DisconnectReason, DrainRequest,
    TransportEvent, TransportEventKind, VsockDriverEvent,
};
pub use ops::{send_result, BaseDriverOps, DeviceType, VsockDriverOps, VIRTIO_VSOCK_NAME};
pub use poll::{finish_poll, poll_step, PollStep};
