//! The operations that a vsock device driver offers.

use vstd::prelude::*;

use crate::error::{as_dev_err, dev_err, dev_result_of, DevResult, TransportError};
use crate::event::VsockDriverEvent;

verus! {

/// All supported device types.
#[derive(Clone, Copy, Debug, PartialEq, Eq, Structural)]
pub enum DeviceType {
    /// Block storage device (e.g., disk).
    Block,
    /// Character device (e.g., serial port).
    Char,
    /// Network device (e.g., ethernet card).
    Net,
    /// Graphic display device (e.g., GPU)
    Display,
    /// Socket device between a guest and its host.
    Vsock,
}

/// The name under which the driver of a VirtIO socket device presents itself.
pub const VIRTIO_VSOCK_NAME: &'static str = "virtio-vsocket";

/// Common operations that require all device drivers to implement.
pub trait BaseDriverOps: Send + Sync {
    /// The name of the device.
    fn device_name(&self) -> &str;

    /// The type of the device.
    fn device_type(&self) -> DeviceType;
}

/// Operations that require a vsock device driver to implement.
///
/// A connection is named by the context identifier and port of the peer and
/// by the local port. Every operation that changes the device takes the
/// driver by exclusive reference, returns when the one transport operation
/// behind it has succeeded or failed, and retries nothing: an error is final
/// for that call.
pub trait VsockDriverOps: BaseDriverOps {
    /// The context identifier of this endpoint.
    fn guest_cid(&self) -> u32;

    /// Listen on a specific port: connection requests to it are accepted
    /// from now on.
    fn listen(&mut self, src_port: u32);

    /// Connect to a peer socket.
    ///
    /// A success says that the request is on its way; the connection
    /// stands once `poll_event` reports it as connected.
    fn connect(&mut self, peer_cid: u32, peer_port: u32, src_port: u32) -> DevResult<()>;

    /// Send data to the connected peer socket.
    ///
    /// Either all of `buf` is accepted or the call fails: a success reports
    /// the length of `buf`, never less.
    fn send(&mut self, peer_cid: u32, peer_port: u32, src_port: u32, buf: &[u8]) -> (res:
        DevResult<usize>)
        ensures
            res matches Ok(count) ==> count == buf@.len(),
    ;

    /// Receive data from the connected peer socket.
    ///
    /// A success reports how many bytes were written to the front of `buf`:
    /// no more than its length. The bytes behind them are as they were.
    fn recv(&mut self, peer_cid: u32, peer_port: u32, src_port: u32, buf: &mut [u8]) -> (res:
        DevResult<usize>)
        ensures
            final(buf)@.len() == old(buf)@.len(),
            res matches Ok(count) ==> count <= old(buf)@.len() && final(buf)@.skip(count as int)
                == old(buf)@.skip(count as int),
    ;

    /// Returns the number of bytes in the receive buffer available to be read by recv.
    fn recv_avail(&mut self, peer_cid: u32, peer_port: u32, src_port: u32) -> DevResult<usize>;

    /// Disconnect from the connected peer socket.
    ///
    /// Requests to shut down the connection cleanly, telling the peer that we won't send or receive
    /// any more data.
    fn disconnect(&mut self, peer_cid: u32, peer_port: u32, src_port: u32) -> DevResult<()>;

    /// Forcibly closes the connection without waiting for the peer.
    fn abort(&mut self, peer_cid: u32, peer_port: u32, src_port: u32) -> DevResult<()>;

    /// Poll the driver for its next pending event; `None` if none is queued.
    ///
    /// A data event carries its payload: no receive has to follow it.
    fn poll_event(&mut self) -> DevResult<Option<VsockDriverEvent>>;
}

/// What a send reports, given what the transport made of it: the whole length
/// where the transport accepted the buffer, else the transport's failure as a
/// driver error.
pub open spec fn send_result_of(outcome: Result<(), TransportError>, len: usize) -> DevResult<usize> {
    match outcome {
        Ok(()) => Ok(len),
        Err(e) => Err(dev_err(e)),
    }
}

/// Turns the transport's answer to a send of `len` bytes into the driver's.
/// The transport queues all of a buffer or none, so a success counts every
/// byte.
pub fn send_result(outcome: Result<(), TransportError>, len: usize) -> (res: DevResult<usize>)
    ensures
        res == send_result_of(outcome, len),
        res matches Ok(count) ==> count == len,
{
    match outcome {
        Ok(()) => Ok(len),
        Err(e) => Err(as_dev_err(e)),
    }
}

/// A receive reports the count that the transport's read reported, and fails
/// exactly when the read failed. So whenever the read kept to a buffer of
/// `len` bytes, the count that the driver reports is no more than `len`.
pub proof fn lemma_recv_count_within_buffer(outcome: Result<usize, TransportError>, len: usize)
    requires
        outcome matches Ok(count) ==> count <= len,
    ensures
        dev_result_of(outcome) is Ok <==> outcome is Ok,
        dev_result_of(outcome) matches Ok(count) ==> outcome == Ok::<usize, TransportError>(count)
            && count <= len,
{
}

} // verus!
