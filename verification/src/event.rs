//! Transport events, driver events, and the conversion of the first into the
//! second.

use vstd::prelude::*;

use crate::addr::{narrow_cid, narrow_cid_of, peer_address, peer_address_of, Address};
use crate::error::{as_dev_err, dev_err, DevResult, TransportError};

verus! {

/// The reason why a vsock connection was closed.
#[derive(Clone, Copy, Debug, PartialEq, Eq, Structural)]
pub enum DisconnectReason {
    /// The peer closed the connection, in response to a shutdown request or
    /// of its own accord.
    Reset,
    /// The peer asked to shut down the connection.
    Shutdown,
}

/// The category of an event that the transport reports.
#[derive(Clone, Copy, Debug, PartialEq, Eq, Structural)]
pub enum TransportEventKind {
    /// The peer requests to establish a connection with us.
    ConnectionRequest,
    /// The connection was successfully established.
    Connected,
    /// The connection was closed.
    Disconnected {
        /// The reason for the disconnection.
        reason: DisconnectReason,
    },
    /// Data was received on the connection.
    Received {
        /// The length of the data in bytes.
        length: usize,
    },
    /// The peer requests a credit update.
    CreditRequest,
    /// The peer sent a credit update with nothing else.
    CreditUpdate,
}

/// An event that the transport reports.
#[derive(Clone, Copy, Debug, PartialEq, Eq, Structural)]
pub struct TransportEvent {
    /// The source of the event, i.e. the peer who sent it.
    pub source: Address,
    /// The destination of the event, i.e. the context identifier and port on
    /// our side.
    pub destination: Address,
    /// The category of the event.
    pub kind: TransportEventKind,
}

/// An event that a vsock driver reports to its caller. It is the caller's
/// from then on: the driver keeps nothing of it.
#[derive(Clone, Debug, PartialEq, Eq)]
pub enum VsockDriverEvent {
    /// ConnectionRequest with local_port, peer_cid, peer_port
    ConnectionRequest(u32, u32, u32),
    /// Connected with local_port, peer_cid, peer_port
    Connected(u32, u32, u32),
    /// Data received, with local_port, peer_cid, peer_port and the bytes read
    DataReceived(u32, u32, u32, Vec<u8>),
    /// Disconnect with local_port, peer_cid, peer_port
    Disconnect(u32, u32, u32),
    /// An event of a category that the driver interface does not know
    Unknown,
}

/// The connection that an event belongs to, as the driver interface names it.
#[derive(Clone, Copy, Debug, PartialEq, Eq, Structural)]
pub struct Endpoints {
    /// The port on our side.
    pub local_port: u32,
    /// The context identifier of the peer.
    pub peer_cid: u32,
    /// The port on the peer's side.
    pub peer_port: u32,
}

/// A driver event as a mathematical value.
pub enum DriverEventView {
    /// The peer wants to open a connection.
    ConnectionRequest(Endpoints),
    /// The handshake is complete.
    Connected(Endpoints),
    /// Data arrived; the payload is the bytes read.
    DataReceived(Endpoints, Seq<u8>),
    /// The peer closed the connection, or it was reset.
    Disconnect(Endpoints),
    /// An event of a category that the driver interface does not know.
    Unknown,
}

impl View for VsockDriverEvent {
    type V = DriverEventView;

    open spec fn view(&self) -> DriverEventView {
        match *self {
            VsockDriverEvent::ConnectionRequest(local_port, peer_cid, peer_port) => {
                DriverEventView::ConnectionRequest(Endpoints { local_port, peer_cid, peer_port })
            },
            VsockDriverEvent::Connected(local_port, peer_cid, peer_port) => {
                DriverEventView::Connected(Endpoints { local_port, peer_cid, peer_port })
            },
            VsockDriverEvent::DataReceived(local_port, peer_cid, peer_port, data) => {
                DriverEventView::DataReceived(Endpoints { local_port, peer_cid, peer_port }, data@)
            },
            VsockDriverEvent::Disconnect(local_port, peer_cid, peer_port) => {
                DriverEventView::Disconnect(Endpoints { local_port, peer_cid, peer_port })
            },
            VsockDriverEvent::Unknown => DriverEventView::Unknown,
        }
    }
}

/// The one read that a data event asks for: up to `buffer.len()` bytes of the
/// connection to `peer_cid` and `peer_port` on `local_port`, into `buffer`.
#[derive(Debug, PartialEq, Eq)]
pub struct DrainRequest {
    /// The port on our side.
    pub local_port: u32,
    /// The context identifier of the peer.
    pub peer_cid: u32,
    /// The port on the peer's side.
    pub peer_port: u32,
    /// The bytes to read into.
    pub buffer: Vec<u8>,
}

/// A drain request as a mathematical value.
pub struct DrainRequestView {
    /// The connection to read from.
    pub endpoints: Endpoints,
    /// The bytes to read into.
    pub buffer: Seq<u8>,
}

impl View for DrainRequest {
    type V = DrainRequestView;

    open spec fn view(&self) -> DrainRequestView {
        DrainRequestView {
            endpoints: Endpoints {
                local_port: self.local_port,
                peer_cid: self.peer_cid,
                peer_port: self.peer_port,
            },
            buffer: self.buffer@,
        }
    }
}

/// How far the conversion of one transport event has come.
#[derive(Debug, PartialEq, Eq)]
pub enum Conversion {
    /// The driver event is made.
    Complete(VsockDriverEvent),
    /// The event announces data: the read has to be made before the event can
    /// be handed on.
    Drain(DrainRequest),
}

/// A conversion as a mathematical value.
pub enum ConversionView {
    /// The driver event is made.
    Complete(DriverEventView),
    /// The read has to be made first.
    Drain(DrainRequestView),
}

impl View for Conversion {
    type V = ConversionView;

    open spec fn view(&self) -> ConversionView {
        match *self {
            Conversion::Complete(event) => ConversionView::Complete(event@),
            Conversion::Drain(request) => ConversionView::Drain(request@),
        }
    }
}

/// The connection of a transport event: the local port is the port of its
/// destination, the peer is its source, with the context identifier narrowed.
pub open spec fn endpoints_of(event: TransportEvent) -> Endpoints {
    Endpoints {
        local_port: event.destination.port,
        peer_cid: narrow_cid_of(event.source.cid),
        peer_port: event.source.port,
    }
}

/// A buffer of `length` zero bytes.
pub open spec fn zeroed(length: usize) -> Seq<u8> {
    Seq::new(length as nat, |i: int| 0u8)
}

/// The read that a data event of `length` bytes asks for: from the event's
/// connection, into a zeroed buffer of exactly that length.
pub open spec fn drain_request_of(event: TransportEvent, length: usize) -> DrainRequestView {
    DrainRequestView { endpoints: endpoints_of(event), buffer: zeroed(length) }
}

/// The conversion of a transport event, as far as it goes without the
/// transport: requests, handshakes and disconnections map one to one, the
/// reason of a disconnection is dropped, data asks for one read into a zeroed
/// buffer of the announced length, and every other category is unknown.
pub open spec fn conversion_of(event: TransportEvent) -> ConversionView {
    match event.kind {
        TransportEventKind::ConnectionRequest => ConversionView::Complete(
            DriverEventView::ConnectionRequest(endpoints_of(event)),
        ),
        TransportEventKind::Connected => ConversionView::Complete(
            DriverEventView::Connected(endpoints_of(event)),
        ),
        TransportEventKind::Disconnected { reason } => ConversionView::Complete(
            DriverEventView::Disconnect(endpoints_of(event)),
        ),
        TransportEventKind::Received { length } => ConversionView::Drain(
            drain_request_of(event, length),
        ),
        TransportEventKind::CreditRequest => ConversionView::Complete(DriverEventView::Unknown),
        TransportEventKind::CreditUpdate => ConversionView::Complete(DriverEventView::Unknown),
    }
}

/// The first `read` bytes of `buffer`, or all of it where `read` is larger.
pub open spec fn payload_of(buffer: Seq<u8>, read: usize) -> Seq<u8> {
    if read <= buffer.len() {
        buffer.take(read as int)
    } else {
        buffer
    }
}

/// The result of a conversion as a mathematical value.
pub open spec fn event_result_view(res: DevResult<VsockDriverEvent>) -> DevResult<DriverEventView> {
    match res {
        Ok(event) => Ok(event@),
        Err(e) => Err(e),
    }
}

/// The outcome of a data event once its read is made: the bytes read as the
/// payload, or the read's failure as a driver error.
pub open spec fn drained_of(
    request: DrainRequestView,
    read: Result<usize, TransportError>,
) -> DevResult<DriverEventView> {
    match read {
        Ok(count) => Ok(
            DriverEventView::DataReceived(request.endpoints, payload_of(request.buffer, count)),
        ),
        Err(e) => Err(dev_err(e)),
    }
}

impl DrainRequest {
    /// The transport address of the peer to read from.
    pub fn peer(&self) -> (addr: Address)
        ensures
            addr == peer_address_of(self.peer_cid, self.peer_port),
    {
        peer_address(self.peer_cid, self.peer_port)
    }
}

/// Converts a transport event as far as that goes without the transport.
///
/// Every category but data gives the driver event at once. A data event
/// gives the request for the read that has to be made; [`complete_drain`]
/// turns the request and the outcome of that read into the driver event.
pub fn convert_vsock_event(event: TransportEvent) -> (conversion: Conversion)
    ensures
        conversion@ == conversion_of(event),
{
    let local_port = event.destination.port;
    let peer_cid = narrow_cid(event.source.cid);
    let peer_port = event.source.port;

    match event.kind {
        TransportEventKind::ConnectionRequest => Conversion::Complete(
            VsockDriverEvent::ConnectionRequest(local_port, peer_cid, peer_port),
        ),
        TransportEventKind::Connected => Conversion::Complete(
            VsockDriverEvent::Connected(local_port, peer_cid, peer_port),
        ),
        TransportEventKind::Received { length } => {
            let buffer = vec![0u8; length];
            assert(buffer@ =~= zeroed(length));
            Conversion::Drain(DrainRequest { local_port, peer_cid, peer_port, buffer })
        },
        TransportEventKind::Disconnected { reason: _ } => Conversion::Complete(
            VsockDriverEvent::Disconnect(local_port, peer_cid, peer_port),
        ),
        _ => Conversion::Complete(VsockDriverEvent::Unknown),
    }
}

/// Finishes the conversion of a data event. `request` is the request that
/// [`convert_vsock_event`] gave, its buffer now holding what the read wrote,
/// and `read` is what the read returned.
///
/// On a successful read the buffer is cut to the bytes read and becomes the
/// payload. A failed read fails the conversion: no event is made up.
pub fn complete_drain(request: DrainRequest, read: Result<usize, TransportError>) -> (res:
    DevResult<VsockDriverEvent>)
    ensures
        event_result_view(res) == drained_of(request@, read),
{
    match read {
        Ok(count) => {
            let mut data = request.buffer;
            data.truncate(count);
            assert(data@ =~= payload_of(request.buffer@, count));
            Ok(
                VsockDriverEvent::DataReceived(
                    request.local_port,
                    request.peer_cid,
                    request.peer_port,
                    data,
                ),
            )
        },
        Err(e) => Err(as_dev_err(e)),
    }
}

} // verus!
