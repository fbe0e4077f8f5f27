//! Polling: one event of the transport becomes one event of the driver, in
//! at most two steps.
//!
//! The driver polls the transport and hands what came back to [`poll_step`].
//! That settles the poll, unless the transport announced data: then the
//! driver makes the one read that the step asks for and hands its outcome to
//! [`finish_poll`].

use vstd::prelude::*;

use crate::error::{as_dev_err, dev_err, DevError, DevResult, TransportError};
use crate::event::{
    complete_drain, conversion_of, convert_vsock_event, drain_request_of, drained_of,
    endpoints_of, payload_of, zeroed, Conversion, ConversionView, DrainRequest,
    DrainRequestView, DriverEventView, TransportEvent, TransportEventKind, VsockDriverEvent,
};

verus! {

/// Where a poll stands once the transport has been polled.
#[derive(Debug, PartialEq, Eq)]
pub enum PollStep {
    /// The poll is over, with this result.
    Finished(DevResult<Option<VsockDriverEvent>>),
    /// Data was announced: the read has to be made, and [`finish_poll`]
    /// gives the result.
    Drain(DrainRequest),
}

/// The result of a poll as a mathematical value.
pub type PollResultView = Result<Option<DriverEventView>, DevError>;

/// A poll step as a mathematical value.
pub enum PollStepView {
    /// The poll is over, with this result.
    Finished(PollResultView),
    /// The read has to be made first.
    Drain(DrainRequestView),
}

/// The result of a poll as a mathematical value.
pub open spec fn poll_result_view(res: DevResult<Option<VsockDriverEvent>>) -> PollResultView {
    match res {
        Ok(Some(event)) => Ok(Some(event@)),
        Ok(None) => Ok(None),
        Err(e) => Err(e),
    }
}

impl View for PollStep {
    type V = PollStepView;

    open spec fn view(&self) -> PollStepView {
        match *self {
            PollStep::Finished(res) => PollStepView::Finished(poll_result_view(res)),
            PollStep::Drain(request) => PollStepView::Drain(request@),
        }
    }
}

/// Where a poll stands, given what the transport's poll returned: no event
/// ends it with none, a failure ends it with the driver error that stands
/// for the failure, and an event ends it converted or asks for its read.
pub open spec fn poll_step_of(polled: Result<Option<TransportEvent>, TransportError>) -> PollStepView {
    match polled {
        Ok(None) => PollStepView::Finished(Ok(None)),
        Ok(Some(event)) => match conversion_of(event) {
            ConversionView::Complete(converted) => PollStepView::Finished(Ok(Some(converted))),
            ConversionView::Drain(request) => PollStepView::Drain(request),
        },
        Err(e) => PollStepView::Finished(Err(dev_err(e))),
    }
}

/// The result of a poll that had to read, given the request and what the read
/// returned.
pub open spec fn finish_poll_of(
    request: DrainRequestView,
    read: Result<usize, TransportError>,
) -> PollResultView {
    match drained_of(request, read) {
        Ok(event) => Ok(Some(event)),
        Err(e) => Err(e),
    }
}

/// The result of a whole poll, given what the transport's poll returned and,
/// for a data event, what the read returned and left in the buffer that it
/// was handed. Without a data event no read is made, and `filled` and `read`
/// count for nothing.
pub open spec fn poll_event_of(
    polled: Result<Option<TransportEvent>, TransportError>,
    filled: Seq<u8>,
    read: Result<usize, TransportError>,
) -> PollResultView {
    match poll_step_of(polled) {
        PollStepView::Finished(res) => res,
        PollStepView::Drain(request) => finish_poll_of(
            DrainRequestView { endpoints: request.endpoints, buffer: filled },
            read,
        ),
    }
}

/// Decides how a poll goes on after the transport has been polled.
pub fn poll_step(polled: Result<Option<TransportEvent>, TransportError>) -> (step: PollStep)
    ensures
        step@ == poll_step_of(polled),
{
    match polled {
        Ok(None) => PollStep::Finished(Ok(None)),
        Ok(Some(event)) => match convert_vsock_event(event) {
            Conversion::Complete(converted) => PollStep::Finished(Ok(Some(converted))),
            Conversion::Drain(request) => PollStep::Drain(request),
        },
        Err(e) => PollStep::Finished(Err(as_dev_err(e))),
    }
}

/// Ends a poll that had to read. `request` is the request of the step, its
/// buffer now holding what the read wrote, and `read` is what the read
/// returned. A failed read fails the poll.
pub fn finish_poll(request: DrainRequest, read: Result<usize, TransportError>) -> (res:
    DevResult<Option<VsockDriverEvent>>)
    ensures
        poll_result_view(res) == finish_poll_of(request@, read),
{
    match complete_drain(request, read) {
        Ok(event) => Ok(Some(event)),
        Err(e) => Err(e),
    }
}

/// A poll that finds no event pending returns none, not an error.
pub proof fn lemma_poll_without_event(filled: Seq<u8>, read: Result<usize, TransportError>)
    ensures
        poll_event_of(Ok(None), filled, read) == Ok::<Option<DriverEventView>, DevError>(None),
{
}

/// A failure of the transport's poll is the poll's failure, converted.
pub proof fn lemma_poll_failure(
    e: TransportError,
    filled: Seq<u8>,
    read: Result<usize, TransportError>,
)
    ensures
        poll_event_of(Err(e), filled, read) == Err::<Option<DriverEventView>, DevError>(
            dev_err(e),
        ),
{
}

/// Requests, handshakes and disconnections map one to one, whatever the
/// reason of a disconnection: the local port is the destination's port, the
/// peer is the source.
pub proof fn lemma_poll_connection_events(
    event: TransportEvent,
    filled: Seq<u8>,
    read: Result<usize, TransportError>,
)
    ensures
        event.kind is ConnectionRequest ==> poll_event_of(Ok(Some(event)), filled, read) == Ok::<
            Option<DriverEventView>,
            DevError,
        >(Some(DriverEventView::ConnectionRequest(endpoints_of(event)))),
        event.kind is Connected ==> poll_event_of(Ok(Some(event)), filled, read) == Ok::<
            Option<DriverEventView>,
            DevError,
        >(Some(DriverEventView::Connected(endpoints_of(event)))),
        event.kind is Disconnected ==> poll_event_of(Ok(Some(event)), filled, read) == Ok::<
            Option<DriverEventView>,
            DevError,
        >(Some(DriverEventView::Disconnect(endpoints_of(event)))),
{
}

/// A data event of length `length` asks for one read into a zeroed buffer of
/// exactly that length. When the read returns `count`, the poll gives a data
/// event whose payload is no longer than `length` and is the first `count`
/// bytes of what the read left in the buffer: as many bytes as the read
/// produced.
pub proof fn lemma_poll_data_payload(
    event: TransportEvent,
    length: usize,
    filled: Seq<u8>,
    count: usize,
)
    requires
        event.kind == (TransportEventKind::Received { length }),
        filled.len() == length,
    ensures
        poll_step_of(Ok(Some(event))) == PollStepView::Drain(drain_request_of(event, length)),
        drain_request_of(event, length).endpoints == endpoints_of(event),
        drain_request_of(event, length).buffer == zeroed(length),
        zeroed(length).len() == length,
        poll_event_of(Ok(Some(event)), filled, Ok(count)) == Ok::<
            Option<DriverEventView>,
            DevError,
        >(Some(DriverEventView::DataReceived(endpoints_of(event), payload_of(filled, count)))),
        payload_of(filled, count).len() <= length,
        count <= length ==> payload_of(filled, count) == filled.take(count as int)
            && payload_of(filled, count).len() == count,
{
}

/// A read that fails makes the whole poll fail with the read's failure,
/// converted: the data event is neither handed on empty nor dropped.
pub proof fn lemma_poll_failed_read(
    event: TransportEvent,
    filled: Seq<u8>,
    e: TransportError,
)
    requires
        event.kind is Received,
    ensures
        poll_event_of(Ok(Some(event)), filled, Err(e)) == Err::<
            Option<DriverEventView>,
            DevError,
        >(dev_err(e)),
{
}

/// Every category of event but requests, handshakes, disconnections and data
/// gives exactly the unknown event.
pub proof fn lemma_poll_unknown_event(
    event: TransportEvent,
    filled: Seq<u8>,
    read: Result<usize, TransportError>,
)
    requires
        !(event.kind is ConnectionRequest),
        !(event.kind is Connected),
        !(event.kind is Disconnected),
        !(event.kind is Received),
    ensures
        poll_event_of(Ok(Some(event)), filled, read) == Ok::<Option<DriverEventView>, DevError>(
            Some(DriverEventView::Unknown),
        ),
{
}

} // verus!
