use axdriver_vsock::{
    complete_drain, convert_vsock_event, Address, Conversion, DevError, DisconnectReason,
    DrainRequest, SocketError, TransportError, TransportEvent, TransportEventKind,
    VsockDriverEvent,
};

fn event(kind: TransportEventKind) -> TransportEvent {
    TransportEvent {
        source: Address { cid: 2, port: 1234 },
        destination: Address { cid: 3, port: 80 },
        kind,
    }
}

fn request(buffer: Vec<u8>) -> DrainRequest {
    DrainRequest { local_port: 80, peer_cid: 2, peer_port: 1234, buffer }
}

#[test]
fn connection_request_maps_one_to_one() {
    assert_eq!(
        convert_vsock_event(event(TransportEventKind::ConnectionRequest)),
        Conversion::Complete(VsockDriverEvent::ConnectionRequest(80, 2, 1234))
    );
}

#[test]
fn connected_maps_one_to_one() {
    assert_eq!(
        convert_vsock_event(event(TransportEventKind::Connected)),
        Conversion::Complete(VsockDriverEvent::Connected(80, 2, 1234))
    );
}

#[test]
fn disconnected_drops_the_reason() {
    let reset = TransportEventKind::Disconnected { reason: DisconnectReason::Reset };
    let shutdown = TransportEventKind::Disconnected { reason: DisconnectReason::Shutdown };
    assert_eq!(
        convert_vsock_event(event(reset)),
        Conversion::Complete(VsockDriverEvent::Disconnect(80, 2, 1234))
    );
    assert_eq!(
        convert_vsock_event(event(shutdown)),
        Conversion::Complete(VsockDriverEvent::Disconnect(80, 2, 1234))
    );
}

#[test]
fn credit_events_are_unknown() {
    assert_eq!(
        convert_vsock_event(event(TransportEventKind::CreditRequest)),
        Conversion::Complete(VsockDriverEvent::Unknown)
    );
    assert_eq!(
        convert_vsock_event(event(TransportEventKind::CreditUpdate)),
        Conversion::Complete(VsockDriverEvent::Unknown)
    );
}

#[test]
fn local_port_is_the_destination_and_peer_is_the_source() {
    let swapped = TransportEvent {
        source: Address { cid: 7, port: 1 },
        destination: Address { cid: 9, port: 2 },
        kind: TransportEventKind::Connected,
    };
    assert_eq!(
        convert_vsock_event(swapped),
        Conversion::Complete(VsockDriverEvent::Connected(2, 7, 1))
    );
}

#[test]
fn peer_identifier_is_narrowed() {
    let wide = TransportEvent {
        source: Address { cid: 0x5_0000_0002, port: 1234 },
        destination: Address { cid: 3, port: 80 },
        kind: TransportEventKind::ConnectionRequest,
    };
    assert_eq!(
        convert_vsock_event(wide),
        Conversion::Complete(VsockDriverEvent::ConnectionRequest(80, 2, 1234))
    );
}

#[test]
fn data_event_asks_for_a_zeroed_buffer_of_its_length() {
    match convert_vsock_event(event(TransportEventKind::Received { length: 10 })) {
        Conversion::Drain(request) => {
            assert_eq!(request.local_port, 80);
            assert_eq!(request.peer_cid, 2);
            assert_eq!(request.peer_port, 1234);
            assert_eq!(request.buffer, vec![0u8; 10]);
            assert_eq!(request.peer(), Address { cid: 2, port: 1234 });
        }
        other => panic!("unexpected conversion: {:?}", other),
    }
}

#[test]
fn empty_data_event_asks_for_an_empty_buffer() {
    match convert_vsock_event(event(TransportEventKind::Received { length: 0 })) {
        Conversion::Drain(request) => assert!(request.buffer.is_empty()),
        other => panic!("unexpected conversion: {:?}", other),
    }
}

#[test]
fn drain_reads_from_the_narrowed_peer() {
    let wide = TransportEvent {
        source: Address { cid: 0x5_0000_0002, port: 1234 },
        destination: Address { cid: 3, port: 80 },
        kind: TransportEventKind::Received { length: 4 },
    };
    match convert_vsock_event(wide) {
        Conversion::Drain(request) => {
            assert_eq!(request.peer(), Address { cid: 2, port: 1234 });
        }
        other => panic!("unexpected conversion: {:?}", other),
    }
}

#[test]
fn short_read_cuts_the_payload() {
    let buffer = vec![1, 2, 3, 4, 5, 6, 0, 0, 0, 0];
    assert_eq!(
        complete_drain(request(buffer), Ok(6)),
        Ok(VsockDriverEvent::DataReceived(80, 2, 1234, vec![1, 2, 3, 4, 5, 6]))
    );
}

#[test]
fn full_read_keeps_the_whole_buffer() {
    assert_eq!(
        complete_drain(request(vec![9, 8, 7]), Ok(3)),
        Ok(VsockDriverEvent::DataReceived(80, 2, 1234, vec![9, 8, 7]))
    );
}

#[test]
fn empty_read_gives_an_empty_payload() {
    assert_eq!(
        complete_drain(request(vec![0; 10]), Ok(0)),
        Ok(VsockDriverEvent::DataReceived(80, 2, 1234, Vec::new()))
    );
}

#[test]
fn payload_is_never_longer_than_the_buffer() {
    assert_eq!(
        complete_drain(request(vec![1, 2, 3]), Ok(12)),
        Ok(VsockDriverEvent::DataReceived(80, 2, 1234, vec![1, 2, 3]))
    );
}

#[test]
fn failed_read_fails_the_conversion() {
    let missing = TransportError::SocketDevice(SocketError::NotConnected);
    assert_eq!(complete_drain(request(vec![0; 10]), Err(missing)), Err(DevError::BadState));
    assert_eq!(
        complete_drain(request(vec![0; 10]), Err(TransportError::IoError)),
        Err(DevError::Io)
    );
    assert_eq!(
        complete_drain(request(vec![0; 10]), Err(TransportError::NotReady)),
        Err(DevError::Again)
    );
}
