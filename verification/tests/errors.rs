use axdriver_vsock::{as_dev_err, dev_result, DevError, SocketError, TransportError};

fn socket_errors() -> Vec<SocketError> {
    vec![
        SocketError::ConnectionExists,
        SocketError::ConnectionFailed,
        SocketError::NotConnected,
        SocketError::PeerSocketShutdown,
        SocketError::NoResponseReceived,
        SocketError::BufferTooShort,
        SocketError::OutputBufferTooShort(16),
        SocketError::BufferTooLong(2048, 1024),
        SocketError::UnknownOperation(9),
        SocketError::InvalidOperation,
        SocketError::InvalidNumber,
        SocketError::UnexpectedDataInPacket,
        SocketError::InsufficientBufferSpaceInPeer,
        SocketError::RecycledWrongBuffer,
    ]
}

fn transport_errors() -> Vec<TransportError> {
    let mut all = vec![
        TransportError::QueueFull,
        TransportError::NotReady,
        TransportError::WrongToken,
        TransportError::AlreadyUsed,
        TransportError::InvalidParam,
        TransportError::DmaError,
        TransportError::IoError,
        TransportError::Unsupported,
        TransportError::ConfigSpaceTooSmall,
        TransportError::ConfigSpaceMissing,
    ];
    for e in socket_errors() {
        all.push(TransportError::SocketDevice(e));
    }
    all
}

#[test]
fn queue_full_is_bad_state() {
    assert_eq!(as_dev_err(TransportError::QueueFull), DevError::BadState);
}

#[test]
fn not_ready_is_again() {
    assert_eq!(as_dev_err(TransportError::NotReady), DevError::Again);
}

#[test]
fn wrong_token_is_bad_state() {
    assert_eq!(as_dev_err(TransportError::WrongToken), DevError::BadState);
}

#[test]
fn already_used_is_already_exists() {
    assert_eq!(as_dev_err(TransportError::AlreadyUsed), DevError::AlreadyExists);
}

#[test]
fn invalid_param_is_invalid_param() {
    assert_eq!(as_dev_err(TransportError::InvalidParam), DevError::InvalidParam);
}

#[test]
fn dma_error_is_no_memory() {
    assert_eq!(as_dev_err(TransportError::DmaError), DevError::NoMemory);
}

#[test]
fn io_error_is_io() {
    assert_eq!(as_dev_err(TransportError::IoError), DevError::Io);
}

#[test]
fn unsupported_is_unsupported() {
    assert_eq!(as_dev_err(TransportError::Unsupported), DevError::Unsupported);
}

#[test]
fn config_space_errors_are_bad_state() {
    assert_eq!(as_dev_err(TransportError::ConfigSpaceTooSmall), DevError::BadState);
    assert_eq!(as_dev_err(TransportError::ConfigSpaceMissing), DevError::BadState);
}

#[test]
fn every_socket_error_is_bad_state() {
    for e in socket_errors() {
        assert_eq!(as_dev_err(TransportError::SocketDevice(e)), DevError::BadState);
    }
}

#[test]
fn missing_connection_is_bad_state() {
    let e = TransportError::SocketDevice(SocketError::NotConnected);
    assert_eq!(as_dev_err(e), DevError::BadState);
}

#[test]
fn no_transport_error_becomes_resource_busy() {
    for e in transport_errors() {
        assert_ne!(as_dev_err(e), DevError::ResourceBusy);
    }
}

#[test]
fn every_other_driver_error_stands_for_a_transport_error() {
    let reached: Vec<DevError> = transport_errors().into_iter().map(as_dev_err).collect();
    let expected = [
        DevError::AlreadyExists,
        DevError::Again,
        DevError::BadState,
        DevError::InvalidParam,
        DevError::Io,
        DevError::NoMemory,
        DevError::Unsupported,
    ];
    for e in expected {
        assert!(reached.contains(&e));
    }
}

#[test]
fn conversion_is_repeatable() {
    for e in transport_errors() {
        assert_eq!(as_dev_err(e), as_dev_err(e));
    }
}

#[test]
fn dev_result_keeps_success() {
    assert_eq!(dev_result(Ok::<usize, TransportError>(7)), Ok(7));
    assert_eq!(dev_result(Ok::<(), TransportError>(())), Ok(()));
}

#[test]
fn dev_result_converts_failure() {
    assert_eq!(
        dev_result(Err::<usize, TransportError>(TransportError::SocketDevice(
            SocketError::NotConnected
        ))),
        Err(DevError::BadState)
    );
    assert_eq!(dev_result(Err::<(), TransportError>(TransportError::NotReady)), Err(DevError::Again));
    assert_eq!(dev_result(Err::<(), TransportError>(TransportError::DmaError)), Err(DevError::NoMemory));
}

#[test]
fn dev_result_agrees_with_conversion() {
    for e in transport_errors() {
        assert_eq!(dev_result(Err::<u32, TransportError>(e)), Err(as_dev_err(e)));
    }
}
