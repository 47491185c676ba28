use quiche4j_jni::codes::{error_to_c, h3_error_code, packet_type_code};

fn all_transport_errors() -> Vec<quiche::Error> {
    vec![
        quiche::Error::Done,
        quiche::Error::BufferTooShort,
        quiche::Error::UnknownVersion,
        quiche::Error::InvalidFrame,
        quiche::Error::InvalidPacket,
        quiche::Error::InvalidState,
        quiche::Error::InvalidStreamState(4),
        quiche::Error::InvalidTransportParam,
        quiche::Error::CryptoFail,
        quiche::Error::TlsFail,
        quiche::Error::FlowControl,
        quiche::Error::StreamLimit,
        quiche::Error::FinalSize,
        quiche::Error::CongestionControl,
        quiche::Error::StreamStopped(7),
        quiche::Error::StreamReset(9),
        quiche::Error::IdLimit,
        quiche::Error::OutOfIdentifiers,
        quiche::Error::KeyUpdate,
        quiche::Error::CryptoBufferExceeded,
        quiche::Error::InvalidAckRange,
        quiche::Error::OptimisticAckDetected,
        quiche::Error::InvalidDcidInitialization,
    ]
}

fn all_http3_errors() -> Vec<quiche::h3::Error> {
    vec![
        quiche::h3::Error::Done,
        quiche::h3::Error::BufferTooShort,
        quiche::h3::Error::InternalError,
        quiche::h3::Error::ExcessiveLoad,
        quiche::h3::Error::IdError,
        quiche::h3::Error::StreamCreationError,
        quiche::h3::Error::ClosedCriticalStream,
        quiche::h3::Error::MissingSettings,
        quiche::h3::Error::FrameUnexpected,
        quiche::h3::Error::FrameError,
        quiche::h3::Error::QpackDecompressionFailed,
        quiche::h3::Error::TransportError(quiche::Error::FlowControl),
        quiche::h3::Error::StreamBlocked,
        quiche::h3::Error::SettingsError,
        quiche::h3::Error::RequestRejected,
        quiche::h3::Error::RequestCancelled,
        quiche::h3::Error::RequestIncomplete,
        quiche::h3::Error::MessageError,
        quiche::h3::Error::ConnectError,
        quiche::h3::Error::VersionFallback,
    ]
}

#[test]
fn transport_errors_get_codes_minus_one_to_minus_twenty_three_in_order() {
    let codes: Vec<i32> = all_transport_errors().into_iter().map(error_to_c).collect();
    let expected: Vec<i32> = (1..=23).map(|k| -k).collect();
    assert_eq!(codes, expected);
}

#[test]
fn transport_error_payload_does_not_change_the_code() {
    assert_eq!(error_to_c(quiche::Error::InvalidStreamState(0)), -7);
    assert_eq!(error_to_c(quiche::Error::InvalidStreamState(u64::MAX)), -7);
    assert_eq!(error_to_c(quiche::Error::StreamStopped(1)), -15);
    assert_eq!(error_to_c(quiche::Error::StreamStopped(2)), -15);
    assert_eq!(error_to_c(quiche::Error::StreamReset(0)), -16);
    assert_eq!(error_to_c(quiche::Error::StreamReset(100)), -16);
}

#[test]
fn http3_errors_get_codes_minus_one_to_minus_twenty_in_order() {
    let codes: Vec<i32> = all_http3_errors().into_iter().map(h3_error_code).collect();
    let expected: Vec<i32> = (1..=20).map(|k| -k).collect();
    assert_eq!(codes, expected);
}

#[test]
fn http3_transport_error_code_ignores_the_inner_error() {
    assert_eq!(h3_error_code(quiche::h3::Error::TransportError(quiche::Error::Done)), -12);
    assert_eq!(h3_error_code(quiche::h3::Error::TransportError(quiche::Error::TlsFail)), -12);
}

#[test]
fn packet_types_are_numbered_one_to_six() {
    assert_eq!(packet_type_code(quiche::Type::Initial), 1);
    assert_eq!(packet_type_code(quiche::Type::Retry), 2);
    assert_eq!(packet_type_code(quiche::Type::Handshake), 3);
    assert_eq!(packet_type_code(quiche::Type::ZeroRTT), 4);
    assert_eq!(packet_type_code(quiche::Type::Short), 5);
    assert_eq!(packet_type_code(quiche::Type::VersionNegotiation), 6);
}
