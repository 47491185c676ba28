//! The numbers by which errors and packet types are reported to Java.

use vstd::prelude::*;

verus! {

#[verifier::external_type_specification]
pub struct ExTransportError(quiche::Error);

#[verifier::external_type_specification]
pub struct ExHttp3Error(quiche::h3::Error);

#[verifier::external_type_specification]
pub struct ExPacketType(quiche::Type);

/// The code reported for a transport error: one negative number per kind of
/// error, from -1 for `Done` down to -23.
pub open spec fn transport_code(e: quiche::Error) -> int {
    match e {
        quiche::Error::Done => -1,
        quiche::Error::BufferTooShort => -2,
        quiche::Error::UnknownVersion => -3,
        quiche::Error::InvalidFrame => -4,
        quiche::Error::InvalidPacket => -5,
        quiche::Error::InvalidState => -6,
        quiche::Error::InvalidStreamState(_) => -7,
        quiche::Error::InvalidTransportParam => -8,
        quiche::Error::CryptoFail => -9,
        quiche::Error::TlsFail => -10,
        quiche::Error::FlowControl => -11,
        quiche::Error::StreamLimit => -12,
        quiche::Error::FinalSize => -13,
        quiche::Error::CongestionControl => -14,
        quiche::Error::StreamStopped(_) => -15,
        quiche::Error::StreamReset(_) => -16,
        quiche::Error::IdLimit => -17,
        quiche::Error::OutOfIdentifiers => -18,
        quiche::Error::KeyUpdate => -19,
        quiche::Error::CryptoBufferExceeded => -20,
        quiche::Error::InvalidAckRange => -21,
        quiche::Error::OptimisticAckDetected => -22,
        quiche::Error::InvalidDcidInitialization => -23,
    }
}

/// The code reported for an HTTP/3 error: one negative number per kind of
/// error, from -1 for `Done` down to -20.
pub open spec fn http3_code(e: quiche::h3::Error) -> int {
    match e {
        quiche::h3::Error::Done => -1,
        quiche::h3::Error::BufferTooShort => -2,
        quiche::h3::Error::InternalError => -3,
        quiche::h3::Error::ExcessiveLoad => -4,
        quiche::h3::Error::IdError => -5,
        quiche::h3::Error::StreamCreationError => -6,
        quiche::h3::Error::ClosedCriticalStream => -7,
        quiche::h3::Error::MissingSettings => -8,
        quiche::h3::Error::FrameUnexpected => -9,
        quiche::h3::Error::FrameError => -10,
        quiche::h3::Error::QpackDecompressionFailed => -11,
        quiche::h3::Error::TransportError(_) => -12,
        quiche::h3::Error::StreamBlocked => -13,
        quiche::h3::Error::SettingsError => -14,
        quiche::h3::Error::RequestRejected => -15,
        quiche::h3::Error::RequestCancelled => -16,
        quiche::h3::Error::RequestIncomplete => -17,
        quiche::h3::Error::MessageError => -18,
        quiche::h3::Error::ConnectError => -19,
        quiche::h3::Error::VersionFallback => -20,
    }
}

/// The number by which a packet type is reported.
pub open spec fn packet_type_number(ty: quiche::Type) -> int {
    match ty {
        quiche::Type::Initial => 1,
        quiche::Type::Retry => 2,
        quiche::Type::Handshake => 3,
        quiche::Type::ZeroRTT => 4,
        quiche::Type::Short => 5,
        quiche::Type::VersionNegotiation => 6,
    }
}

/// Two transport errors of the same kind, whatever data they carry.
pub open spec fn same_transport_kind(a: quiche::Error, b: quiche::Error) -> bool {
    ||| a == b
    ||| (a is InvalidStreamState && b is InvalidStreamState)
    ||| (a is StreamStopped && b is StreamStopped)
    ||| (a is StreamReset && b is StreamReset)
}

/// Two HTTP/3 errors of the same kind, whatever data they carry.
pub open spec fn same_http3_kind(a: quiche::h3::Error, b: quiche::h3::Error) -> bool {
    a == b || (a is TransportError && b is TransportError)
}

/// Maps a transport error to the code that Java receives.
pub fn error_to_c(e: quiche::Error) -> (c: i32)
    ensures
        c == transport_code(e),
        -23 <= c <= -1,
{
    match e {
        quiche::Error::Done => -1,
        quiche::Error::BufferTooShort => -2,
        quiche::Error::UnknownVersion => -3,
        quiche::Error::InvalidFrame => -4,
        quiche::Error::InvalidPacket => -5,
        quiche::Error::InvalidState => -6,
        quiche::Error::InvalidStreamState(_) => -7,
        quiche::Error::InvalidTransportParam => -8,
        quiche::Error::CryptoFail => -9,
        quiche::Error::TlsFail => -10,
        quiche::Error::FlowControl => -11,
        quiche::Error::StreamLimit => -12,
        quiche::Error::FinalSize => -13,
        quiche::Error::CongestionControl => -14,
        quiche::Error::StreamStopped(_) => -15,
        quiche::Error::StreamReset(_) => -16,
        quiche::Error::IdLimit => -17,
        quiche::Error::OutOfIdentifiers => -18,
        quiche::Error::KeyUpdate => -19,
        quiche::Error::CryptoBufferExceeded => -20,
        quiche::Error::InvalidAckRange => -21,
        quiche::Error::OptimisticAckDetected => -22,
        quiche::Error::InvalidDcidInitialization => -23,
    }
}

/// Maps an HTTP/3 error to the code that Java receives.
pub fn h3_error_code(error: quiche::h3::Error) -> (c: i32)
    ensures
        c == http3_code(error),
        -20 <= c <= -1,
{
    match error {
        quiche::h3::Error::Done => -1,
        quiche::h3::Error::BufferTooShort => -2,
        quiche::h3::Error::InternalError => -3,
        quiche::h3::Error::ExcessiveLoad => -4,
        quiche::h3::Error::IdError => -5,
        quiche::h3::Error::StreamCreationError => -6,
        quiche::h3::Error::ClosedCriticalStream => -7,
        quiche::h3::Error::MissingSettings => -8,
        quiche::h3::Error::FrameUnexpected => -9,
        quiche::h3::Error::FrameError => -10,
        quiche::h3::Error::QpackDecompressionFailed => -11,
        quiche::h3::Error::TransportError(_) => -12,
        quiche::h3::Error::StreamBlocked => -13,
        quiche::h3::Error::SettingsError => -14,
        quiche::h3::Error::RequestRejected => -15,
        quiche::h3::Error::RequestCancelled => -16,
        quiche::h3::Error::RequestIncomplete => -17,
        quiche::h3::Error::MessageError => -18,
        quiche::h3::Error::ConnectError => -19,
        quiche::h3::Error::VersionFallback => -20,
    }
}

/// Maps a packet type to the number that Java receives.
pub fn packet_type_code(ty: quiche::Type) -> (n: i32)
    ensures
        n == packet_type_number(ty),
        1 <= n <= 6,
{
    match ty {
        quiche::Type::Initial => 1,
        quiche::Type::Retry => 2,
        quiche::Type::Handshake => 3,
        quiche::Type::ZeroRTT => 4,
        quiche::Type::Short => 5,
        quiche::Type::VersionNegotiation => 6,
    }
}

/// Transport error codes tell the kinds of error apart: two errors get the
/// same code exactly when they are of the same kind, and -1 means `Done`.
pub proof fn lemma_transport_codes_distinguish_kinds(a: quiche::Error, b: quiche::Error)
    ensures
        transport_code(a) == transport_code(b) <==> same_transport_kind(a, b),
        transport_code(a) == -1 <==> a is Done,
        -23 <= transport_code(a) <= -1,
{
}

/// HTTP/3 error codes tell the kinds of error apart: two errors get the same
/// code exactly when they are of the same kind, and -1 means `Done`.
pub proof fn lemma_http3_codes_distinguish_kinds(a: quiche::h3::Error, b: quiche::h3::Error)
    ensures
        http3_code(a) == http3_code(b) <==> same_http3_kind(a, b),
        http3_code(a) == -1 <==> a is Done,
        -20 <= http3_code(a) <= -1,
{
}

/// Different packet types are reported by different numbers.
pub proof fn lemma_packet_type_numbers_distinct(a: quiche::Type, b: quiche::Type)
    ensures
        packet_type_number(a) == packet_type_number(b) <==> a == b,
        1 <= packet_type_number(a) <= 6,
{
}

} // verus!
