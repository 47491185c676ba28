use quiche4j_jni::outcome::{
    count_to_c, count_to_c_long, filled_outcome, h3_count_to_c, h3_count_to_c_long,
    h3_filled_outcome, h3_status_to_c, h3_stream_to_c, next_stream_to_c, shutdown_direction,
    shutdown_outcome, stats_report, status_to_c, timeout_millis_to_c, timeout_nanos_to_c, zeroed,
    PathSample,
};

#[test]
fn counts_are_reported_as_themselves_and_errors_as_codes() {
    assert_eq!(count_to_c(Ok(1200)), 1200);
    assert_eq!(count_to_c(Ok(0)), 0);
    assert_eq!(count_to_c(Err(quiche::Error::Done)), -1);
    assert_eq!(count_to_c(Err(quiche::Error::BufferTooShort)), -2);
    assert_eq!(count_to_c_long(Ok(5_000_000_000)), 5_000_000_000);
    assert_eq!(count_to_c_long(Err(quiche::Error::StreamLimit)), -12);
}

#[test]
fn count_beyond_java_int_wraps_like_a_cast() {
    assert_eq!(count_to_c(Ok(0x1_0000_0005)), 5);
    assert_eq!(count_to_c(Ok(0x8000_0000)), i32::MIN);
}

#[test]
fn status_is_zero_or_the_error_code() {
    assert_eq!(status_to_c(Ok(())), 0);
    assert_eq!(status_to_c(Err(quiche::Error::InvalidState)), -6);
}

#[test]
fn http3_outcomes_map_to_codes() {
    assert_eq!(h3_count_to_c(Ok(17)), 17);
    assert_eq!(h3_count_to_c(Err(quiche::h3::Error::StreamBlocked)), -13);
    assert_eq!(h3_count_to_c_long(Ok(99)), 99);
    assert_eq!(h3_count_to_c_long(Err(quiche::h3::Error::Done)), -1);
    assert_eq!(h3_stream_to_c(Ok(4)), 4);
    assert_eq!(h3_stream_to_c(Err(quiche::h3::Error::FrameUnexpected)), -9);
    assert_eq!(h3_status_to_c(Ok(())), 0);
    assert_eq!(h3_status_to_c(Err(quiche::h3::Error::MessageError)), -18);
}

#[test]
fn filled_buffer_keeps_only_the_reported_bytes() {
    let f = filled_outcome(Ok(3), vec![9, 8, 7, 6, 5]);
    assert_eq!(f.code, 3);
    assert_eq!(f.bytes, vec![9, 8, 7]);
    let f = filled_outcome(Err(quiche::Error::Done), vec![1, 2, 3]);
    assert_eq!(f.code, -1);
    assert!(f.bytes.is_empty());
    let f = h3_filled_outcome(Ok(2), vec![4, 5, 6]);
    assert_eq!((f.code, f.bytes), (2, vec![4, 5]));
    let f = h3_filled_outcome(Err(quiche::h3::Error::Done), vec![4, 5, 6]);
    assert_eq!((f.code, f.bytes.len()), (-1, 0));
}

#[test]
fn zeroed_buffer_has_the_length_asked_for() {
    assert_eq!(zeroed(4), vec![0, 0, 0, 0]);
    assert!(zeroed(0).is_empty());
}

#[test]
fn next_stream_is_its_identifier_or_minus_one() {
    assert_eq!(next_stream_to_c(Some(8)), 8);
    assert_eq!(next_stream_to_c(Some(0)), 0);
    assert_eq!(next_stream_to_c(None), -1);
}

#[test]
fn timeouts_in_nanoseconds_and_milliseconds() {
    assert_eq!(timeout_nanos_to_c(None), -1);
    assert_eq!(timeout_millis_to_c(None), -1);
    assert_eq!(timeout_nanos_to_c(Some(1_500_000)), 1_500_000);
    assert_eq!(timeout_millis_to_c(Some(1_500_000)), 1);
    assert_eq!(timeout_millis_to_c(Some(999_999)), 0);
    assert_eq!(timeout_millis_to_c(Some(25_000_000_000)), 25_000);
}

#[test]
fn millisecond_timeout_is_nanosecond_timeout_divided_by_a_million() {
    for n in [0u128, 1, 999_999, 1_000_000, 123_456_789_012, u64::MAX as u128] {
        assert_eq!(timeout_millis_to_c(Some(n)), timeout_nanos_to_c(Some(n / 1_000_000)));
    }
}

#[test]
fn stats_report_with_and_without_a_path() {
    let r = stats_report(10, 12, 1, Some(PathSample { rtt_nanos: 42_700_000, cwnd: 14_720, delivery_rate: 900 }));
    assert_eq!((r.recv, r.sent, r.lost), (10, 12, 1));
    assert_eq!((r.rtt_ms, r.cwnd, r.delivery_rate), (42, 14_720, 900));
    let r = stats_report(3, 4, 0, None);
    assert_eq!((r.recv, r.sent, r.lost, r.rtt_ms, r.cwnd, r.delivery_rate), (3, 4, 0, 0, 0, 0));
}

#[test]
fn shutdown_direction_zero_is_read_others_write() {
    assert!(shutdown_direction(0) == quiche::Shutdown::Read);
    assert!(shutdown_direction(1) == quiche::Shutdown::Write);
    assert!(shutdown_direction(-5) == quiche::Shutdown::Write);
}

#[test]
fn shutdown_done_counts_as_success() {
    assert_eq!(shutdown_outcome(Ok(())), Ok(()));
    assert_eq!(shutdown_outcome(Err(quiche::Error::Done)), Ok(()));
    assert_eq!(
        shutdown_outcome(Err(quiche::Error::InvalidStreamState(3))),
        Err(quiche::Error::InvalidStreamState(3))
    );
}

#[test]
fn booleans_become_one_or_zero() {
    assert_eq!(quiche4j_jni::outcome::java_boolean(true), 1);
    assert_eq!(quiche4j_jni::outcome::java_boolean(false), 0);
}
