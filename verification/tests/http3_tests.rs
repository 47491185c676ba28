use quiche4j_jni::http3::{
    h3_config_new, h3_config_set_additional_settings, header_text, poll_outcome, PollAction,
};

fn pack(xs: &[u64]) -> Vec<u8> {
    xs.iter().flat_map(|x| x.to_be_bytes()).collect()
}

#[test]
fn additional_settings_with_distinct_free_identifiers_are_taken() {
    let mut config = h3_config_new();
    assert_eq!(h3_config_set_additional_settings(&mut config, &pack(&[0x21, 0x2b]), &pack(&[1, 2])), 0);
    assert_eq!(h3_config_set_additional_settings(&mut config, &[], &[]), 0);
}

#[test]
fn additional_settings_with_a_repeated_identifier_are_refused() {
    let mut config = h3_config_new();
    assert_eq!(h3_config_set_additional_settings(&mut config, &pack(&[0x21, 0x21]), &pack(&[1, 2])), -1);
}

#[test]
fn additional_settings_with_a_reserved_identifier_are_refused() {
    for reserved in [0x1u64, 0x6, 0x7, 0x8, 0x33, 0x276] {
        let mut config = h3_config_new();
        assert_eq!(
            h3_config_set_additional_settings(&mut config, &pack(&[0x21, reserved]), &pack(&[1, 2])),
            -1
        );
    }
}

#[test]
fn poll_reports_headers_with_the_stream_and_body_flag() {
    let header = quiche::h3::Header::new(b":status", b"200");
    let p = poll_outcome(Ok((4, quiche::h3::Event::Headers { list: vec![header.clone()], more_frames: true })));
    assert_eq!(p.code, 4);
    match p.action {
        PollAction::Headers { stream_id, headers, has_body } => {
            assert_eq!(stream_id, 4);
            assert!(headers == vec![header]);
            assert!(has_body);
        },
        _ => panic!("expected headers"),
    }
}

#[test]
fn poll_reports_data_and_finished_streams() {
    let p = poll_outcome(Ok((8, quiche::h3::Event::Data)));
    assert_eq!(p.code, 8);
    assert!(matches!(p.action, PollAction::Data { stream_id: 8 }));
    let p = poll_outcome(Ok((12, quiche::h3::Event::Finished)));
    assert_eq!(p.code, 12);
    assert!(matches!(p.action, PollAction::Finished { stream_id: 12 }));
}

#[test]
fn poll_passes_over_reset_priority_update_and_goaway_as_done() {
    for event in [quiche::h3::Event::Reset(3), quiche::h3::Event::PriorityUpdate, quiche::h3::Event::GoAway] {
        let p = poll_outcome(Ok((16, event)));
        assert_eq!(p.code, -1);
        assert!(matches!(p.action, PollAction::Nothing));
    }
}

#[test]
fn poll_error_is_reported_by_its_code() {
    let p = poll_outcome(Err(quiche::h3::Error::Done));
    assert_eq!(p.code, -1);
    assert!(matches!(p.action, PollAction::Nothing));
    let p = poll_outcome(Err(quiche::h3::Error::ClosedCriticalStream));
    assert_eq!(p.code, -7);
}

#[test]
fn header_text_is_the_utf8_text_or_empty() {
    assert_eq!(header_text(b"content-type"), "content-type");
    assert_eq!(header_text("caf\u{e9}".as_bytes()), "caf\u{e9}");
    assert_eq!(header_text(&[0x66, 0xff, 0x6f]), "");
    assert_eq!(header_text(&[]), "");
}

#[test]
fn additional_settings_are_read_big_endian() {
    let mut config = h3_config_new();
    let keys = [0u8, 0, 0, 0, 0, 0, 0x12, 0x34];
    let vals = [0u8, 0, 0, 0, 0, 0, 0, 0x05];
    assert_eq!(h3_config_set_additional_settings(&mut config, &keys, &vals), 0);
}

#[test]
fn trailing_key_bytes_and_extra_values_are_ignored() {
    let mut config = h3_config_new();
    let mut keys = pack(&[0x21]);
    keys.extend_from_slice(&[0, 0, 1]);
    let vals = pack(&[1, 2]);
    assert_eq!(h3_config_set_additional_settings(&mut config, &keys, &vals), 0);
}
