use quiche4j_jni::packet::{header_from_slice, version_is_supported};

#[test]
fn only_version_one_is_supported() {
    assert!(version_is_supported(1));
    assert!(!version_is_supported(0));
    assert!(!version_is_supported(0xff00_001d_u32 as i32));
    assert!(!version_is_supported(-1));
}

#[test]
fn short_header_gives_its_destination_identifier() {
    let buf = [0x40, 1, 2, 3, 4, 9, 9];
    let h = header_from_slice(&buf, 4).unwrap();
    assert_eq!(h.packet_type, 5);
    assert_eq!(h.version, 0);
    assert_eq!(h.dcid, vec![1, 2, 3, 4]);
    assert!(h.scid.is_empty());
    assert!(h.token.is_none());
    assert!(h.versions.is_none());
}

#[test]
fn initial_header_gives_identifiers_and_token() {
    let buf = [0xc0, 0, 0, 0, 1, 2, 0xaa, 0xbb, 1, 0xcc, 1, 0x77, 0x40, 0x10];
    let h = header_from_slice(&buf, 8).unwrap();
    assert_eq!(h.packet_type, 1);
    assert_eq!(h.version, 1);
    assert_eq!(h.dcid, vec![0xaa, 0xbb]);
    assert_eq!(h.scid, vec![0xcc]);
    assert_eq!(h.token, Some(vec![0x77]));
    assert!(h.versions.is_none());
}

#[test]
fn version_negotiation_header_gives_the_versions() {
    let buf = [0x80, 0, 0, 0, 0, 1, 0x11, 1, 0x22, 0, 0, 0, 1, 0xff, 0, 0, 0x1d];
    let h = header_from_slice(&buf, 8).unwrap();
    assert_eq!(h.packet_type, 6);
    assert_eq!(h.version, 0);
    assert_eq!(h.versions, Some(vec![1, 0xff00_001d]));
}

#[test]
fn truncated_header_is_an_error() {
    assert!(header_from_slice(&[], 8).is_err());
    assert!(header_from_slice(&[0xc0, 0, 0], 8).is_err());
}
