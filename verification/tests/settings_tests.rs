use quiche4j_jni::settings::decode_settings;

fn pack(xs: &[u64]) -> Vec<u8> {
    xs.iter().flat_map(|x| x.to_be_bytes()).collect()
}

#[test]
fn settings_are_read_as_big_endian_pairs() {
    let keys = [0, 0, 0, 0, 0, 0, 0, 0x2b, 0x01, 0x02, 0x03, 0x04, 0x05, 0x06, 0x07, 0x08];
    let vals = [0, 0, 0, 0, 0, 0, 0x01, 0x00, 0xff, 0xff, 0xff, 0xff, 0xff, 0xff, 0xff, 0xff];
    assert_eq!(
        decode_settings(&keys, &vals),
        vec![(0x2b, 0x100), (0x0102_0304_0506_0708, u64::MAX)]
    );
}

#[test]
fn packed_settings_come_back_unchanged() {
    let settings = vec![(0x21, 7), (u64::MAX, 0), (0x4000, 0x0123_4567_89ab_cdef)];
    let ids: Vec<u64> = settings.iter().map(|p| p.0).collect();
    let values: Vec<u64> = settings.iter().map(|p| p.1).collect();
    assert_eq!(decode_settings(&pack(&ids), &pack(&values)), settings);
}

#[test]
fn trailing_key_bytes_are_ignored() {
    let mut keys = pack(&[5]);
    keys.extend_from_slice(&[1, 2, 3]);
    let vals = pack(&[6]);
    assert_eq!(decode_settings(&keys, &vals), vec![(5, 6)]);
}

#[test]
fn no_keys_give_no_settings() {
    assert!(decode_settings(&[], &[]).is_empty());
    assert!(decode_settings(&[1, 2, 3], &[]).is_empty());
}
