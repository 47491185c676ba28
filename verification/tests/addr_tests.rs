use quiche4j_jni::addr::{socket_addr_from_bytes, IpOctets};

#[test]
fn four_bytes_make_an_ipv4_address() {
    let a = socket_addr_from_bytes(&[127, 0, 0, 1], 4433);
    assert_eq!(a.port, 4433);
    match a.ip {
        IpOctets::V4(o) => assert_eq!(o, [127, 0, 0, 1]),
        IpOctets::V6(_) => panic!("expected an IPv4 address"),
    }
}

#[test]
fn sixteen_or_more_bytes_make_an_ipv6_address_from_the_first_sixteen() {
    let mut bytes: Vec<u8> = (1..=16).collect();
    bytes.push(99);
    let a = socket_addr_from_bytes(&bytes, 443);
    match a.ip {
        IpOctets::V6(o) => assert_eq!(o.to_vec(), (1..=16).collect::<Vec<u8>>()),
        IpOctets::V4(_) => panic!("expected an IPv6 address"),
    }
}

#[test]
fn port_keeps_its_low_sixteen_bits() {
    assert_eq!(socket_addr_from_bytes(&[10, 0, 0, 1], 65536 + 80).port, 80);
    assert_eq!(socket_addr_from_bytes(&[10, 0, 0, 1], -1).port, 65535);
}
