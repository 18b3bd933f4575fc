use get_if_addrs::{decode_sockaddr, DecodeError, IpAddress, SockAddr};

fn v6(bytes: [u8; 16]) -> Option<SockAddr> {
    Some(SockAddr::Inet6 { s6_addr: bytes })
}

#[test]
fn c_sock_addr_ptr_to_ipv4addr() {
    let s_addr: u32 = 127 | 0 << 8 | 0 << 16 | 1 << 24;
    let addr = decode_sockaddr(Some(SockAddr::Inet { s_addr }));
    assert_eq!(addr.unwrap(), IpAddress::V4([127, 0, 0, 1]));
}

#[test]
fn ipv4_lowest_byte_of_word_is_first_octet() {
    let addr = decode_sockaddr(Some(SockAddr::Inet { s_addr: 0x0403_020a }));
    assert_eq!(addr, Ok(IpAddress::V4([10, 2, 3, 4])));
    let addr = decode_sockaddr(Some(SockAddr::Inet { s_addr: 0xffff_ffff }));
    assert_eq!(addr, Ok(IpAddress::V4([255, 255, 255, 255])));
    let addr = decode_sockaddr(Some(SockAddr::Inet { s_addr: 0 }));
    assert_eq!(addr, Ok(IpAddress::V4([0, 0, 0, 0])));
}

#[test]
fn ipv6_bytes_carried_unchanged() {
    let b = [0x20, 0x01, 0x0d, 0xb8, 1, 2, 3, 4, 5, 6, 7, 8, 9, 10, 11, 12];
    assert_eq!(decode_sockaddr(v6(b)), Ok(IpAddress::V6(b)));
    let mut lo = [0u8; 16];
    lo[15] = 1;
    assert_eq!(decode_sockaddr(v6(lo)), Ok(IpAddress::V6(lo)));
}

#[test]
fn ipv4_link_local_not_available() {
    let s_addr: u32 = 169 | 254 << 8 | 1 << 16 | 2 << 24;
    assert_eq!(decode_sockaddr(Some(SockAddr::Inet { s_addr })), Err(DecodeError::NotAvailable));
    let s_addr: u32 = 169 | 254 << 8;
    assert_eq!(decode_sockaddr(Some(SockAddr::Inet { s_addr })), Err(DecodeError::NotAvailable));
    let s_addr: u32 = 169 | 253 << 8;
    assert_eq!(decode_sockaddr(Some(SockAddr::Inet { s_addr })), Ok(IpAddress::V4([169, 253, 0, 0])));
}

#[test]
fn ipv6_link_local_not_available() {
    let mut b = [0u8; 16];
    b[0] = 0xfe;
    b[1] = 0x80;
    b[15] = 1;
    assert_eq!(decode_sockaddr(v6(b)), Err(DecodeError::NotAvailable));
    b[1] = 0xbf;
    assert_eq!(decode_sockaddr(v6(b)), Err(DecodeError::NotAvailable));
    b[1] = 0xc0;
    assert_eq!(decode_sockaddr(v6(b)), Ok(IpAddress::V6(b)));
    b[1] = 0x7f;
    assert_eq!(decode_sockaddr(v6(b)), Ok(IpAddress::V6(b)));
}

#[test]
fn null_record_and_unknown_family() {
    assert_eq!(decode_sockaddr(None), Err(DecodeError::NullRecord));
    assert_eq!(
        decode_sockaddr(Some(SockAddr::Other { family: 17 })),
        Err(DecodeError::UnsupportedFamily)
    );
}
