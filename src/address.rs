use vstd::prelude::*;

verus! {

/// A normalized IP address: four bytes for IPv4, sixteen for IPv6, both in
/// network order.
#[derive(Clone, Copy, Debug, PartialEq, Eq, Hash)]
pub enum IpAddress {
    V4([u8; 4]),
    V6([u8; 16]),
}

/// The contents of one socket-address record of the operating system, as
/// its family tag selects them.
#[derive(Clone, Copy, Debug, PartialEq, Eq, Hash)]
pub enum SockAddr {
    /// An IPv4 record: the address word as it is read in native byte order.
    Inet { s_addr: u32 },
    /// An IPv6 record: the sixteen address bytes as they stand in memory.
    Inet6 { s6_addr: [u8; 16] },
    /// A record of any other family, with its tag.
    Other { family: u32 },
}

/// Why a socket-address record yields no address.
#[derive(Clone, Copy, Debug, PartialEq, Eq, Hash, Structural)]
pub enum DecodeError {
    /// There is no record.
    NullRecord,
    /// The record's family is neither IPv4 nor IPv6.
    UnsupportedFamily,
    /// The address is link-local, which this representation cannot scope.
    NotAvailable,
}

/// The four octets of an IPv4 address word read in native order: the
/// lowest byte of the word is the first octet.
pub open spec fn v4_octets(s_addr: u32) -> Seq<u8> {
    seq![
        (s_addr % 0x100) as u8,
        (s_addr / 0x100 % 0x100) as u8,
        (s_addr / 0x1_0000 % 0x100) as u8,
        (s_addr / 0x100_0000) as u8,
    ]
}

/// 169.254.0.0/16 for IPv4, fe80::/10 for IPv6.
pub open spec fn is_link_local(a: IpAddress) -> bool {
    match a {
        IpAddress::V4(o) => o[0] == 169 && o[1] == 254,
        IpAddress::V6(b) => b[0] == 0xfe && 0x80 <= b[1] && b[1] < 0xc0,
    }
}

/// 127.0.0.0/8 for IPv4, ::1 for IPv6.
pub open spec fn is_loopback_addr(a: IpAddress) -> bool {
    match a {
        IpAddress::V4(o) => o[0] == 127,
        IpAddress::V6(b) => (forall|i: int| 0 <= i < 15 ==> b[i] == 0) && b[15] == 1,
    }
}

/// What decoding a record gives, `None` standing for a null record.
pub open spec fn decode_spec(rec: Option<SockAddr>) -> Result<IpAddress, DecodeError> {
    match rec {
        None => Err(DecodeError::NullRecord),
        Some(SockAddr::Other { .. }) => Err(DecodeError::UnsupportedFamily),
        Some(SockAddr::Inet { s_addr }) => {
            let o = v4_octets(s_addr);
            if o[0] == 169 && o[1] == 254 {
                Err(DecodeError::NotAvailable)
            } else {
                Ok(IpAddress::V4([o[0], o[1], o[2], o[3]]))
            }
        },
        Some(SockAddr::Inet6 { s6_addr }) => {
            if is_link_local(IpAddress::V6(s6_addr)) {
                Err(DecodeError::NotAvailable)
            } else {
                Ok(IpAddress::V6(s6_addr))
            }
        },
    }
}

proof fn lemma_word_bytes(w: u32)
    ensures
        (w & 0xff) as u8 == v4_octets(w)[0],
        ((w >> 8u32) & 0xff) as u8 == v4_octets(w)[1],
        ((w >> 16u32) & 0xff) as u8 == v4_octets(w)[2],
        ((w >> 24u32) & 0xff) as u8 == v4_octets(w)[3],
{
    assert(w & 0xff == w % 0x100) by (bit_vector);
    assert((w >> 8u32) & 0xff == w / 0x100 % 0x100) by (bit_vector);
    assert((w >> 16u32) & 0xff == w / 0x1_0000 % 0x100) by (bit_vector);
    assert((w >> 24u32) & 0xff == w / 0x100_0000) by (bit_vector);
}

/// Decodes one socket-address record into an IP address, rejecting
/// link-local addresses.
pub fn decode_sockaddr(rec: Option<SockAddr>) -> (r: Result<IpAddress, DecodeError>)
    ensures
        r == decode_spec(rec),
{
    match rec {
        None => Err(DecodeError::NullRecord),
        Some(SockAddr::Other { .. }) => Err(DecodeError::UnsupportedFamily),
        Some(SockAddr::Inet { s_addr }) => {
            proof {
                lemma_word_bytes(s_addr);
            }
            let o: [u8; 4] = [
                (s_addr & 0xff) as u8,
                ((s_addr >> 8) & 0xff) as u8,
                ((s_addr >> 16) & 0xff) as u8,
                ((s_addr >> 24) & 0xff) as u8,
            ];
            if o[0] == 169 && o[1] == 254 {
                Err(DecodeError::NotAvailable)
            } else {
                Ok(IpAddress::V4(o))
            }
        },
        Some(SockAddr::Inet6 { s6_addr }) => {
            if s6_addr[0] == 0xfe && 0x80 <= s6_addr[1] && s6_addr[1] < 0xc0 {
                Err(DecodeError::NotAvailable)
            } else {
                Ok(IpAddress::V6(s6_addr))
            }
        },
    }
}

/// Every IPv4 record outside 169.254.0.0/16 decodes to exactly the address
/// its word encodes, the lowest byte of the word being the first octet.
pub proof fn lemma_ipv4_decodes_exactly(s_addr: u32)
    requires
        !(v4_octets(s_addr)[0] == 169 && v4_octets(s_addr)[1] == 254),
    ensures
        decode_spec(Some(SockAddr::Inet { s_addr })) matches Ok(IpAddress::V4(o)) && o@
            == v4_octets(s_addr),
{
    let o = v4_octets(s_addr);
    assert([o[0], o[1], o[2], o[3]]@ == o);
}

/// Every IPv6 record outside fe80::/10 decodes to its sixteen bytes,
/// unchanged and in the same order.
pub proof fn lemma_ipv6_bytes_unchanged(s6_addr: [u8; 16])
    requires
        !is_link_local(IpAddress::V6(s6_addr)),
    ensures
        decode_spec(Some(SockAddr::Inet6 { s6_addr })) == Ok::<IpAddress, DecodeError>(
            IpAddress::V6(s6_addr),
        ),
{
}

/// A record whose address lies in 169.254.0.0/16 or fe80::/10 fails with
/// `NotAvailable`.
pub proof fn lemma_link_local_rejected(s_addr: u32, s6_addr: [u8; 16])
    ensures
        v4_octets(s_addr)[0] == 169 && v4_octets(s_addr)[1] == 254 ==> decode_spec(
            Some(SockAddr::Inet { s_addr }),
        ) == Err::<IpAddress, DecodeError>(DecodeError::NotAvailable),
        is_link_local(IpAddress::V6(s6_addr)) ==> decode_spec(Some(SockAddr::Inet6 { s6_addr }))
            == Err::<IpAddress, DecodeError>(DecodeError::NotAvailable),
{
}

/// A missing record fails with `NullRecord`; a record of an unknown family
/// fails with `UnsupportedFamily`.
pub proof fn lemma_null_and_unknown_family(family: u32)
    ensures
        decode_spec(None) == Err::<IpAddress, DecodeError>(DecodeError::NullRecord),
        decode_spec(Some(SockAddr::Other { family })) == Err::<IpAddress, DecodeError>(
            DecodeError::UnsupportedFamily,
        ),
{
}

} // verus!
