use vstd::prelude::*;
use crate::address::{decode_sockaddr, decode_spec, is_loopback_addr, IpAddress, SockAddr};

verus! {

/// Flag bit of an interface that can broadcast.
pub const IFF_BROADCAST: u32 = 0x2;

/// Flag bit of a point-to-point interface.
pub const IFF_POINTOPOINT: u32 = 0x10;

/// One interface-address node of the operating system's list, read out into
/// plain values. `None` stands for a null address pointer.
#[derive(Clone, Debug, PartialEq, Eq, Hash)]
pub struct RawNode {
    /// The bytes of the interface name, without the terminating zero.
    pub name: Vec<u8>,
    /// The primary address.
    pub addr: Option<SockAddr>,
    /// The netmask.
    pub netmask: Option<SockAddr>,
    /// The interface flags.
    pub flags: u32,
    /// The slot that holds the broadcast address of a broadcast interface
    /// and the peer address of a point-to-point one.
    pub broad_dest: Option<SockAddr>,
}

/// Details about a network interface on the local system.
#[derive(Clone, Debug, PartialEq, Eq, Hash)]
pub struct Interface {
    /// The name of this interface.
    pub name: String,
    /// The address of this interface.
    pub addr: IpAddress,
    /// The netmask of this interface.
    pub netmask: IpAddress,
    /// The broadcast address of this interface.
    pub broadcast: Option<IpAddress>,
    /// The point-to-point destination address of this interface.
    pub destination: Option<IpAddress>,
}

/// Why a node yields no interface.
#[derive(Clone, Copy, Debug, PartialEq, Eq, Hash, Structural)]
pub enum BuildError {
    /// The node has no primary address, or it does not decode.
    NoAddress,
}

/// What lossy UTF-8 decoding makes of a byte string.
pub uninterp spec fn lossy_utf8(b: Seq<u8>) -> Seq<char>;

/// Relies on `String::from_utf8_lossy`, which replaces each invalid
/// sequence and depends on the bytes alone.
#[verifier::external_body]
fn name_from_bytes(b: &Vec<u8>) -> (r: String)
    ensures
        r@ == lossy_utf8(b@),
{
    String::from_utf8_lossy(b.as_slice()).into_owned()
}

pub open spec fn same_family(a: IpAddress, b: IpAddress) -> bool {
    (a is V4 && b is V4) || (a is V6 && b is V6)
}

/// The all-zero address of the family of `a`.
pub open spec fn zero_like(a: IpAddress) -> IpAddress {
    match a {
        IpAddress::V4(_) => IpAddress::V4([0u8, 0, 0, 0]),
        IpAddress::V6(_) => IpAddress::V6([0u8, 0, 0, 0, 0, 0, 0, 0, 0, 0, 0, 0, 0, 0, 0, 0]),
    }
}

/// The netmask of a node whose primary address is `addr`.
pub open spec fn netmask_spec(addr: IpAddress, rec: Option<SockAddr>) -> IpAddress {
    match decode_spec(rec) {
        Ok(m) => if same_family(m, addr) { m } else { zero_like(addr) },
        Err(_) => zero_like(addr),
    }
}

/// The broadcast or destination address of a node whose primary address is
/// `addr`, where `flag` tells whether the node claims one.
pub open spec fn aux_spec(flag: bool, addr: IpAddress, rec: Option<SockAddr>) -> Option<IpAddress> {
    if flag {
        match decode_spec(rec) {
            Ok(b) => if same_family(b, addr) { Some(b) } else { None },
            Err(_) => None,
        }
    } else {
        None
    }
}

pub open spec fn has_flag(flags: u32, bit: u32) -> bool {
    flags & bit != 0
}

/// A node yields an interface exactly when its primary address decodes.
pub open spec fn builds(n: RawNode) -> bool {
    n.addr is Some && decode_spec(n.addr) is Ok
}

/// `i` is the interface that the node `n` describes.
pub open spec fn built_from(n: RawNode, i: Interface) -> bool {
    let addr = decode_spec(n.addr)->Ok_0;
    &&& i.name@ == lossy_utf8(n.name@)
    &&& i.addr == addr
    &&& i.netmask == netmask_spec(addr, n.netmask)
    &&& i.broadcast == aux_spec(has_flag(n.flags, IFF_BROADCAST), addr, n.broad_dest)
    &&& i.destination == aux_spec(has_flag(n.flags, IFF_POINTOPOINT), addr, n.broad_dest)
}

/// The netmask, broadcast and destination addresses are of the family of the
/// primary address.
pub open spec fn families_agree(i: Interface) -> bool {
    &&& same_family(i.netmask, i.addr)
    &&& (i.broadcast matches Some(b) ==> same_family(b, i.addr))
    &&& (i.destination matches Some(d) ==> same_family(d, i.addr))
}

/// Decodes `rec` and keeps the result if it has the family of `addr`.
fn decode_same_family(rec: Option<SockAddr>, addr: IpAddress) -> (r: Option<IpAddress>)
    ensures
        r == aux_spec(true, addr, rec),
{
    match decode_sockaddr(rec) {
        Ok(IpAddress::V4(v)) => {
            if let IpAddress::V4(_) = addr {
                Some(IpAddress::V4(v))
            } else {
                None
            }
        },
        Ok(IpAddress::V6(v)) => {
            if let IpAddress::V6(_) = addr {
                Some(IpAddress::V6(v))
            } else {
                None
            }
        },
        Err(_) => None,
    }
}

impl Interface {
    /// Builds the interface that one node describes.
    pub fn try_from(n: &RawNode) -> (r: Result<Interface, BuildError>)
        ensures
            r is Ok <==> builds(*n),
            r matches Ok(i) ==> built_from(*n, i) && families_agree(i),
            r matches Err(e) ==> e == BuildError::NoAddress,
    {
        if n.addr.is_none() {
            return Err(BuildError::NoAddress);
        }
        let name = name_from_bytes(&n.name);
        let addr = match decode_sockaddr(n.addr) {
            Ok(a) => a,
            Err(_) => {
                return Err(BuildError::NoAddress);
            },
        };
        let netmask = match decode_same_family(n.netmask, addr) {
            Some(m) => m,
            None => match addr {
                IpAddress::V4(_) => IpAddress::V4([0u8, 0, 0, 0]),
                IpAddress::V6(_) => IpAddress::V6([0u8, 0, 0, 0, 0, 0, 0, 0, 0, 0, 0, 0, 0, 0, 0, 0]),
            },
        };
        let broadcast = if n.flags & IFF_BROADCAST != 0 {
            decode_same_family(n.broad_dest, addr)
        } else {
            None
        };
        let destination = if n.flags & IFF_POINTOPOINT != 0 {
            decode_same_family(n.broad_dest, addr)
        } else {
            None
        };
        Ok(Interface { name, addr, netmask, broadcast, destination })
    }

    /// Returns `true` if this interface has an IPv4 address.
    pub fn is_ipv4(&self) -> (r: bool)
        ensures
            r == (self.addr is V4),
    {
        matches!(self.addr, IpAddress::V4(_))
    }

    /// Returns `true` if this interface has an IPv6 address.
    pub fn is_ipv6(&self) -> (r: bool)
        ensures
            r == (self.addr is V6),
    {
        matches!(self.addr, IpAddress::V6(_))
    }

    /// Returns `true` if this interface has a loopback address.
    pub fn is_loopback(&self) -> (r: bool)
        ensures
            r == is_loopback_addr(self.addr),
    {
        match self.addr {
            IpAddress::V4(o) => o[0] == 127,
            IpAddress::V6(b) => {
                let mut i: usize = 0;
                while i < 15
                    invariant
                        i <= 15,
                        self.addr == IpAddress::V6(b),
                        forall|j: int| 0 <= j < i ==> b[j] == 0,
                    decreases 15 - i,
                {
                    if b[i] != 0 {
                        return false;
                    }
                    i = i + 1;
                }
                b[15] == 1
            },
        }
    }
}

/// An interface has a broadcast address exactly when its node has the
/// broadcast flag and the shared slot decodes to an address of the family of
/// the primary address; that address is then the broadcast address.
pub proof fn lemma_broadcast_iff(n: RawNode, i: Interface)
    requires
        builds(n),
        built_from(n, i),
    ensures
        i.broadcast is Some <==> (has_flag(n.flags, IFF_BROADCAST) && decode_spec(n.broad_dest) is Ok
            && same_family(decode_spec(n.broad_dest)->Ok_0, i.addr)),
        i.broadcast matches Some(b) ==> decode_spec(n.broad_dest) == Ok::<IpAddress, crate::address::DecodeError>(b),
{
}

} // verus!
