//! Enumerates the network interfaces of the local system.
//!
//! The verified part of this crate turns the operating system's interface
//! records, read out into plain values, into normalized interface
//! descriptions: socket addresses are decoded by family, link-local
//! addresses are rejected, netmasks default to the zero address of the
//! matching family, and broadcast and point-to-point addresses follow the
//! interface flags.

mod address;
mod enumerate;
mod interface;

pub use address::{
    decode_sockaddr, decode_spec, is_link_local, is_loopback_addr, lemma_ipv4_decodes_exactly,
    lemma_ipv6_bytes_unchanged, lemma_link_local_rejected, lemma_null_and_unknown_family,
    v4_octets, DecodeError, IpAddress, SockAddr,
};
pub use enumerate::{
    collect_interfaces, describes, interfaces_from_query, kept_nodes,
    lemma_null_address_node_skipped,
};
pub use interface::{
    aux_spec, built_from, builds, families_agree, has_flag, lemma_broadcast_iff, lossy_utf8,
    netmask_spec, same_family, zero_like, BuildError, Interface, RawNode, IFF_BROADCAST,
    IFF_POINTOPOINT,
};
