//! Vsock addresses and context identifiers.

use vstd::prelude::*;

verus! {

/// A vsock endpoint: a context identifier and a port.
#[derive(Clone, Copy, Debug, PartialEq, Eq, Structural)]
pub struct Address {
    /// Context identifier.
    pub cid: u64,
    /// Port number.
    pub port: u32,
}

/// The number of values of a 32-bit identifier.
pub open spec fn cid_modulus() -> int {
    0x1_0000_0000
}

/// The address of the peer with the given context identifier and port.
pub open spec fn peer_address_of(peer_cid: u32, peer_port: u32) -> Address {
    Address { cid: peer_cid as u64, port: peer_port }
}

/// The 32-bit identifier that the driver interface uses for a context
/// identifier of the transport: its low 32 bits.
pub open spec fn narrow_cid_of(cid: u64) -> u32 {
    (cid as int % cid_modulus()) as u32
}

/// Builds the transport address of a peer from the identifier and the port
/// that a caller names it by.
pub fn peer_address(peer_cid: u32, peer_port: u32) -> (addr: Address)
    ensures
        addr == peer_address_of(peer_cid, peer_port),
{
    Address { cid: peer_cid as u64, port: peer_port }
}

/// Narrows a context identifier of the transport to the 32 bits of the driver
/// interface. The transport keeps the upper 32 bits zero, and such an
/// identifier is returned as it is.
pub fn narrow_cid(cid: u64) -> (narrow: u32)
    ensures
        narrow == narrow_cid_of(cid),
        cid <= u32::MAX ==> narrow == cid,
{
    let narrow = #[verifier::truncate] (cid as u32);
    assert(narrow as int == cid as int % 0x1_0000_0000) by (bit_vector)
        requires
            narrow == #[verifier::truncate] (cid as u32),
    ;
    narrow
}

/// Equal identifiers and ports give the same address, however often it is
/// built, and different ones give different addresses.
pub proof fn lemma_peer_address_deterministic(
    peer_cid: u32,
    peer_port: u32,
    other_cid: u32,
    other_port: u32,
)
    ensures
        (peer_cid == other_cid && peer_port == other_port) <==> peer_address_of(
            peer_cid,
            peer_port,
        ) == peer_address_of(other_cid, other_port),
{
}

/// An address that was built from a 32-bit identifier gives that identifier
/// back when its context identifier is narrowed.
pub proof fn lemma_narrow_peer_address(peer_cid: u32, peer_port: u32)
    ensures
        narrow_cid_of(peer_address_of(peer_cid, peer_port).cid) == peer_cid,
{
}

/// While the upper 32 bits of a context identifier are zero, narrowing loses
/// nothing: the peer address built from the narrowed identifier is the address
/// itself.
pub proof fn lemma_narrow_is_lossless(addr: Address)
    requires
        addr.cid <= u32::MAX,
    ensures
        peer_address_of(narrow_cid_of(addr.cid), addr.port) == addr,
{
}

} // verus!
