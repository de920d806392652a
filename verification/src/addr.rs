//! Socket addresses of peers.
use vstd::prelude::*;

verus! {

/// An IPv4 socket address.
#[derive(Clone, Copy, PartialEq, Eq, Hash, Structural)]
pub struct SocketAddrV4 {
    /// The four octets of the IP address as one number, the first octet in the
    /// most significant place.
    pub ip: u32,
    pub port: u16,
}

/// An IPv6 socket address.
#[derive(Clone, Copy, PartialEq, Eq, Hash, Structural)]
pub struct SocketAddrV6 {
    /// The sixteen octets of the IP address as one number, the first octet in
    /// the most significant place.
    pub ip: u128,
    pub port: u16,
    pub flowinfo: u32,
    pub scope_id: u32,
}

/// An internet socket address.
#[derive(Clone, Copy, PartialEq, Eq, Hash, Structural)]
pub enum SocketAddr {
    V4(SocketAddrV4),
    V6(SocketAddrV6),
}

/// A peer's incoming (listening) address.
#[derive(Clone, Copy, PartialEq, Eq, Hash, Structural)]
pub struct InAddr(pub SocketAddr);

/// An internal address used to respond to a connected peer.
#[derive(Clone, Copy, PartialEq, Eq, Hash, Structural)]
pub struct OutAddr(pub SocketAddr);

impl core::ops::Deref for InAddr {
    type Target = SocketAddr;

    fn deref(&self) -> (addr: &SocketAddr)
        ensures
            *addr == self.0,
    {
        &self.0
    }
}

impl core::ops::Deref for OutAddr {
    type Target = SocketAddr;

    fn deref(&self) -> (addr: &SocketAddr)
        ensures
            *addr == self.0,
    {
        &self.0
    }
}

impl InAddr {
    /// The text under which an incoming address is shown, given the text of
    /// the socket address.
    pub fn display(addr: &str) -> (text: String)
        ensures
            text@ == "InAddr("@ + addr@ + ")"@,
    {
        String::from_str("InAddr(").concat(addr).concat(")")
    }
}

impl OutAddr {
    /// The text under which an internal address is shown, given the text of
    /// the socket address.
    pub fn display(addr: &str) -> (text: String)
        ensures
            text@ == "OutAddr("@ + addr@ + ")"@,
    {
        String::from_str("OutAddr(").concat(addr).concat(")")
    }
}

/// An address that is wrapped is the one that is found inside.
pub proof fn law_address_is_found_inside(
    addr: SocketAddr,
    incoming: &SocketAddr,
    outgoing: &SocketAddr,
)
    requires
        call_ensures(<InAddr as core::ops::Deref>::deref, (&InAddr(addr),), incoming),
        call_ensures(<OutAddr as core::ops::Deref>::deref, (&OutAddr(addr),), outgoing),
    ensures
        *incoming == addr,
        *outgoing == addr,
{
}

/// The text of an address can be read out of the text under which it is shown,
/// character by character, and the characters around it say which of the two
/// kinds of address it is.
pub proof fn law_shown_address_can_be_read(addr: &str, incoming: String, outgoing: String)
    requires
        call_ensures(InAddr::display, (addr,), incoming),
        call_ensures(OutAddr::display, (addr,), outgoing),
    ensures
        incoming@.len() == addr@.len() + 8,
        incoming@.take(7) == seq!['I', 'n', 'A', 'd', 'd', 'r', '('],
        incoming@.subrange(7, 7 + addr@.len() as int) == addr@,
        incoming@.last() == ')',
        outgoing@.len() == addr@.len() + 9,
        outgoing@.take(8) == seq!['O', 'u', 't', 'A', 'd', 'd', 'r', '('],
        outgoing@.subrange(8, 8 + addr@.len() as int) == addr@,
        outgoing@.last() == ')',
{
    reveal_strlit("InAddr(");
    reveal_strlit("OutAddr(");
    reveal_strlit(")");
}

}
