use vstd::prelude::*;

verus! {

/// A resolved transport endpoint, as the plain values the host reads of
/// it: address family, address bits and port.
#[derive(Clone, Copy, PartialEq, Eq, Structural, Debug)]
pub struct SocketAddress {
    /// Whether the address is an IPv6 address; otherwise the low 32 bits
    /// of `ip` hold an IPv4 address.
    pub v6: bool,
    /// The address bits.
    pub ip: u128,
    /// The port number.
    pub port: u16,
}

/// A DNS resolution cursor: the finite sequence of addresses a name
/// resolved to, walked one address per host call and restartable at any
/// index. Resolution itself is performed by the external transport
/// layer; the cursor owns its results.
#[derive(Clone, PartialEq, Eq, Debug)]
pub struct DnsIterator {
    /// The resolved addresses, in resolution order.
    pub addrs: Vec<SocketAddress>,
    /// The index of the next address to hand out.
    pub cursor: usize,
}

impl DnsIterator {
    /// A cursor over freshly resolved addresses, positioned at the
    /// first one.
    pub fn new(addrs: Vec<SocketAddress>) -> (r: Self)
        ensures
            r == (DnsIterator { addrs, cursor: 0 }),
    {
        DnsIterator { addrs, cursor: 0 }
    }

    /// Hand out the next resolved address and advance, or report the
    /// sequence exhausted and stay put.
    pub fn next(&mut self) -> (r: Option<SocketAddress>)
        ensures
            (old(self).cursor as int) < old(self).addrs@.len() ==> {
                &&& r == Some(old(self).addrs@[old(self).cursor as int])
                &&& *final(self) == (DnsIterator {
                    cursor: (old(self).cursor + 1) as usize,
                    ..*old(self)
                })
            },
            (old(self).cursor as int) >= old(self).addrs@.len() ==> {
                &&& r is None
                &&& *final(self) == *old(self)
            },
    {
        if self.cursor < self.addrs.len() {
            let addr = self.addrs[self.cursor];
            self.cursor = self.cursor + 1;
            Some(addr)
        } else {
            None
        }
    }

    /// Restart the walk at an arbitrary index; the resolved addresses
    /// are unchanged.
    pub fn restart_at(&mut self, index: usize)
        ensures
            *final(self) == (DnsIterator { cursor: index, ..*old(self) }),
    {
        self.cursor = index;
    }
}

/// A listening transport socket, as the plain values the host reads of
/// it: the local endpoint it is bound to. Accepting connections is the
/// external transport layer's work; the resource table only tracks the
/// capability.
#[derive(Clone, Copy, PartialEq, Eq, Structural, Debug)]
pub struct TcpListenerResource {
    /// The endpoint the listener is bound to.
    pub local: SocketAddress,
}

/// A connected byte stream, as the plain values the host reads of it:
/// the peer it is connected to. Reading and writing bytes is the
/// external transport layer's work.
#[derive(Clone, Copy, PartialEq, Eq, Structural, Debug)]
pub struct TcpStreamResource {
    /// The endpoint of the connected peer.
    pub peer: SocketAddress,
}

/// A datagram socket, as the plain values the host reads of it: the
/// local endpoint it is bound to. Sending and receiving datagrams is
/// the external transport layer's work.
#[derive(Clone, Copy, PartialEq, Eq, Structural, Debug)]
pub struct UdpSocketResource {
    /// The endpoint the socket is bound to.
    pub local: SocketAddress,
}

} // verus!
