//! The addresses the service listens on: gossip, HTTP and control.

use vstd::prelude::*;
use crate::env_config::EnvConfig;
use crate::net::{
    loopback_v4, spec_is_loopback, spec_is_unspecified, unspecified_v4, IpAddress, Ipv4Address,
    SocketAddress,
};

verus! {

/// Where this node's gossip traffic is received.
#[derive(Clone, Copy, Debug, PartialEq, Eq, Structural)]
pub struct GossipListenAddr(pub SocketAddress);

/// The gossip port used unless configured otherwise.
pub const GOSSIP_DEFAULT_PORT: u16 = 9638;

/// The HTTP gateway port used unless configured otherwise.
pub const HTTP_DEFAULT_PORT: u16 = 9631;

/// The control port used unless configured otherwise.
pub const CTL_DEFAULT_PORT: u16 = 9632;

/// `0.0.0.0:9638`.
pub open spec fn gossip_default() -> GossipListenAddr {
    GossipListenAddr(SocketAddress { ip: unspecified_v4(), port: GOSSIP_DEFAULT_PORT })
}

/// `127.0.0.2:9638`, the address of gossip scoped to this node alone.
pub open spec fn gossip_local_only() -> GossipListenAddr {
    GossipListenAddr(
        SocketAddress { ip: IpAddress::V4(Ipv4Address(127, 0, 0, 2)), port: GOSSIP_DEFAULT_PORT },
    )
}

/// The address at which a server bound to `a` reaches itself: the loopback
/// address in place of an unspecified one, on the same port.
pub open spec fn gossip_local_addr(a: GossipListenAddr) -> GossipListenAddr {
    if spec_is_unspecified(a.0.ip) {
        GossipListenAddr(SocketAddress { ip: loopback_v4(), port: a.0.port })
    } else {
        a
    }
}

/// The default gossip address is unspecified and its local address is the
/// loopback address on the same port; an address bound to a specific IP is
/// its own local address.
pub proof fn lemma_gossip_local_addr(a: GossipListenAddr)
    ensures
        spec_is_unspecified(gossip_default().0.ip),
        spec_is_loopback(gossip_local_addr(gossip_default()).0.ip),
        gossip_local_addr(gossip_default()).0.port == gossip_default().0.port,
        !spec_is_unspecified(a.0.ip) ==> gossip_local_addr(a) == a,
        !spec_is_unspecified(a.0.ip) && !spec_is_loopback(a.0.ip) ==> !spec_is_loopback(
            gossip_local_addr(a).0.ip,
        ),
{
}

impl GossipListenAddr {
    pub const DEFAULT_PORT: u16 = GOSSIP_DEFAULT_PORT;

    /// The environment variable that configures this address.
    pub const ENVVAR: &'static str = "HAB_LISTEN_GOSSIP";

    /// Gossip that only this node takes part in listens on `127.0.0.2`, so
    /// that it ignores connections to `127.0.0.1`.
    pub fn local_only() -> (r: GossipListenAddr)
        ensures
            r == gossip_local_only(),
            r.0.ip != loopback_v4(),
            r.0.port == Self::DEFAULT_PORT,
    {
        GossipListenAddr(SocketAddress::new(IpAddress::v4(127, 0, 0, 2), Self::DEFAULT_PORT))
    }

    /// The address at which a server configured with this address can
    /// reach itself: `0.0.0.0` (or `::`) becomes `127.0.0.1`; a specific
    /// address stays as it is.
    pub fn local_addr(&self) -> (r: GossipListenAddr)
        ensures
            r == gossip_local_addr(*self),
    {
        let mut addr = *self;
        if addr.0.ip.is_unspecified() {
            addr.0.ip = IpAddress::loopback();
        }
        addr
    }

    /// The socket address this value denotes.
    pub fn socket_addr(&self) -> (r: SocketAddress)
        ensures
            r == self.0,
    {
        self.0
    }

    pub fn ip(&self) -> (r: IpAddress)
        ensures
            r == self.0.ip,
    {
        self.0.ip
    }

    pub fn port(&self) -> (r: u16)
        ensures
            r == self.0.port,
    {
        self.0.port
    }

    /// Binds to another IP, on the same port.
    pub fn set_ip(&mut self, ip: IpAddress)
        ensures
            final(self).0 == (SocketAddress { ip, port: old(self).0.port }),
    {
        self.0.ip = ip;
    }

    /// Binds to another port, on the same IP.
    pub fn set_port(&mut self, port: u16)
        ensures
            final(self).0 == (SocketAddress { ip: old(self).0.ip, port }),
    {
        self.0.port = port;
    }
}

impl Default for GossipListenAddr {
    fn default() -> (r: GossipListenAddr)
        ensures
            r == gossip_default(),
    {
        GossipListenAddr(SocketAddress::new(IpAddress::unspecified(), GOSSIP_DEFAULT_PORT))
    }
}

impl EnvConfig for GossipListenAddr {
    open spec fn spec_default() -> GossipListenAddr {
        gossip_default()
    }

    fn envvar() -> &'static str {
        Self::ENVVAR
    }

    fn default_value() -> (r: GossipListenAddr) {
        GossipListenAddr::default()
    }
}

/// Where the HTTP gateway listens.
#[derive(Clone, Copy, Debug, PartialEq, Eq, Structural)]
pub struct HttpListenAddr(pub SocketAddress);

/// `0.0.0.0:9631`.
pub open spec fn http_default() -> HttpListenAddr {
    HttpListenAddr(SocketAddress { ip: unspecified_v4(), port: HTTP_DEFAULT_PORT })
}

impl HttpListenAddr {
    pub const DEFAULT_PORT: u16 = HTTP_DEFAULT_PORT;

    /// The environment variable that configures this address.
    pub const ENVVAR: &'static str = "HAB_LISTEN_HTTP";

    pub fn new(ip: IpAddress, port: u16) -> (r: HttpListenAddr)
        ensures
            r.0 == (SocketAddress { ip, port }),
    {
        HttpListenAddr(SocketAddress::new(ip, port))
    }

    /// The socket address this value denotes.
    pub fn socket_addr(&self) -> (r: SocketAddress)
        ensures
            r == self.0,
    {
        self.0
    }

    pub fn ip(&self) -> (r: IpAddress)
        ensures
            r == self.0.ip,
    {
        self.0.ip
    }

    pub fn port(&self) -> (r: u16)
        ensures
            r == self.0.port,
    {
        self.0.port
    }

    /// Binds to another IP, on the same port.
    pub fn set_ip(&mut self, ip: IpAddress)
        ensures
            final(self).0 == (SocketAddress { ip, port: old(self).0.port }),
    {
        self.0.ip = ip;
    }

    /// Binds to another port, on the same IP.
    pub fn set_port(&mut self, port: u16)
        ensures
            final(self).0 == (SocketAddress { ip: old(self).0.ip, port }),
    {
        self.0.port = port;
    }
}

impl Default for HttpListenAddr {
    fn default() -> (r: HttpListenAddr)
        ensures
            r == http_default(),
    {
        HttpListenAddr(SocketAddress::new(IpAddress::unspecified(), HTTP_DEFAULT_PORT))
    }
}

impl EnvConfig for HttpListenAddr {
    open spec fn spec_default() -> HttpListenAddr {
        http_default()
    }

    fn envvar() -> &'static str {
        Self::ENVVAR
    }

    fn default_value() -> (r: HttpListenAddr) {
        HttpListenAddr::default()
    }
}

/// Where the control gateway listens, an IPv4 address.
#[derive(Clone, Copy, Debug, PartialEq, Eq, Structural)]
pub struct ListenCtlAddr(pub SocketAddress);

/// `127.0.0.1:9632`.
pub open spec fn ctl_default() -> ListenCtlAddr {
    ListenCtlAddr(SocketAddress { ip: loopback_v4(), port: CTL_DEFAULT_PORT })
}

impl ListenCtlAddr {
    pub const DEFAULT_PORT: u16 = CTL_DEFAULT_PORT;

    /// The environment variable that configures this address.
    pub const ENVVAR: &'static str = "HAB_LISTEN_CTL";

    pub fn new(ip: Ipv4Address, port: u16) -> (r: ListenCtlAddr)
        ensures
            r.0 == (SocketAddress { ip: IpAddress::V4(ip), port }),
    {
        ListenCtlAddr(SocketAddress::new(IpAddress::V4(ip), port))
    }

    pub fn ip(&self) -> (r: IpAddress)
        ensures
            r == self.0.ip,
    {
        self.0.ip
    }

    pub fn port(&self) -> (r: u16)
        ensures
            r == self.0.port,
    {
        self.0.port
    }

    /// The socket address this value denotes.
    pub fn socket_addr(&self) -> (r: SocketAddress)
        ensures
            r == self.0,
    {
        self.0
    }
}

impl Default for ListenCtlAddr {
    fn default() -> (r: ListenCtlAddr)
        ensures
            r == ctl_default(),
    {
        ListenCtlAddr(SocketAddress::new(IpAddress::loopback(), CTL_DEFAULT_PORT))
    }
}

impl EnvConfig for ListenCtlAddr {
    open spec fn spec_default() -> ListenCtlAddr {
        ctl_default()
    }

    fn envvar() -> &'static str {
        Self::ENVVAR
    }

    fn default_value() -> (r: ListenCtlAddr) {
        ListenCtlAddr::default()
    }
}

} // verus!
