use vstd::prelude::*;
use vstd::string::*;
use crate::format::{decimal, decimal_text};

verus! {

/// `host:port`, the port in decimal.
pub open spec fn socket_address(host: Seq<char>, port: u16) -> Seq<char> {
    host + seq![':'] + decimal(port as int)
}

/// The local host that a receiver binds: IPv6 loopback or IPv4 any.
pub open spec fn local_host(ipv6: bool) -> Seq<char> {
    if ipv6 {
        "[::1]"@
    } else {
        "0.0.0.0"@
    }
}

fn local_host_str(ipv6: bool) -> (r: &'static str)
    ensures
        r@ == local_host(ipv6),
{
    if ipv6 {
        "[::1]"
    } else {
        "0.0.0.0"
    }
}

fn socket_address_string(host: &str, port: u16) -> (r: String)
    ensures
        r@ == socket_address(host@, port),
{
    let mut r = String::from_str(host);
    r.append(":");
    let p = decimal_text(port as i64);
    r.append(p.as_str());
    proof {
        reveal_strlit(":");
        assert(":"@ =~= seq![':']);
        assert(r@ =~= socket_address(host@, port));
    }
    r
}

/// The configuration of a receiver.
#[derive(Clone, Copy, Debug, PartialEq, Eq)]
pub struct OscReceiverPlugin {
    /// The port to receive on.
    pub port: u16,
    /// Whether to bind IPv6 rather than IPv4.
    pub use_ipv6: bool,
    /// Whether to read on a dedicated thread; otherwise a cooperative
    /// poller is used.
    pub use_thread: bool,
    /// Whether to print a debug line for each message.
    pub debug_print: bool,
}

impl Default for OscReceiverPlugin {
    /// Port 1234, IPv4, threaded, without debug lines.
    fn default() -> (r: Self)
        ensures
            r.port == 1234,
            r.use_thread,
            !r.use_ipv6,
            !r.debug_print,
    {
        OscReceiverPlugin { port: 1234, use_thread: true, use_ipv6: false, debug_print: false }
    }
}

impl OscReceiverPlugin {
    pub fn new(port: u16, use_thread: bool, use_ipv6: bool, debug_print: bool) -> (r: Self)
        ensures
            r == (OscReceiverPlugin { port, use_ipv6, use_thread, debug_print }),
    {
        OscReceiverPlugin { port, use_thread, use_ipv6, debug_print }
    }

    pub fn new_ipv4(port: u16, use_thread: bool, debug_print: bool) -> (r: Self)
        ensures
            r == (OscReceiverPlugin { port, use_ipv6: false, use_thread, debug_print }),
    {
        OscReceiverPlugin { port, use_thread, use_ipv6: false, debug_print }
    }

    pub fn new_ipv6(port: u16, use_thread: bool, debug_print: bool) -> (r: Self)
        ensures
            r == (OscReceiverPlugin { port, use_ipv6: true, use_thread, debug_print }),
    {
        OscReceiverPlugin { port, use_thread, use_ipv6: true, debug_print }
    }

    /// The address to bind: `[::1]:port` for IPv6, `0.0.0.0:port` for IPv4.
    pub fn listen_address(&self) -> (r: String)
        ensures
            r@ == socket_address(local_host(self.use_ipv6), self.port),
    {
        socket_address_string(local_host_str(self.use_ipv6), self.port)
    }

    /// The receiver that this configuration sets up.
    pub fn receiver(&self) -> (r: OscReceiver)
        ensures
            r == (OscReceiver {
                port: self.port,
                debug_print: self.debug_print,
                using_ipv6: self.use_ipv6,
            }),
    {
        OscReceiver { port: self.port, debug_print: self.debug_print, using_ipv6: self.use_ipv6 }
    }
}

/// A receiver as set up: its port, address family and debug switch. The
/// bound socket is held beside it by the host.
#[derive(Clone, Copy, Debug, PartialEq, Eq)]
pub struct OscReceiver {
    pub port: u16,
    pub debug_print: bool,
    pub using_ipv6: bool,
}

/// Whether a host names an IPv6 address: it holds a colon.
pub fn is_ipv6_addr(host: &str) -> (r: bool)
    ensures
        r == host@.contains(':'),
{
    let n = host.unicode_len();
    let mut i: usize = 0;
    while i < n
        invariant
            n == host@.len(),
            i <= n,
            forall|k: int| 0 <= k < i ==> host@[k] != ':',
        decreases n - i,
    {
        if host.get_char(i) == ':' {
            return true;
        }
        i += 1;
    }
    false
}

/// Where a sender sends: a host and a port.
#[derive(Debug, PartialEq)]
pub struct OscSender {
    /// The host to send to (an IPv4 or IPv6 address, or a name).
    pub host: String,
    /// The port to send to.
    pub port: u16,
    /// Whether the host is IPv6.
    pub ipv6: bool,
}

impl Default for OscSender {
    /// 127.0.0.1, port 1234, IPv4.
    fn default() -> (r: Self)
        ensures
            r.host@ == "127.0.0.1"@,
            r.port == 1234,
            !r.ipv6,
    {
        OscSender { host: String::from_str("127.0.0.1"), port: 1234, ipv6: false }
    }
}

impl OscSender {
    /// A sender to `host:port`; IPv6 exactly when the host holds a colon.
    pub fn new(host: &str, port: u16) -> (r: Self)
        ensures
            r.host@ == host@,
            r.port == port,
            r.ipv6 == host@.contains(':'),
    {
        OscSender { host: String::from_str(host), port, ipv6: is_ipv6_addr(host) }
    }

    /// The destination address: `host:port`.
    pub fn destination(&self) -> (r: String)
        ensures
            r@ == socket_address(self.host@, self.port),
    {
        socket_address_string(self.host.as_str(), self.port)
    }

    /// The local address to send from: any port of IPv6 loopback or of IPv4
    /// any, by the destination's family.
    pub fn bind_address(&self) -> (r: String)
        ensures
            r@ == socket_address(local_host(self.ipv6), 0),
    {
        socket_address_string(local_host_str(self.ipv6), 0)
    }
}

} // verus!
