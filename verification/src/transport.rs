//! Planning a client's connection: which local and server ports it uses,
//! which transport link it opens and what certificate digest it checks.

use crate::config::{
    ClientTransport, PROTOCOL_ID, SERVER_UDP_PORT, SERVER_WEBSOCKET_PORT,
    SERVER_WEBTRANSPORT_PORT,
};
use crate::decimal::push_char;
use vstd::prelude::*;

verus! {

/// Transport chosen on a client's command line.
#[derive(Clone, Copy, Debug, PartialEq, Eq, Hash, Structural)]
pub enum TransportArg {
    Udp,
    Webtransport,
    Websocket,
    /// In-process connection of a host client.
    Local,
}

impl TransportArg {
    /// The server port a client over this transport connects to; a local
    /// connection has none.
    pub open spec fn spec_server_port(self) -> Option<u16> {
        match self {
            TransportArg::Udp => Some(SERVER_UDP_PORT),
            TransportArg::Webtransport => Some(SERVER_WEBTRANSPORT_PORT),
            TransportArg::Websocket => Some(SERVER_WEBSOCKET_PORT),
            TransportArg::Local => None,
        }
    }

    /// The name given to the client link opened over this transport.
    pub open spec fn spec_link_name(self) -> Seq<char> {
        match self {
            TransportArg::Udp => "UdpClient"@,
            TransportArg::Webtransport => "WebTransportClient"@,
            TransportArg::Websocket => "WebSocketClient"@,
            TransportArg::Local => "LocalClient"@,
        }
    }

    /// The command-line transport that corresponds to a launcher transport.
    pub open spec fn spec_from_client_transport(t: ClientTransport) -> TransportArg {
        match t {
            ClientTransport::Udp => TransportArg::Udp,
            ClientTransport::WebTransport => TransportArg::Webtransport,
            ClientTransport::WebSocket => TransportArg::Websocket,
        }
    }

    pub fn server_port(&self) -> (r: Option<u16>)
        ensures
            r == self.spec_server_port(),
    {
        match self {
            TransportArg::Udp => Some(SERVER_UDP_PORT),
            TransportArg::Webtransport => Some(SERVER_WEBTRANSPORT_PORT),
            TransportArg::Websocket => Some(SERVER_WEBSOCKET_PORT),
            TransportArg::Local => None,
        }
    }

    pub fn link_name(&self) -> (r: &'static str)
        ensures
            r@ == self.spec_link_name(),
    {
        match self {
            TransportArg::Udp => "UdpClient",
            TransportArg::Webtransport => "WebTransportClient",
            TransportArg::Websocket => "WebSocketClient",
            TransportArg::Local => "LocalClient",
        }
    }

    /// Whether a client over this transport must be given the server's
    /// certificate digest.
    pub fn requires_certificate(&self) -> (r: bool)
        ensures
            r == (*self == TransportArg::Webtransport),
    {
        match self {
            TransportArg::Webtransport => true,
            _ => false,
        }
    }

    pub fn from_client_transport(t: ClientTransport) -> (r: TransportArg)
        ensures
            r == Self::spec_from_client_transport(t),
    {
        match t {
            ClientTransport::Udp => TransportArg::Udp,
            ClientTransport::WebTransport => TransportArg::Webtransport,
            ClientTransport::WebSocket => TransportArg::Websocket,
        }
    }
}

/// The local port a client with id `client_id` binds: 4000 plus the id's
/// last two decimal digits.
pub open spec fn spec_client_port(client_id: u64) -> u16 {
    (4000 + client_id % 100) as u16
}

pub fn client_port(client_id: u64) -> (port: u16)
    ensures
        port == spec_client_port(client_id),
        4000 <= port < 4100,
{
    4000 + (client_id % 100) as u16
}

/// `s` with every `:` removed, the rest in order.
pub open spec fn without_colons(s: Seq<char>) -> Seq<char>
    decreases s.len(),
{
    if s.len() == 0 {
        s
    } else if s.last() == ':' {
        without_colons(s.drop_last())
    } else {
        without_colons(s.drop_last()).push(s.last())
    }
}

/// A certificate digest as printed by the server (hex pairs that may be
/// joined by `:`) in the form the WebTransport client expects: all `:`
/// removed.
pub fn strip_digest_separators(raw: &str) -> (r: String)
    ensures
        r@ == without_colons(raw@),
        r@ == raw@.filter(|c: char| c != ':'),
{
    proof {
        law_strip_removes_only_colons(raw@);
    }
    let n = raw.unicode_len();
    let mut out = String::new();
    let mut i: usize = 0;
    assert(raw@.subrange(0, 0) =~= Seq::<char>::empty());
    while i < n
        invariant
            i <= n,
            n == raw@.len(),
            out@ == without_colons(raw@.subrange(0, i as int)),
        decreases n - i,
    {
        let c = raw.get_char(i);
        let ghost prev = raw@.subrange(0, i as int);
        assert(raw@.subrange(0, i + 1).drop_last() =~= prev);
        if c != ':' {
            push_char(&mut out, c);
        }
        i = i + 1;
    }
    assert(raw@.subrange(0, n as int) =~= raw@);
    out
}

/// A client started from the launcher connects to the same server port as
/// the launcher shows for its transport, and binds a local port from 4000
/// to 4099 that only the id's last two decimal digits decide.
pub proof fn law_client_ports(t: ClientTransport, a: u64, b: u64)
    ensures
        TransportArg::spec_from_client_transport(t).spec_server_port() == Some(
            t.spec_default_port(),
        ),
        4000 <= spec_client_port(a) < 4100,
        spec_client_port(a) == spec_client_port(b) <==> a % 100 == b % 100,
{
}

/// A stripped digest holds no `:`, and stripping it again changes nothing.
pub proof fn law_stripped_digest_clean(s: Seq<char>)
    ensures
        !without_colons(s).contains(':'),
        without_colons(without_colons(s)) == without_colons(s),
    decreases s.len(),
{
    if s.len() > 0 {
        law_stripped_digest_clean(s.drop_last());
        let w = without_colons(s.drop_last());
        if s.last() != ':' {
            let v = w.push(s.last());
            assert(v.drop_last() =~= w);
            assert forall|i: int| 0 <= i < v.len() implies v[i] != ':' by {
                if i < w.len() {
                    assert(v[i] == w[i]);
                }
            };
        }
    }
}

/// Stripping removes every `:` and nothing else: the result is the text's
/// characters other than `:`, all of them, in their order.
pub proof fn law_strip_removes_only_colons(s: Seq<char>)
    ensures
        without_colons(s) == s.filter(|c: char| c != ':'),
    decreases s.len(),
{
    reveal(Seq::filter);
    if s.len() > 0 {
        law_strip_removes_only_colons(s.drop_last());
    }
}

/// A client id drawn from a clock reading in nanoseconds: the reading cut to
/// 64 bits, then reduced below 100000.
pub open spec fn spec_client_id_from_nanos(nanos: u128) -> u64 {
    ((nanos % 0x1_0000_0000_0000_0000) % 100000) as u64
}

pub fn client_id_from_nanos(nanos: u128) -> (id: u64)
    ensures
        id == spec_client_id_from_nanos(nanos),
        id < 100000,
{
    let low = (nanos % 0x1_0000_0000_0000_0000u128) as u64;
    low % 100000
}

/// Everything a client needs to open its connection.
pub struct ConnectionPlan {
    pub client_id: u64,
    pub client_port: u16,
    pub server_port: u16,
    pub protocol_id: u64,
    /// The digest to check the server certificate against (WebTransport).
    pub certificate_digest: Option<String>,
    pub link_name: &'static str,
}

/// The connection a client opens over `transport` (not a local one), given
/// its id and the certificate digest passed on the command line, which
/// WebTransport requires.
pub fn plan_connection(client_id: u64, transport: TransportArg, cert: Option<String>) -> (plan:
    ConnectionPlan)
    requires
        transport != TransportArg::Local,
        transport == TransportArg::Webtransport ==> cert is Some,
    ensures
        plan.client_id == client_id,
        plan.client_port == spec_client_port(client_id),
        Some(plan.server_port) == transport.spec_server_port(),
        plan.protocol_id == PROTOCOL_ID,
        plan.link_name@ == transport.spec_link_name(),
        transport == TransportArg::Webtransport ==> plan.certificate_digest is Some
            && plan.certificate_digest->0@ == without_colons(cert->0@),
        transport != TransportArg::Webtransport ==> plan.certificate_digest is None,
{
    let server_port = match transport.server_port() {
        Some(p) => p,
        None => 0,
    };
    let certificate_digest = match transport {
        TransportArg::Webtransport => match cert {
            Some(raw) => Some(strip_digest_separators(raw.as_str())),
            None => None,
        },
        _ => None,
    };
    ConnectionPlan {
        client_id,
        client_port: client_port(client_id),
        server_port,
        protocol_id: PROTOCOL_ID,
        certificate_digest,
        link_name: transport.link_name(),
    }
}

} // verus!
