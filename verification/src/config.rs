//! Launcher configuration: which example to run, in which networking mode,
//! over which client transport, and with which server transports enabled.

use crate::decimal::{parse_u64, spec_parse_u64};
use vstd::prelude::*;

verus! {

/// UDP port the servers listen on.
pub const SERVER_UDP_PORT: u16 = 5000;

/// WebTransport port the servers listen on.
pub const SERVER_WEBTRANSPORT_PORT: u16 = 5001;

/// WebSocket port the servers listen on.
pub const SERVER_WEBSOCKET_PORT: u16 = 5002;

/// Simulation rate of every example, in ticks per second.
pub const FIXED_TIMESTEP_HZ: u64 = 64;

/// Length of one simulation tick in nanoseconds (exactly 1/64 s).
pub const TICK_DURATION_NANOS: u64 = 1_000_000_000 / FIXED_TIMESTEP_HZ;

/// Port a client binds locally (0: let the system pick).
pub const CLIENT_PORT: u16 = 0;

/// Netcode protocol identifier shared by clients and servers.
pub const PROTOCOL_ID: u64 = 0;

/// Interval between two replication sends of a server, in milliseconds.
pub const SERVER_REPLICATION_INTERVAL_MILLIS: u64 = 100;

/// Port on which a lobby client serves when it becomes the host.
pub const HOST_SERVER_PORT: u16 = 5050;

/// Input delay, in ticks, of the deterministic replication example.
pub const INPUT_DELAY_TICKS: u16 = 0;

/// Whether a text reads as an IPv4 or IPv6 address, as
/// `<core::net::IpAddr as FromStr>` reads it.
pub uninterp spec fn spec_ip_parses(s: Seq<char>) -> bool;

/// Reads `s` as an IP address (`core::net::IpAddr::from_str`) and tells
/// whether that succeeded. The outcome is named, not spelled out: it depends
/// on `s` alone, and the grammar of IPv4 and IPv6 addresses is left to the
/// standard library.
#[verifier::external_body]
fn ip_parses(s: &str) -> (b: bool)
    ensures
        b == spec_ip_parses(s@),
{
    s.parse::<core::net::IpAddr>().is_ok()
}

/// A fresh random number (`rand::random::<u64>()`); nothing is promised of
/// its value. The call panics only if the operating system's random source
/// cannot be initialised.
#[verifier::external_body]
fn random_u64() -> u64 {
    rand::random::<u64>()
}

/// Whether two texts are the same sequence of characters.
pub fn text_equals(a: &str, b: &str) -> (r: bool)
    ensures
        r == (a@ == b@),
{
    let x: String = a.to_owned();
    let y: String = b.to_owned();
    x.eq(&y)
}

/// The examples the launcher can start.
#[derive(Clone, Copy, Debug, PartialEq, Eq, Hash, Structural)]
pub enum Example {
    SimpleBox,
}

impl Example {
    /// The name shown for the example.
    pub open spec fn spec_name(self) -> Seq<char> {
        match self {
            Example::SimpleBox => "SimpleBox"@,
        }
    }

    /// Every example, in declaration order.
    pub open spec fn spec_all() -> Seq<Example> {
        seq![Example::SimpleBox]
    }

    pub fn name(&self) -> (r: &'static str)
        ensures
            r@ == self.spec_name(),
    {
        match self {
            Example::SimpleBox => "SimpleBox",
        }
    }

    pub fn all() -> (v: Vec<Example>)
        ensures
            v@ == Self::spec_all(),
    {
        let v = vec![Example::SimpleBox];
        assert(v@ =~= Self::spec_all());
        v
    }
}

impl Default for Example {
    fn default() -> (r: Self)
        ensures
            r == Example::SimpleBox,
    {
        Example::SimpleBox
    }
}

/// Networking mode of an instance.
#[derive(Clone, Copy, Debug, PartialEq, Eq, Hash, Structural)]
pub enum NetworkingMode {
    ClientOnly,
    ServerOnly,
    HostServer,
}

impl NetworkingMode {
    /// The name of the mode, which is also what `from_name` reads.
    pub open spec fn spec_name(self) -> Seq<char> {
        match self {
            NetworkingMode::ClientOnly => "ClientOnly"@,
            NetworkingMode::ServerOnly => "ServerOnly"@,
            NetworkingMode::HostServer => "HostServer"@,
        }
    }

    /// The mode whose name is exactly `s`, if any.
    pub open spec fn spec_from_name(s: Seq<char>) -> Option<NetworkingMode> {
        if s == "ClientOnly"@ {
            Some(NetworkingMode::ClientOnly)
        } else if s == "ServerOnly"@ {
            Some(NetworkingMode::ServerOnly)
        } else if s == "HostServer"@ {
            Some(NetworkingMode::HostServer)
        } else {
            None
        }
    }

    /// Every mode, in declaration order.
    pub open spec fn spec_all() -> Seq<NetworkingMode> {
        seq![NetworkingMode::ClientOnly, NetworkingMode::ServerOnly, NetworkingMode::HostServer]
    }

    /// The mode runs a client (so it needs client settings).
    pub open spec fn spec_runs_client(self) -> bool {
        self == NetworkingMode::ClientOnly || self == NetworkingMode::HostServer
    }

    /// The mode runs a server (so it needs server settings).
    pub open spec fn spec_runs_server(self) -> bool {
        self == NetworkingMode::ServerOnly || self == NetworkingMode::HostServer
    }

    pub fn name(&self) -> (r: &'static str)
        ensures
            r@ == self.spec_name(),
    {
        match self {
            NetworkingMode::ClientOnly => "ClientOnly",
            NetworkingMode::ServerOnly => "ServerOnly",
            NetworkingMode::HostServer => "HostServer",
        }
    }

    /// Reads a mode from its exact name.
    pub fn from_name(s: &str) -> (r: Option<NetworkingMode>)
        ensures
            r == Self::spec_from_name(s@),
    {
        if text_equals(s, "ClientOnly") {
            Some(NetworkingMode::ClientOnly)
        } else if text_equals(s, "ServerOnly") {
            Some(NetworkingMode::ServerOnly)
        } else if text_equals(s, "HostServer") {
            Some(NetworkingMode::HostServer)
        } else {
            None
        }
    }

    pub fn all() -> (v: Vec<NetworkingMode>)
        ensures
            v@ == Self::spec_all(),
    {
        let v = vec![NetworkingMode::ClientOnly, NetworkingMode::ServerOnly, NetworkingMode::HostServer];
        assert(v@ =~= Self::spec_all());
        v
    }

    /// Whether the client settings apply to this mode.
    pub fn runs_client(&self) -> (r: bool)
        ensures
            r == self.spec_runs_client(),
    {
        match self {
            NetworkingMode::ClientOnly => true,
            NetworkingMode::ServerOnly => false,
            NetworkingMode::HostServer => true,
        }
    }

    /// Whether the server settings apply to this mode.
    pub fn runs_server(&self) -> (r: bool)
        ensures
            r == self.spec_runs_server(),
    {
        match self {
            NetworkingMode::ClientOnly => false,
            NetworkingMode::ServerOnly => true,
            NetworkingMode::HostServer => true,
        }
    }
}

impl Default for NetworkingMode {
    fn default() -> (r: Self)
        ensures
            r == NetworkingMode::ServerOnly,
    {
        NetworkingMode::ServerOnly
    }
}

/// Client transport selection.
#[derive(Clone, Copy, Debug, PartialEq, Eq, Hash, Structural)]
pub enum ClientTransport {
    Udp,
    WebTransport,
    WebSocket,
}

impl ClientTransport {
    /// The server port that a client using this transport connects to.
    pub open spec fn spec_default_port(self) -> u16 {
        match self {
            ClientTransport::Udp => SERVER_UDP_PORT,
            ClientTransport::WebTransport => SERVER_WEBTRANSPORT_PORT,
            ClientTransport::WebSocket => SERVER_WEBSOCKET_PORT,
        }
    }

    pub fn default_port(&self) -> (port: u16)
        ensures
            port == self.spec_default_port(),
    {
        match self {
            ClientTransport::Udp => SERVER_UDP_PORT,
            ClientTransport::WebTransport => SERVER_WEBTRANSPORT_PORT,
            ClientTransport::WebSocket => SERVER_WEBSOCKET_PORT,
        }
    }
}

impl ClientTransport {
    /// The name shown for the transport.
    pub open spec fn spec_name(self) -> Seq<char> {
        match self {
            ClientTransport::Udp => "Udp"@,
            ClientTransport::WebTransport => "WebTransport"@,
            ClientTransport::WebSocket => "WebSocket"@,
        }
    }

    /// Every transport, in declaration order.
    pub open spec fn spec_all() -> Seq<ClientTransport> {
        seq![ClientTransport::Udp, ClientTransport::WebTransport, ClientTransport::WebSocket]
    }

    pub fn name(&self) -> (r: &'static str)
        ensures
            r@ == self.spec_name(),
    {
        match self {
            ClientTransport::Udp => "Udp",
            ClientTransport::WebTransport => "WebTransport",
            ClientTransport::WebSocket => "WebSocket",
        }
    }

    pub fn all() -> (v: Vec<ClientTransport>)
        ensures
            v@ == Self::spec_all(),
    {
        let v = vec![ClientTransport::Udp, ClientTransport::WebTransport, ClientTransport::WebSocket];
        assert(v@ =~= Self::spec_all());
        v
    }
}

impl Default for ClientTransport {
    fn default() -> (r: Self)
        ensures
            r == ClientTransport::Udp,
    {
        ClientTransport::Udp
    }
}

/// Which kind of app an instance launches.
#[derive(Clone, Copy, Debug, PartialEq, Eq, Structural)]
pub enum LaunchKind {
    Client,
    Server,
    /// A server and a client in the same process.
    HostServer,
}

/// The server half of a launch: the example and the transports it listens
/// on.
#[derive(Clone, Copy, Debug, PartialEq, Eq, Structural)]
pub struct ServerLaunch {
    pub example: Example,
    pub enable_udp: bool,
    pub enable_webtransport: bool,
    pub enable_websocket: bool,
}

/// The client half of a launch: the example, the client's id, its transport
/// and the server port that transport connects to.
#[derive(Clone, Copy, Debug, PartialEq, Eq, Structural)]
pub struct ClientLaunch {
    pub example: Example,
    pub client_id: u64,
    pub transport: ClientTransport,
    pub server_port: u16,
}

/// What one launched process runs: a server, a client, or both.
#[derive(Clone, Copy, Debug, PartialEq, Eq, Structural)]
pub struct LaunchPlan {
    pub server: Option<ServerLaunch>,
    pub client: Option<ClientLaunch>,
}

/// The launcher's full configuration. The tick duration is held in
/// nanoseconds.
#[derive(Clone, Debug)]
pub struct LauncherConfig {
    pub example: Example,
    pub mode: NetworkingMode,
    pub client_transport: ClientTransport,
    pub client_id: u64,
    pub server_ip: String,
    pub tick_duration_nanos: u64,
    pub enable_udp: bool,
    pub enable_webtransport: bool,
    pub enable_websocket: bool,
    pub udp_port: u16,
    pub webtransport_port: u16,
    pub websocket_port: u16,
}

impl LauncherConfig {
    /// Every setting but the client id holds its default: the first example,
    /// server-only mode over UDP, the loopback server address, the fixed
    /// tick, and all three server transports enabled on their usual ports.
    pub open spec fn has_default_settings(self) -> bool {
        &&& self.example == Example::SimpleBox
        &&& self.mode == NetworkingMode::ServerOnly
        &&& self.client_transport == ClientTransport::Udp
        &&& self.server_ip@ == "127.0.0.1"@
        &&& self.tick_duration_nanos == TICK_DURATION_NANOS
        &&& self.enable_udp
        &&& self.enable_webtransport
        &&& self.enable_websocket
        &&& self.udp_port == SERVER_UDP_PORT
        &&& self.webtransport_port == SERVER_WEBTRANSPORT_PORT
        &&& self.websocket_port == SERVER_WEBSOCKET_PORT
    }

    /// At least one server transport is enabled.
    pub open spec fn spec_any_transport_enabled(self) -> bool {
        self.enable_udp || self.enable_webtransport || self.enable_websocket
    }

    /// Validity for the selected mode, given whether the server address text
    /// reads as an IP address: a client needs a valid server address, a
    /// server needs a transport, a host server needs both.
    pub open spec fn spec_is_valid(self, server_ip_parses: bool) -> bool {
        match self.mode {
            NetworkingMode::ClientOnly => server_ip_parses,
            NetworkingMode::ServerOnly => self.spec_any_transport_enabled(),
            NetworkingMode::HostServer => server_ip_parses && self.spec_any_transport_enabled(),
        }
    }

    /// `other` has the same settings as `self` except possibly the mode,
    /// the client transport and the client id.
    pub open spec fn same_except_launch(self, other: LauncherConfig) -> bool {
        &&& other.example == self.example
        &&& other.server_ip@ == self.server_ip@
        &&& other.tick_duration_nanos == self.tick_duration_nanos
        &&& other.enable_udp == self.enable_udp
        &&& other.enable_webtransport == self.enable_webtransport
        &&& other.enable_websocket == self.enable_websocket
        &&& other.udp_port == self.udp_port
        &&& other.webtransport_port == self.webtransport_port
        &&& other.websocket_port == self.websocket_port
    }

    /// The kind of app that an instance in mode `mode` runs; a host server
    /// runs a server and a client in one process.
    pub open spec fn spec_launch_kind(mode: NetworkingMode) -> LaunchKind {
        match mode {
            NetworkingMode::ClientOnly => LaunchKind::Client,
            NetworkingMode::ServerOnly => LaunchKind::Server,
            NetworkingMode::HostServer => LaunchKind::HostServer,
        }
    }

    /// The server this configuration runs when its mode runs one.
    pub open spec fn spec_server_launch(self) -> ServerLaunch {
        ServerLaunch {
            example: self.example,
            enable_udp: self.enable_udp,
            enable_webtransport: self.enable_webtransport,
            enable_websocket: self.enable_websocket,
        }
    }

    /// The client this configuration runs when its mode runs one.
    pub open spec fn spec_client_launch(self) -> ClientLaunch {
        ClientLaunch {
            example: self.example,
            client_id: self.client_id,
            transport: self.client_transport,
            server_port: self.client_transport.spec_default_port(),
        }
    }

    /// What the process launched from this configuration runs: a server
    /// when the mode runs one, a client when the mode runs one.
    pub open spec fn spec_launch_plan(self) -> LaunchPlan {
        LaunchPlan {
            server: if self.mode.spec_runs_server() {
                Some(self.spec_server_launch())
            } else {
                None
            },
            client: if self.mode.spec_runs_client() {
                Some(self.spec_client_launch())
            } else {
                None
            },
        }
    }

    /// The default configuration with the client id drawn from `seed`
    /// (reduced below 1000).
    pub fn with_client_seed(seed: u64) -> (c: LauncherConfig)
        ensures
            c.has_default_settings(),
            c.client_id == seed % 1000,
    {
        LauncherConfig {
            example: Example::SimpleBox,
            mode: NetworkingMode::ServerOnly,
            client_transport: ClientTransport::Udp,
            client_id: seed % 1000,
            server_ip: String::from_str("127.0.0.1"),
            tick_duration_nanos: TICK_DURATION_NANOS,
            enable_udp: true,
            enable_webtransport: true,
            enable_websocket: true,
            udp_port: SERVER_UDP_PORT,
            webtransport_port: SERVER_WEBTRANSPORT_PORT,
            websocket_port: SERVER_WEBSOCKET_PORT,
        }
    }

    /// The server port of the selected client transport.
    pub fn server_port(&self) -> (port: u16)
        ensures
            port == self.client_transport.spec_default_port(),
    {
        self.client_transport.default_port()
    }

    /// Whether any server transport is enabled.
    pub fn any_transport_enabled(&self) -> (r: bool)
        ensures
            r == self.spec_any_transport_enabled(),
    {
        self.enable_udp || self.enable_webtransport || self.enable_websocket
    }

    /// Whether the configuration can be launched: a client needs a server
    /// address text that reads as an IP address, a server needs a transport.
    pub fn is_valid(&self) -> (r: bool)
        ensures
            r == self.spec_is_valid(spec_ip_parses(self.server_ip@)),
            self.mode == NetworkingMode::ClientOnly ==> r == spec_ip_parses(self.server_ip@),
            self.mode == NetworkingMode::ServerOnly ==> r == (self.enable_udp
                || self.enable_webtransport || self.enable_websocket),
            self.mode == NetworkingMode::HostServer ==> r == (spec_ip_parses(self.server_ip@) && (
            self.enable_udp || self.enable_webtransport || self.enable_websocket)),
    {
        let parses = ip_parses(self.server_ip.as_str());
        self.is_valid_with(parses)
    }

    /// Where a client of this configuration connects: whether the server
    /// address text reads as an IP address (when it does not, the loopback
    /// address stands in), and the port of the selected client transport.
    pub fn server_endpoint(&self) -> (r: (bool, u16))
        ensures
            r.0 == spec_ip_parses(self.server_ip@),
            r.1 == self.client_transport.spec_default_port(),
    {
        (ip_parses(self.server_ip.as_str()), self.client_transport.default_port())
    }

    /// Whether the configuration can be launched, given whether its server
    /// address text reads as an IP address.
    pub fn is_valid_with(&self, server_ip_parses: bool) -> (r: bool)
        ensures
            r == self.spec_is_valid(server_ip_parses),
            self.mode == NetworkingMode::ClientOnly ==> r == server_ip_parses,
            self.mode == NetworkingMode::ServerOnly ==> r == (self.enable_udp
                || self.enable_webtransport || self.enable_websocket),
            self.mode == NetworkingMode::HostServer ==> r == (server_ip_parses && (self.enable_udp
                || self.enable_webtransport || self.enable_websocket)),
    {
        proof {
            law_validity_per_mode(*self, server_ip_parses);
        }
        match self.mode {
            NetworkingMode::ClientOnly => server_ip_parses,
            NetworkingMode::ServerOnly => self.any_transport_enabled(),
            NetworkingMode::HostServer => server_ip_parses && self.any_transport_enabled(),
        }
    }

    /// The kind of app this configuration launches.
    pub fn launch_kind(&self) -> (k: LaunchKind)
        ensures
            k == Self::spec_launch_kind(self.mode),
    {
        match self.mode {
            NetworkingMode::ClientOnly => LaunchKind::Client,
            NetworkingMode::ServerOnly => LaunchKind::Server,
            NetworkingMode::HostServer => LaunchKind::HostServer,
        }
    }

    /// What the process launched from this configuration runs.
    pub fn launch_plan(&self) -> (p: LaunchPlan)
        ensures
            p == self.spec_launch_plan(),
            p.server is Some <==> self.mode.spec_runs_server(),
            p.client is Some <==> self.mode.spec_runs_client(),
            p.server is Some ==> {
                &&& p.server->0.example == self.example
                &&& p.server->0.enable_udp == self.enable_udp
                &&& p.server->0.enable_webtransport == self.enable_webtransport
                &&& p.server->0.enable_websocket == self.enable_websocket
            },
            p.client is Some ==> {
                &&& p.client->0.example == self.example
                &&& p.client->0.client_id == self.client_id
                &&& p.client->0.transport == self.client_transport
                &&& p.client->0.server_port == self.client_transport.spec_default_port()
            },
    {
        proof {
            law_launch_plan_carries_settings(*self);
        }
        let server = if self.mode.runs_server() {
            Some(
                ServerLaunch {
                    example: self.example,
                    enable_udp: self.enable_udp,
                    enable_webtransport: self.enable_webtransport,
                    enable_websocket: self.enable_websocket,
                },
            )
        } else {
            None
        };
        let client = if self.mode.runs_client() {
            Some(
                ClientLaunch {
                    example: self.example,
                    client_id: self.client_id,
                    transport: self.client_transport,
                    server_port: self.client_transport.default_port(),
                },
            )
        } else {
            None
        };
        LaunchPlan { server, client }
    }

    /// A copy of this configuration set to launch a server.
    pub fn server_launch(&self) -> (c: LauncherConfig)
        ensures
            self.same_except_launch(c),
            c.mode == NetworkingMode::ServerOnly,
            c.client_transport == self.client_transport,
            c.client_id == self.client_id,
    {
        LauncherConfig {
            example: self.example,
            mode: NetworkingMode::ServerOnly,
            client_transport: self.client_transport,
            client_id: self.client_id,
            server_ip: self.server_ip.clone(),
            tick_duration_nanos: self.tick_duration_nanos,
            enable_udp: self.enable_udp,
            enable_webtransport: self.enable_webtransport,
            enable_websocket: self.enable_websocket,
            udp_port: self.udp_port,
            webtransport_port: self.webtransport_port,
            websocket_port: self.websocket_port,
        }
    }

    /// A copy of this configuration set to launch a client over `transport`
    /// with the client id drawn from `seed` (reduced below 1000).
    pub fn client_launch_with_seed(&self, transport: ClientTransport, seed: u64) -> (c:
        LauncherConfig)
        ensures
            self.same_except_launch(c),
            c.mode == NetworkingMode::ClientOnly,
            c.client_transport == transport,
            c.client_id == seed % 1000,
    {
        LauncherConfig {
            example: self.example,
            mode: NetworkingMode::ClientOnly,
            client_transport: transport,
            client_id: seed % 1000,
            server_ip: self.server_ip.clone(),
            tick_duration_nanos: self.tick_duration_nanos,
            enable_udp: self.enable_udp,
            enable_webtransport: self.enable_webtransport,
            enable_websocket: self.enable_websocket,
            udp_port: self.udp_port,
            webtransport_port: self.webtransport_port,
            websocket_port: self.websocket_port,
        }
    }

    /// A copy of this configuration set to launch a client over `transport`
    /// with a fresh random client id below 1000.
    pub fn client_launch(&self, transport: ClientTransport) -> (c: LauncherConfig)
        ensures
            self.same_except_launch(c),
            c.mode == NetworkingMode::ClientOnly,
            c.client_transport == transport,
            c.client_id < 1000,
    {
        self.client_launch_with_seed(transport, random_u64())
    }

    /// Takes the client id typed into the launcher: a text that reads as a
    /// `u64` replaces the id, any other text leaves the configuration as it
    /// was.
    pub fn apply_client_id_text(&mut self, text: &str)
        ensures
            match spec_parse_u64(text@) {
                Some(id) => *final(self) == (LauncherConfig { client_id: id, ..*old(self) }),
                None => *final(self) == *old(self),
            },
    {
        if let Some(id) = parse_u64(text) {
            self.client_id = id;
        }
    }
}

impl Default for LauncherConfig {
    /// The default configuration with a random client id below 1000.
    fn default() -> (c: Self)
        ensures
            c.has_default_settings(),
            c.client_id < 1000,
    {
        LauncherConfig::with_client_seed(random_u64())
    }
}

/// Reading a mode's name gives the mode back.
pub proof fn law_mode_name_roundtrip(m: NetworkingMode)
    ensures
        NetworkingMode::spec_from_name(m.spec_name()) == Some(m),
{
    reveal_strlit("ClientOnly");
    reveal_strlit("ServerOnly");
    reveal_strlit("HostServer");
    assert("ClientOnly"@ != "ServerOnly"@ ) by {
        assert("ClientOnly"@[0] != "ServerOnly"@[0]);
    };
    assert("ClientOnly"@ != "HostServer"@) by {
        assert("ClientOnly"@[0] != "HostServer"@[0]);
    };
    assert("ServerOnly"@ != "HostServer"@) by {
        assert("ServerOnly"@[0] != "HostServer"@[0]);
    };
}

/// The lists of examples, modes and transports hold every variant exactly
/// once.
pub proof fn law_variant_lists_complete(e: Example, m: NetworkingMode, t: ClientTransport)
    ensures
        Example::spec_all().contains(e),
        Example::spec_all().no_duplicates(),
        NetworkingMode::spec_all().contains(m),
        NetworkingMode::spec_all().no_duplicates(),
        ClientTransport::spec_all().contains(t),
        ClientTransport::spec_all().no_duplicates(),
{
    match e {
        Example::SimpleBox => assert(Example::spec_all()[0] == e),
    }
    match m {
        NetworkingMode::ClientOnly => assert(NetworkingMode::spec_all()[0] == m),
        NetworkingMode::ServerOnly => assert(NetworkingMode::spec_all()[1] == m),
        NetworkingMode::HostServer => assert(NetworkingMode::spec_all()[2] == m),
    }
    match t {
        ClientTransport::Udp => assert(ClientTransport::spec_all()[0] == t),
        ClientTransport::WebTransport => assert(ClientTransport::spec_all()[1] == t),
        ClientTransport::WebSocket => assert(ClientTransport::spec_all()[2] == t),
    }
}

/// A host server is valid exactly when it is valid both as a client and as
/// a server.
pub proof fn law_host_server_validity(c: LauncherConfig, server_ip_parses: bool)
    ensures
        (LauncherConfig { mode: NetworkingMode::HostServer, ..c }).spec_is_valid(server_ip_parses)
            == ((LauncherConfig { mode: NetworkingMode::ClientOnly, ..c }).spec_is_valid(
            server_ip_parses) && (LauncherConfig { mode: NetworkingMode::ServerOnly, ..c }).spec_is_valid(
            server_ip_parses)),
{
}

/// A host server runs, in one process, the server of its example on the
/// enabled transports and a client of that example under the configured
/// client id; a server-only instance runs no client, and a client-only
/// instance no server.
pub proof fn law_launch_plan_per_mode(c: LauncherConfig)
    ensures
        c.mode == NetworkingMode::HostServer ==> {
            &&& LauncherConfig::spec_launch_kind(c.mode) == LaunchKind::HostServer
            &&& c.spec_launch_plan().server == Some(c.spec_server_launch())
            &&& c.spec_launch_plan().client == Some(c.spec_client_launch())
            &&& c.spec_launch_plan().client->0.client_id == c.client_id
        },
        c.mode == NetworkingMode::ServerOnly ==> {
            &&& LauncherConfig::spec_launch_kind(c.mode) == LaunchKind::Server
            &&& c.spec_launch_plan().server is Some
            &&& c.spec_launch_plan().client is None
        },
        c.mode == NetworkingMode::ClientOnly ==> {
            &&& LauncherConfig::spec_launch_kind(c.mode) == LaunchKind::Client
            &&& c.spec_launch_plan().server is None
            &&& c.spec_launch_plan().client is Some
        },
{
}

/// What validity asks of each mode, over the configuration's own fields: a
/// client-only instance needs exactly a server address that reads as an IP
/// address, whatever its server transports; a server-only instance needs
/// exactly one enabled transport or more (any one alone will do); a host
/// server needs both.
pub proof fn law_validity_per_mode(c: LauncherConfig, server_ip_parses: bool)
    ensures
        c.mode == NetworkingMode::ClientOnly ==> c.spec_is_valid(server_ip_parses)
            == server_ip_parses,
        c.mode == NetworkingMode::ServerOnly ==> c.spec_is_valid(server_ip_parses) == (
        c.enable_udp || c.enable_webtransport || c.enable_websocket),
        c.mode == NetworkingMode::HostServer ==> c.spec_is_valid(server_ip_parses) == (
        server_ip_parses && (c.enable_udp || c.enable_webtransport || c.enable_websocket)),
{
}

/// The launch plan carries the configuration's settings unchanged: when the
/// mode runs a server, the server launched is the configured example with
/// each transport enabled exactly when its own flag is set; when the mode
/// runs a client, the client is the configured example under the configured
/// id and transport, aimed at that transport's port.
pub proof fn law_launch_plan_carries_settings(c: LauncherConfig)
    ensures
        c.spec_launch_plan().server is Some <==> (c.mode == NetworkingMode::ServerOnly || c.mode
            == NetworkingMode::HostServer),
        c.spec_launch_plan().client is Some <==> (c.mode == NetworkingMode::ClientOnly || c.mode
            == NetworkingMode::HostServer),
        c.spec_launch_plan().server is Some ==> {
            let s = c.spec_launch_plan().server->0;
            &&& s.example == c.example
            &&& s.enable_udp == c.enable_udp
            &&& s.enable_webtransport == c.enable_webtransport
            &&& s.enable_websocket == c.enable_websocket
        },
        c.spec_launch_plan().client is Some ==> {
            let k = c.spec_launch_plan().client->0;
            &&& k.example == c.example
            &&& k.client_id == c.client_id
            &&& k.transport == c.client_transport
            &&& k.server_port == (match c.client_transport {
                ClientTransport::Udp => SERVER_UDP_PORT,
                ClientTransport::WebTransport => SERVER_WEBTRANSPORT_PORT,
                ClientTransport::WebSocket => SERVER_WEBSOCKET_PORT,
            })
        },
{
}

/// A client of each transport connects to the port on which a server with
/// the default settings listens for that transport.
pub proof fn law_default_server_ports_match_clients(c: LauncherConfig)
    requires
        c.has_default_settings(),
    ensures
        c.udp_port == ClientTransport::Udp.spec_default_port(),
        c.webtransport_port == ClientTransport::WebTransport.spec_default_port(),
        c.websocket_port == ClientTransport::WebSocket.spec_default_port(),
        c.spec_is_valid(false),
{
}

/// Each transport's client connects to a different server port.
pub proof fn law_transport_ports_distinct(a: ClientTransport, b: ClientTransport)
    ensures
        a.spec_default_port() == b.spec_default_port() <==> a == b,
{
}

} // verus!
