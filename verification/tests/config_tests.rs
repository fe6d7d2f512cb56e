use multi_transport::config::{
    ClientLaunch, ClientTransport, Example, LaunchKind, LaunchPlan, LauncherConfig, ServerLaunch, NetworkingMode, FIXED_TIMESTEP_HZ,
    SERVER_UDP_PORT, SERVER_WEBSOCKET_PORT, SERVER_WEBTRANSPORT_PORT, TICK_DURATION_NANOS,
};

fn assert_default_settings(c: &LauncherConfig) {
    assert_eq!(c.example, Example::SimpleBox);
    assert_eq!(c.mode, NetworkingMode::ServerOnly);
    assert_eq!(c.client_transport, ClientTransport::Udp);
    assert_eq!(c.server_ip, "127.0.0.1");
    assert_eq!(c.tick_duration_nanos, 15_625_000);
    assert!(c.enable_udp && c.enable_webtransport && c.enable_websocket);
    assert_eq!(c.udp_port, 5000);
    assert_eq!(c.webtransport_port, 5001);
    assert_eq!(c.websocket_port, 5002);
}

#[test]
fn default_ports_per_transport() {
    assert_eq!(ClientTransport::Udp.default_port(), 5000);
    assert_eq!(ClientTransport::WebTransport.default_port(), 5001);
    assert_eq!(ClientTransport::WebSocket.default_port(), 5002);
    assert_eq!(SERVER_UDP_PORT, 5000);
    assert_eq!(SERVER_WEBTRANSPORT_PORT, 5001);
    assert_eq!(SERVER_WEBSOCKET_PORT, 5002);
}

#[test]
fn transport_ports_are_distinct() {
    let all = ClientTransport::all();
    for a in &all {
        for b in &all {
            assert_eq!(a.default_port() == b.default_port(), a == b);
        }
    }
}

#[test]
fn tick_is_one_sixty_fourth_of_a_second() {
    assert_eq!(FIXED_TIMESTEP_HZ, 64);
    assert_eq!(TICK_DURATION_NANOS, 15_625_000);
    assert_eq!(TICK_DURATION_NANOS * FIXED_TIMESTEP_HZ, 1_000_000_000);
}

#[test]
fn default_config_has_random_small_client_id() {
    for _ in 0..50 {
        let c = LauncherConfig::default();
        assert!(c.client_id < 1000);
        assert_default_settings(&c);
    }
}

#[test]
fn seeded_config_reduces_the_seed() {
    let c = LauncherConfig::with_client_seed(123_456);
    assert_eq!(c.client_id, 456);
    assert_default_settings(&c);
    assert_eq!(LauncherConfig::with_client_seed(u64::MAX).client_id, u64::MAX % 1000);
}

#[test]
fn enum_defaults() {
    assert_eq!(Example::default(), Example::SimpleBox);
    assert_eq!(NetworkingMode::default(), NetworkingMode::ServerOnly);
    assert_eq!(ClientTransport::default(), ClientTransport::Udp);
}

#[test]
fn variant_lists_are_complete_and_ordered() {
    assert_eq!(Example::all(), vec![Example::SimpleBox]);
    assert_eq!(
        NetworkingMode::all(),
        vec![NetworkingMode::ClientOnly, NetworkingMode::ServerOnly, NetworkingMode::HostServer]
    );
    assert_eq!(
        ClientTransport::all(),
        vec![ClientTransport::Udp, ClientTransport::WebTransport, ClientTransport::WebSocket]
    );
}

#[test]
fn names_of_variants() {
    assert_eq!(Example::SimpleBox.name(), "SimpleBox");
    assert_eq!(NetworkingMode::ClientOnly.name(), "ClientOnly");
    assert_eq!(NetworkingMode::ServerOnly.name(), "ServerOnly");
    assert_eq!(NetworkingMode::HostServer.name(), "HostServer");
    assert_eq!(ClientTransport::Udp.name(), "Udp");
    assert_eq!(ClientTransport::WebTransport.name(), "WebTransport");
    assert_eq!(ClientTransport::WebSocket.name(), "WebSocket");
}

#[test]
fn mode_name_roundtrip() {
    for m in NetworkingMode::all() {
        assert_eq!(NetworkingMode::from_name(m.name()), Some(m));
    }
    assert_eq!(NetworkingMode::from_name("clientonly"), None);
    assert_eq!(NetworkingMode::from_name(""), None);
    assert_eq!(NetworkingMode::from_name("ServerOnly "), None);
}

#[test]
fn settings_sections_per_mode() {
    assert!(NetworkingMode::ClientOnly.runs_client());
    assert!(!NetworkingMode::ClientOnly.runs_server());
    assert!(!NetworkingMode::ServerOnly.runs_client());
    assert!(NetworkingMode::ServerOnly.runs_server());
    assert!(NetworkingMode::HostServer.runs_client());
    assert!(NetworkingMode::HostServer.runs_server());
}

#[test]
fn validity_per_mode() {
    let mut c = LauncherConfig::with_client_seed(1);
    c.mode = NetworkingMode::ClientOnly;
    assert!(c.is_valid_with(true));
    assert!(!c.is_valid_with(false));
    c.mode = NetworkingMode::ServerOnly;
    assert!(c.is_valid_with(false));
    c.enable_udp = false;
    c.enable_webtransport = false;
    c.enable_websocket = false;
    assert!(!c.any_transport_enabled());
    assert!(!c.is_valid_with(true));
    c.enable_websocket = true;
    assert!(c.is_valid_with(false));
}

#[test]
fn host_server_needs_both_requirements() {
    for ip_ok in [false, true] {
        for enabled in [false, true] {
            let mut c = LauncherConfig::with_client_seed(1);
            c.enable_udp = enabled;
            c.enable_webtransport = false;
            c.enable_websocket = false;
            let mut host = c.clone();
            host.mode = NetworkingMode::HostServer;
            let mut client = c.clone();
            client.mode = NetworkingMode::ClientOnly;
            let mut server = c.clone();
            server.mode = NetworkingMode::ServerOnly;
            assert_eq!(
                host.is_valid_with(ip_ok),
                client.is_valid_with(ip_ok) && server.is_valid_with(ip_ok)
            );
        }
    }
}

#[test]
fn launch_kind_per_mode() {
    let mut c = LauncherConfig::with_client_seed(1);
    c.mode = NetworkingMode::ClientOnly;
    assert_eq!(c.launch_kind(), LaunchKind::Client);
    c.mode = NetworkingMode::ServerOnly;
    assert_eq!(c.launch_kind(), LaunchKind::Server);
    c.mode = NetworkingMode::HostServer;
    assert_eq!(c.launch_kind(), LaunchKind::HostServer);
}

#[test]
fn launch_plan_per_mode() {
    let mut c = LauncherConfig::with_client_seed(321);
    c.client_transport = ClientTransport::WebTransport;
    c.enable_websocket = false;
    let server = ServerLaunch {
        example: Example::SimpleBox,
        enable_udp: true,
        enable_webtransport: true,
        enable_websocket: false,
    };
    let client = ClientLaunch {
        example: Example::SimpleBox,
        client_id: 321,
        transport: ClientTransport::WebTransport,
        server_port: 5001,
    };
    c.mode = NetworkingMode::HostServer;
    assert_eq!(c.launch_plan(), LaunchPlan { server: Some(server), client: Some(client) });
    c.mode = NetworkingMode::ServerOnly;
    assert_eq!(c.launch_plan(), LaunchPlan { server: Some(server), client: None });
    c.mode = NetworkingMode::ClientOnly;
    assert_eq!(c.launch_plan(), LaunchPlan { server: None, client: Some(client) });
}

#[test]
fn quick_launch_server() {
    let mut c = LauncherConfig::with_client_seed(77);
    c.mode = NetworkingMode::ClientOnly;
    c.client_transport = ClientTransport::WebSocket;
    c.server_ip = "10.0.0.2".to_string();
    let s = c.server_launch();
    assert_eq!(s.mode, NetworkingMode::ServerOnly);
    assert_eq!(s.client_transport, ClientTransport::WebSocket);
    assert_eq!(s.client_id, 77);
    assert_eq!(s.server_ip, "10.0.0.2");
    assert_eq!(s.server_port(), 5002);
}

#[test]
fn quick_launch_clients() {
    let c = LauncherConfig::with_client_seed(5);
    let udp = c.client_launch_with_seed(ClientTransport::Udp, 2_024);
    assert_eq!(udp.mode, NetworkingMode::ClientOnly);
    assert_eq!(udp.client_transport, ClientTransport::Udp);
    assert_eq!(udp.client_id, 24);
    assert_eq!(udp.server_port(), 5000);
    let ws = c.client_launch(ClientTransport::WebSocket);
    assert_eq!(ws.mode, NetworkingMode::ClientOnly);
    assert_eq!(ws.client_transport, ClientTransport::WebSocket);
    assert!(ws.client_id < 1000);
    assert_eq!(ws.server_ip, c.server_ip);
}

#[test]
fn client_id_text_edits() {
    let mut c = LauncherConfig::with_client_seed(9);
    c.apply_client_id_text("42");
    assert_eq!(c.client_id, 42);
    c.apply_client_id_text("+7");
    assert_eq!(c.client_id, 7);
    c.apply_client_id_text("abc");
    assert_eq!(c.client_id, 7);
    c.apply_client_id_text("");
    assert_eq!(c.client_id, 7);
    c.apply_client_id_text("-1");
    assert_eq!(c.client_id, 7);
    c.apply_client_id_text("18446744073709551616");
    assert_eq!(c.client_id, 7);
    c.apply_client_id_text("18446744073709551615");
    assert_eq!(c.client_id, u64::MAX);
}

#[test]
fn validity_reads_the_server_address() {
    let mut c = LauncherConfig::with_client_seed(3);
    c.mode = NetworkingMode::ClientOnly;
    for (text, ok) in [
        ("127.0.0.1", true),
        ("::1", true),
        ("192.168.1.20", true),
        ("256.0.0.1", false),
        ("localhost", false),
        ("", false),
        (" 127.0.0.1", false),
    ] {
        c.server_ip = text.to_string();
        assert_eq!(c.is_valid(), ok, "{text:?}");
        assert_eq!(c.server_endpoint(), (ok, 5000));
        assert_eq!(c.is_valid(), c.is_valid_with(text.parse::<core::net::IpAddr>().is_ok()));
    }
    c.mode = NetworkingMode::HostServer;
    c.server_ip = "nope".to_string();
    assert!(!c.is_valid());
    c.server_ip = "10.0.0.1".to_string();
    assert!(c.is_valid());
    c.enable_udp = false;
    c.enable_webtransport = false;
    c.enable_websocket = false;
    assert!(!c.is_valid());
    c.mode = NetworkingMode::ServerOnly;
    c.server_ip = "nope".to_string();
    assert!(!c.is_valid());
    c.enable_websocket = true;
    assert!(c.is_valid());
    c.client_transport = ClientTransport::WebSocket;
    assert_eq!(c.server_endpoint(), (false, 5002));
}
