use multi_transport::config::{ClientTransport, PROTOCOL_ID};
use multi_transport::transport::{
    client_id_from_nanos, client_port, plan_connection, strip_digest_separators, TransportArg,
};

#[test]
fn client_port_uses_last_two_digits() {
    assert_eq!(client_port(0), 4000);
    assert_eq!(client_port(12345), 4045);
    assert_eq!(client_port(99), 4099);
    assert_eq!(client_port(u64::MAX), 4015);
}

#[test]
fn server_ports_per_transport() {
    assert_eq!(TransportArg::Udp.server_port(), Some(5000));
    assert_eq!(TransportArg::Webtransport.server_port(), Some(5001));
    assert_eq!(TransportArg::Websocket.server_port(), Some(5002));
    assert_eq!(TransportArg::Local.server_port(), None);
}

#[test]
fn link_names() {
    assert_eq!(TransportArg::Udp.link_name(), "UdpClient");
    assert_eq!(TransportArg::Webtransport.link_name(), "WebTransportClient");
    assert_eq!(TransportArg::Websocket.link_name(), "WebSocketClient");
    assert!(TransportArg::Webtransport.requires_certificate());
    assert!(!TransportArg::Udp.requires_certificate());
}

#[test]
fn launcher_transport_mapping() {
    assert_eq!(TransportArg::from_client_transport(ClientTransport::Udp), TransportArg::Udp);
    assert_eq!(
        TransportArg::from_client_transport(ClientTransport::WebTransport),
        TransportArg::Webtransport
    );
    assert_eq!(
        TransportArg::from_client_transport(ClientTransport::WebSocket),
        TransportArg::Websocket
    );
}

#[test]
fn digest_separators_removed() {
    assert_eq!(strip_digest_separators("AB:CD:EF"), "ABCDEF");
    assert_eq!(strip_digest_separators("abcdef"), "abcdef");
    assert_eq!(strip_digest_separators(":::"), "");
    assert_eq!(strip_digest_separators(""), "");
    let raw = "3a:F0:é:1";
    assert_eq!(strip_digest_separators(raw), raw.replace(":", ""));
}

#[test]
fn client_id_from_clock() {
    assert_eq!(client_id_from_nanos(0), 0);
    assert_eq!(client_id_from_nanos(1_234_567), 34_567);
    let big: u128 = (1u128 << 64) + 123_456;
    assert_eq!(client_id_from_nanos(big), 23_456);
    let n: u128 = 1_700_000_000_123_456_789;
    assert_eq!(client_id_from_nanos(n), (n as u64) % 100000);
}

#[test]
fn plan_for_udp() {
    let p = plan_connection(1234, TransportArg::Udp, None);
    assert_eq!(p.client_id, 1234);
    assert_eq!(p.client_port, 4034);
    assert_eq!(p.server_port, 5000);
    assert_eq!(p.protocol_id, PROTOCOL_ID);
    assert_eq!(p.certificate_digest, None);
    assert_eq!(p.link_name, "UdpClient");
}

#[test]
fn plan_for_webtransport_strips_digest() {
    let p = plan_connection(7, TransportArg::Webtransport, Some("aa:bb:cc".to_string()));
    assert_eq!(p.client_port, 4007);
    assert_eq!(p.server_port, 5001);
    assert_eq!(p.certificate_digest, Some("aabbcc".to_string()));
    assert_eq!(p.link_name, "WebTransportClient");
}

#[test]
fn plan_for_websocket_ignores_digest() {
    let p = plan_connection(250, TransportArg::Websocket, Some("aa:bb".to_string()));
    assert_eq!(p.client_port, 4050);
    assert_eq!(p.server_port, 5002);
    assert_eq!(p.certificate_digest, None);
    assert_eq!(p.link_name, "WebSocketClient");
}
