use libunftp::decimal::push_decimal;
use libunftp::ftpserver::{
    entering_passive_mode_reply, split_port, AnonymousAuthenticator, DataConnectionAction, ListenMode,
    ProxyRoute, Server, SessionLookup,
};
use libunftp::net::{ConnectionTuple, IpAddress};
use libunftp::reply::ReplyCode;

fn storage() -> &'static str {
    "/srv/ftp"
}

fn conn(to_port: u16) -> ConnectionTuple {
    ConnectionTuple {
        from_ip: IpAddress::V4(192, 168, 1, 7),
        from_port: 40000,
        to_ip: IpAddress::V4(10, 0, 0, 1),
        to_port,
    }
}

#[test]
fn new_server_has_the_defaults() {
    let server = Server::new(storage());
    let p = server.loop_params();
    assert_eq!(p.greeting, "Welcome to the libunftp FTP server");
    assert_eq!(p.passive_ports, 49152..65535);
    assert_eq!(p.idle_session_timeout, 600);
    assert!(!p.collect_metrics);
    assert_eq!(p.certs_file, None);
    assert_eq!(p.certs_password, None);
    assert_eq!(server.listen_mode(), ListenMode::Normal);
}

#[test]
fn new_with_authenticator_has_the_defaults() {
    let server = Server::new_with_authenticator(storage(), 7u32);
    let p = server.loop_params();
    assert_eq!(p.greeting, "Welcome to the libunftp FTP server");
    assert_eq!(p.passive_ports, 49152..65535);
    assert_eq!(p.idle_session_timeout, 600);
    assert_eq!(server.listen_mode(), ListenMode::Normal);
}

#[test]
fn builder_steps_set_their_setting() {
    let server = Server::new(storage())
        .greeting("Welcome to my FTP Server")
        .passive_ports(50000..50100)
        .ftps("/srv/unftp/server-certs.pfx".to_string(), "thepassword".to_string())
        .metrics()
        .idle_session_timeout(30);
    let p = server.loop_params();
    assert_eq!(p.greeting, "Welcome to my FTP Server");
    assert_eq!(p.passive_ports, 50000..50100);
    assert_eq!(p.certs_file.as_deref(), Some("/srv/unftp/server-certs.pfx"));
    assert_eq!(p.certs_password.as_deref(), Some("thepassword"));
    assert!(p.collect_metrics);
    assert_eq!(p.idle_session_timeout, 30);
    assert_eq!(server.listen_mode(), ListenMode::Normal);
}

#[test]
fn authenticator_keeps_the_settings() {
    let server = Server::new(storage()).greeting("hi").authenticator(AnonymousAuthenticator).authenticator(3u8);
    assert_eq!(server.loop_params().greeting, "hi");
}

#[test]
fn proxy_protocol_mode_with_an_address() {
    let server = Server::new(storage())
        .proxy_protocol_mode(Ok::<IpAddress, String>(IpAddress::V4(10, 0, 0, 1)), 2121)
        .unwrap();
    assert_eq!(server.listen_mode(), ListenMode::ProxyProtocol);
}

#[test]
fn proxy_protocol_mode_hands_back_the_parse_error() {
    let r = Server::new(storage()).proxy_protocol_mode(Err::<IpAddress, String>("bad".to_string()), 2121);
    match r {
        Err(e) => assert_eq!(e, "bad"),
        Ok(_) => panic!("expected the parse error"),
    }
}

#[test]
fn proxy_routes_by_destination_port() {
    let server = Server::new(storage())
        .passive_ports(50000..50010)
        .proxy_protocol_mode(Ok::<IpAddress, ()>(IpAddress::V4(10, 0, 0, 1)), 2121)
        .unwrap();
    assert_eq!(server.route_proxy_connection(&conn(2121)), ProxyRoute::ControlChannel);
    assert_eq!(server.route_proxy_connection(&conn(50000)), ProxyRoute::DataChannel);
    assert_eq!(server.route_proxy_connection(&conn(50009)), ProxyRoute::DataChannel);
    assert_eq!(server.route_proxy_connection(&conn(50010)), ProxyRoute::Reject);
    assert_eq!(server.route_proxy_connection(&conn(21)), ProxyRoute::Reject);
}

#[test]
fn control_port_wins_over_passive_range() {
    let server = Server::new(storage())
        .passive_ports(2000..3000)
        .proxy_protocol_mode(Ok::<IpAddress, ()>(IpAddress::V4(10, 0, 0, 1)), 2121)
        .unwrap();
    assert_eq!(server.route_proxy_connection(&conn(2121)), ProxyRoute::ControlChannel);
    assert_eq!(server.route_proxy_connection(&conn(2122)), ProxyRoute::DataChannel);
}

#[test]
fn passive_ports_set_later_govern_routing() {
    let server = Server::new(storage())
        .proxy_protocol_mode(Ok::<IpAddress, ()>(IpAddress::V4(10, 0, 0, 1)), 2121)
        .unwrap()
        .passive_ports(100..200);
    assert_eq!(server.route_proxy_connection(&conn(150)), ProxyRoute::DataChannel);
    assert_eq!(server.route_proxy_connection(&conn(50000)), ProxyRoute::Reject);
}

#[test]
fn data_connections_without_switchboard_are_ignored() {
    let server = Server::new(storage());
    assert_eq!(server.data_connection_action(SessionLookup::Found), DataConnectionAction::Ignore);
    assert_eq!(server.data_connection_action(SessionLookup::NotFound), DataConnectionAction::Ignore);
}

#[test]
fn data_connections_with_switchboard() {
    let server = Server::new(storage())
        .proxy_protocol_mode(Ok::<IpAddress, ()>(IpAddress::V4(10, 0, 0, 1)), 2121)
        .unwrap();
    assert_eq!(server.data_connection_action(SessionLookup::Found), DataConnectionAction::Dispatch);
    assert_eq!(server.data_connection_action(SessionLookup::NotFound), DataConnectionAction::Reject);
    assert_eq!(
        server.data_connection_action(SessionLookup::FoundWithoutControlChannel),
        DataConnectionAction::Ignore
    );
}

#[test]
fn passive_mode_reply_announces_external_address_and_port() {
    let server = Server::new(storage())
        .proxy_protocol_mode(Ok::<IpAddress, ()>(IpAddress::V4(10, 0, 0, 1)), 2121)
        .unwrap();
    let r = server.passive_mode_reply(50000);
    assert_eq!(r.code, ReplyCode::EnteringPassiveMode);
    assert_eq!(r.msg, "Entering Passive Mode (10,0,0,1,195,80)");
}

#[test]
fn entering_passive_mode_reply_text() {
    let r = entering_passive_mode_reply(127, 0, 0, 1, 65535);
    assert_eq!(r.code, ReplyCode::EnteringPassiveMode);
    assert_eq!(r.msg, "Entering Passive Mode (127,0,0,1,255,255)");
    let r = entering_passive_mode_reply(255, 255, 255, 255, 0);
    assert_eq!(r.msg, "Entering Passive Mode (255,255,255,255,0,0)");
}

#[test]
fn split_port_reads_back() {
    assert_eq!(split_port(50000), (195, 80));
    assert_eq!(split_port(0), (0, 0));
    assert_eq!(split_port(256), (1, 0));
    assert_eq!(split_port(65535), (255, 255));
    for port in [1u16, 255, 257, 2121, 49152, 65534] {
        let (p1, p2) = split_port(port);
        assert_eq!(p1 * 256 + p2, port);
        assert!(p2 < 256);
    }
}

#[test]
fn decimal_notation() {
    for (n, text) in [(0u16, "0"), (7, "7"), (10, "10"), (99, "99"), (100, "100"), (65535, "65535")] {
        let mut s = String::from("x=");
        push_decimal(&mut s, n);
        assert_eq!(s, format!("x={}", text));
        assert_eq!(s[2..].parse::<u16>().unwrap(), n);
    }
}
