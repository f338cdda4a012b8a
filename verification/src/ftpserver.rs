//! The server's configuration, built step by step, and the decisions that
//! the listening loops take on it.

use vstd::prelude::*;
use std::ops::Range;
use crate::decimal::{decimal, decimal_value, lemma_decimal_reads_back, push_decimal};
use crate::net::{ConnectionTuple, IpAddress};
use crate::reply::{Reply, ReplyCode};

verus! {

/// The greeting sent to a client after it connects, unless another is set.
pub open spec fn default_greeting() -> Seq<char> {
    "Welcome to the libunftp FTP server"@
}

/// The idle session timeout in seconds, unless another is set.
pub const DEFAULT_IDLE_SESSION_TIMEOUT_SECS: u64 = 600;

/// The first passive port, unless another range is set.
pub const DEFAULT_PASSIVE_PORTS_START: u16 = 49152;

/// The end (excluded) of the passive port range, unless another range is set.
pub const DEFAULT_PASSIVE_PORTS_END: u16 = 65535;

/// The authenticator that a server has until another one is set: the one
/// that lets any user in.
#[derive(Debug, Clone, Copy, PartialEq, Eq, Structural)]
pub struct AnonymousAuthenticator;

/// What PROXY protocol mode needs: the address that the server reports for
/// passive connections, and the port of the proxy that clients reach the
/// control channel on.
#[derive(Debug, Clone, Copy, PartialEq, Eq, Structural)]
pub struct ProxyParams {
    pub external_ip: IpAddress,
    pub external_control_port: u16,
}

impl ProxyParams {
    /// The parameters from the parsed external address, or the error that the
    /// parse gave.
    fn new<E>(ip: Result<IpAddress, E>, port: u16) -> (r: Result<ProxyParams, E>)
        ensures
            match ip {
                Ok(a) => r == Ok::<ProxyParams, E>(ProxyParams { external_ip: a, external_control_port: port }),
                Err(e) => r == Err::<ProxyParams, E>(e),
            },
    {
        match ip {
            Ok(external_ip) => Ok(ProxyParams { external_ip, external_control_port: port }),
            Err(e) => Err(e),
        }
    }
}

/// Everything a server is configured with, but for its storage and its
/// authenticator.
pub struct ServerConfig {
    /// The greeting sent to a client after it connects.
    pub greeting: Seq<char>,
    /// The passive ports: from the first up to the second, excluded.
    pub passive_ports: (u16, u16),
    /// The path of the certificates file that enables FTPS.
    pub certs_file: Option<Seq<char>>,
    /// The password of the certificates file.
    pub certs_password: Option<Seq<char>>,
    /// Whether metrics are collected.
    pub collect_metrics: bool,
    /// The idle session timeout, in seconds.
    pub idle_session_timeout: u64,
    /// The PROXY protocol parameters, when that mode is on.
    pub proxy_protocol_mode: Option<ProxyParams>,
    /// The port range that the PROXY protocol switchboard was made with, when
    /// that mode is on.
    pub proxy_protocol_switchboard: Option<(u16, u16)>,
}

/// The configuration of a server that has just been made.
pub open spec fn default_config() -> ServerConfig {
    ServerConfig {
        greeting: default_greeting(),
        passive_ports: (DEFAULT_PASSIVE_PORTS_START, DEFAULT_PASSIVE_PORTS_END),
        certs_file: None,
        certs_password: None,
        collect_metrics: false,
        idle_session_timeout: DEFAULT_IDLE_SESSION_TIMEOUT_SECS,
        proxy_protocol_mode: None,
        proxy_protocol_switchboard: None,
    }
}

/// An FTP server: a storage factory `S`, which gives each session its storage
/// backend, an authenticator `A`, and the configuration.
pub struct Server<S, A> {
    storage: S,
    greeting: &'static str,
    authenticator: A,
    passive_ports: Range<u16>,
    certs_file: Option<String>,
    certs_password: Option<String>,
    collect_metrics: bool,
    idle_session_timeout: u64,
    proxy_protocol_mode: Option<ProxyParams>,
    proxy_protocol_switchboard: Option<Range<u16>>,
}

/// The view of an optional string.
pub open spec fn opt_string_view(s: Option<String>) -> Option<Seq<char>> {
    match s {
        Some(t) => Some(t@),
        None => None,
    }
}

/// The view of an optional port range.
pub open spec fn opt_range_view(r: Option<Range<u16>>) -> Option<(u16, u16)> {
    match r {
        Some(q) => Some((q.start, q.end)),
        None => None,
    }
}

impl<S, A> View for Server<S, A> {
    type V = ServerConfig;

    closed spec fn view(&self) -> ServerConfig {
        ServerConfig {
            greeting: self.greeting@,
            passive_ports: (self.passive_ports.start, self.passive_ports.end),
            certs_file: opt_string_view(self.certs_file),
            certs_password: opt_string_view(self.certs_password),
            collect_metrics: self.collect_metrics,
            idle_session_timeout: self.idle_session_timeout,
            proxy_protocol_mode: self.proxy_protocol_mode,
            proxy_protocol_switchboard: opt_range_view(self.proxy_protocol_switchboard),
        }
    }
}

/// How the server listens: each connection is a control connection, or
/// connections come through a proxy that announces them with a PROXY
/// protocol header.
#[derive(Debug, Clone, Copy, PartialEq, Eq, Structural)]
pub enum ListenMode {
    Normal,
    ProxyProtocol,
}

/// What to do with a connection that came through the proxy.
#[derive(Debug, Clone, Copy, PartialEq, Eq, Structural)]
pub enum ProxyRoute {
    /// It is a control connection: start a control channel loop for it.
    ControlChannel,
    /// It goes to a passive port: hand it to the session that waits for it.
    DataChannel,
    /// It goes to a port that is not a passive port: shut it down.
    Reject,
}

/// What the switchboard knows of the session that an incoming data
/// connection belongs to.
#[derive(Debug, Clone, Copy, PartialEq, Eq, Structural)]
pub enum SessionLookup {
    /// No session waits for a data connection from that address to that port.
    NotFound,
    /// A session waits for it, but it has no channel to its control loop.
    FoundWithoutControlChannel,
    /// A session waits for it and has a channel to its control loop.
    Found,
}

/// What to do with an incoming data connection.
#[derive(Debug, Clone, Copy, PartialEq, Eq, Structural)]
pub enum DataConnectionAction {
    /// Start the data transfer for the session and unregister the connection
    /// from the switchboard.
    Dispatch,
    /// Shut the connection down.
    Reject,
    /// Leave it.
    Ignore,
}

/// What a control channel loop is started with, apart from its storage
/// backend and its authenticator.
pub struct LoopParams {
    pub certs_file: Option<String>,
    pub certs_password: Option<String>,
    pub collect_metrics: bool,
    pub greeting: &'static str,
    pub idle_session_timeout: u64,
    pub passive_ports: Range<u16>,
}

/// The text of the reply that announces a passive port: the four octets of
/// the IPv4 address and the port's high and low byte, in decimal.
pub open spec fn passive_mode_text(a: u8, b: u8, c: u8, d: u8, p1: nat, p2: nat) -> Seq<char> {
    "Entering Passive Mode ("@ + decimal(a as nat) + ","@ + decimal(b as nat) + ","@
        + decimal(c as nat) + ","@ + decimal(d as nat) + ","@ + decimal(p1) + ","@
        + decimal(p2) + ")"@
}

/// Splits a port into its high and low byte, as the passive mode reply
/// announces it.
pub fn split_port(port: u16) -> (r: (u16, u16))
    ensures
        r.0 == port / 256,
        r.1 == port % 256,
{
    let p1: u16 = port >> 8;
    assert(port >> 8 == port / 256) by (bit_vector);
    let p2: u16 = port - p1 * 256;
    (p1, p2)
}

/// The reply that tells a client which IPv4 address and port to open its
/// passive data connection to.
pub fn entering_passive_mode_reply(a: u8, b: u8, c: u8, d: u8, port: u16) -> (r: Reply)
    ensures
        r.code == ReplyCode::EnteringPassiveMode,
        r.msg@ == passive_mode_text(a, b, c, d, (port / 256) as nat, (port % 256) as nat),
{
    let (p1, p2) = split_port(port);
    let mut msg = String::from_str("Entering Passive Mode (");
    push_decimal(&mut msg, a as u16);
    msg.append(",");
    push_decimal(&mut msg, b as u16);
    msg.append(",");
    push_decimal(&mut msg, c as u16);
    msg.append(",");
    push_decimal(&mut msg, d as u16);
    msg.append(",");
    push_decimal(&mut msg, p1);
    msg.append(",");
    push_decimal(&mut msg, p2);
    msg.append(")");
    Reply { code: ReplyCode::EnteringPassiveMode, msg }
}

impl<S, A> Server<S, A> {
    /// The storage factory of the server.
    pub closed spec fn storage_factory(&self) -> S {
        self.storage
    }

    /// The authenticator of the server.
    pub closed spec fn authenticator_used(&self) -> A {
        self.authenticator
    }

    /// The storage factory, which gives each session its storage backend.
    pub fn storage(&self) -> (r: &S)
        ensures
            *r == self.storage_factory(),
    {
        &self.storage
    }

    /// The authenticator that sessions use.
    pub fn authenticator_ref(&self) -> (r: &A)
        ensures
            *r == self.authenticator_used(),
    {
        &self.authenticator
    }

    /// The PROXY protocol parameters, when that mode is on.
    pub fn proxy_params(&self) -> (r: Option<ProxyParams>)
        ensures
            r == self@.proxy_protocol_mode,
    {
        self.proxy_protocol_mode
    }

    /// A server with the given storage factory and authenticator, and every
    /// other setting at its default.
    pub fn new_with_authenticator(s: S, authenticator: A) -> (server: Self)
        ensures
            server@ == default_config(),
            server.storage_factory() == s,
            server.authenticator_used() == authenticator,
    {
        Server {
            storage: s,
            greeting: "Welcome to the libunftp FTP server",
            authenticator,
            passive_ports: Range { start: DEFAULT_PASSIVE_PORTS_START, end: DEFAULT_PASSIVE_PORTS_END },
            certs_file: None,
            certs_password: None,
            collect_metrics: false,
            idle_session_timeout: DEFAULT_IDLE_SESSION_TIMEOUT_SECS,
            proxy_protocol_mode: None,
            proxy_protocol_switchboard: None,
        }
    }

    /// Sets the greeting that is sent to the client after it connects.
    pub fn greeting(self, greeting: &'static str) -> (server: Self)
        ensures
            server@ == (ServerConfig { greeting: greeting@, ..self@ }),
            server.storage_factory() == self.storage_factory(),
            server.authenticator_used() == self.authenticator_used(),
    {
        Server { greeting, ..self }
    }

    /// Sets the authenticator that is used for authentication.
    pub fn authenticator<B>(self, authenticator: B) -> (server: Server<S, B>)
        ensures
            server@ == self@,
            server.storage_factory() == self.storage_factory(),
            server.authenticator_used() == authenticator,
    {
        Server {
            storage: self.storage,
            greeting: self.greeting,
            authenticator,
            passive_ports: self.passive_ports,
            certs_file: self.certs_file,
            certs_password: self.certs_password,
            collect_metrics: self.collect_metrics,
            idle_session_timeout: self.idle_session_timeout,
            proxy_protocol_mode: self.proxy_protocol_mode,
            proxy_protocol_switchboard: self.proxy_protocol_switchboard,
        }
    }

    /// Sets the range of ports that passive connections use.
    pub fn passive_ports(self, range: Range<u16>) -> (server: Self)
        ensures
            server@ == (ServerConfig { passive_ports: (range.start, range.end), ..self@ }),
            server.storage_factory() == self.storage_factory(),
            server.authenticator_used() == self.authenticator_used(),
    {
        Server { passive_ports: range, ..self }
    }

    /// Sets the path of the certificates file (a DER-formatted PKCS #12
    /// archive) and its password, which enables FTPS.
    pub fn ftps(self, certs_file: String, password: String) -> (server: Self)
        ensures
            server@ == (ServerConfig {
                certs_file: Some(certs_file@),
                certs_password: Some(password@),
                ..self@
            }),
            server.storage_factory() == self.storage_factory(),
            server.authenticator_used() == self.authenticator_used(),
    {
        Server { certs_file: Some(certs_file), certs_password: Some(password), ..self }
    }

    /// Enables the collection of metrics.
    pub fn metrics(self) -> (server: Self)
        ensures
            server@ == (ServerConfig { collect_metrics: true, ..self@ }),
            server.storage_factory() == self.storage_factory(),
            server.authenticator_used() == self.authenticator_used(),
    {
        Server { collect_metrics: true, ..self }
    }

    /// Sets the idle session timeout in seconds.
    pub fn idle_session_timeout(self, secs: u64) -> (server: Self)
        ensures
            server@ == (ServerConfig { idle_session_timeout: secs, ..self@ }),
            server.storage_factory() == self.storage_factory(),
            server.authenticator_used() == self.authenticator_used(),
    {
        Server { idle_session_timeout: secs, ..self }
    }

    /// Enables PROXY protocol mode, given the parse of the external address
    /// that passive connections report and the proxy's control port. The
    /// switchboard of passive ports is made with the passive port range that
    /// is set at this call. A failed parse is handed back.
    pub fn proxy_protocol_mode<E>(self, external_ip: Result<IpAddress, E>, external_control_port: u16) -> (r: Result<Self, E>)
        ensures
            match external_ip {
                Ok(ip) => r is Ok && r->Ok_0@ == with_proxy_protocol(self@, ip, external_control_port)
                    && r->Ok_0.storage_factory() == self.storage_factory()
                    && r->Ok_0.authenticator_used() == self.authenticator_used(),
                Err(e) => r == Err::<Self, E>(e),
            },
    {
        match ProxyParams::new(external_ip, external_control_port) {
            Ok(params) => {
                let ports = Range { start: self.passive_ports.start, end: self.passive_ports.end };
                Ok(Server {
                    proxy_protocol_mode: Some(params),
                    proxy_protocol_switchboard: Some(ports),
                    ..self
                })
            },
            Err(e) => Err(e),
        }
    }
}

/// A copy of an optional string.
fn clone_opt_string(s: &Option<String>) -> (r: Option<String>)
    ensures
        opt_string_view(r) == opt_string_view(*s),
{
    match s {
        Some(t) => Some(t.clone()),
        None => None,
    }
}

/// How a server with configuration `c` listens.
pub open spec fn listen_mode_of(c: ServerConfig) -> ListenMode {
    if c.proxy_protocol_mode is Some {
        ListenMode::ProxyProtocol
    } else {
        ListenMode::Normal
    }
}

/// Where a server in PROXY protocol mode with configuration `c` sends a
/// connection that came to port `to_port` of the proxy: the control port
/// makes it a control connection, a passive port a data connection, and any
/// other port has it shut down.
pub open spec fn proxy_route(c: ServerConfig, to_port: u16) -> ProxyRoute {
    if to_port == c.proxy_protocol_mode->Some_0.external_control_port {
        ProxyRoute::ControlChannel
    } else if c.passive_ports.0 <= to_port && to_port < c.passive_ports.1 {
        ProxyRoute::DataChannel
    } else {
        ProxyRoute::Reject
    }
}

/// What a server with configuration `c` does with an incoming data connection
/// whose session the switchboard looked up.
pub open spec fn data_connection_action_of(c: ServerConfig, lookup: SessionLookup) -> DataConnectionAction {
    if c.proxy_protocol_switchboard is None {
        DataConnectionAction::Ignore
    } else {
        match lookup {
            SessionLookup::NotFound => DataConnectionAction::Reject,
            SessionLookup::FoundWithoutControlChannel => DataConnectionAction::Ignore,
            SessionLookup::Found => DataConnectionAction::Dispatch,
        }
    }
}

/// The port that a server with configuration `c` announces for a passive
/// connection: the one that the switchboard reserved, or 0 without a
/// switchboard.
pub open spec fn announced_port(c: ServerConfig, reserved_port: u16) -> u16 {
    if c.proxy_protocol_switchboard is Some {
        reserved_port
    } else {
        0
    }
}

/// The configuration `c` with PROXY protocol mode on, for the external
/// address `ip` and the control port `port`.
pub open spec fn with_proxy_protocol(c: ServerConfig, ip: IpAddress, port: u16) -> ServerConfig {
    ServerConfig {
        proxy_protocol_mode: Some(ProxyParams { external_ip: ip, external_control_port: port }),
        proxy_protocol_switchboard: Some(c.passive_ports),
        ..c
    }
}

/// Once PROXY protocol mode is on, the server listens through the proxy, a
/// connection to the control port is a control connection whatever the
/// passive ports are, a connection to any other port is a data connection
/// exactly when the port is a passive port, and the switchboard covers the
/// passive ports.
pub proof fn lemma_proxy_mode_routing(c: ServerConfig, ip: IpAddress, port: u16, to_port: u16)
    ensures
        listen_mode_of(with_proxy_protocol(c, ip, port)) == ListenMode::ProxyProtocol,
        proxy_route(with_proxy_protocol(c, ip, port), port) == ProxyRoute::ControlChannel,
        to_port != port ==> (proxy_route(with_proxy_protocol(c, ip, port), to_port) == ProxyRoute::DataChannel
            <==> c.passive_ports.0 <= to_port < c.passive_ports.1),
        with_proxy_protocol(c, ip, port).proxy_protocol_switchboard == Some(c.passive_ports),
{
}

/// In PROXY protocol mode, whatever the configuration, a connection goes to
/// the control channel exactly when its destination port is the external
/// control port; any other connection is a data connection exactly when its
/// destination port lies in the passive port range, and is rejected exactly
/// when it lies outside.
pub proof fn lemma_proxy_route_by_destination_port(c: ServerConfig, to_port: u16)
    requires
        c.proxy_protocol_mode is Some,
    ensures
        proxy_route(c, to_port) == ProxyRoute::ControlChannel
            <==> to_port == c.proxy_protocol_mode->Some_0.external_control_port,
        proxy_route(c, to_port) == ProxyRoute::DataChannel
            <==> (to_port != c.proxy_protocol_mode->Some_0.external_control_port
                && c.passive_ports.0 <= to_port && to_port < c.passive_ports.1),
        proxy_route(c, to_port) == ProxyRoute::Reject
            <==> (to_port != c.proxy_protocol_mode->Some_0.external_control_port
                && !(c.passive_ports.0 <= to_port && to_port < c.passive_ports.1)),
{
}

/// A server listens through the PROXY protocol exactly when PROXY protocol
/// mode is on, and in normal mode otherwise, whatever its other settings.
pub proof fn lemma_listen_mode_follows_proxy_mode(c: ServerConfig)
    ensures
        listen_mode_of(c) == ListenMode::ProxyProtocol <==> c.proxy_protocol_mode is Some,
        listen_mode_of(c) == ListenMode::Normal <==> c.proxy_protocol_mode is None,
{
}

/// Without a switchboard an incoming data connection is left alone; with
/// one, whatever the other settings, a connection whose session is found with
/// a control channel is dispatched, one whose session is not found is shut
/// down, and one whose session has no control channel is left alone.
pub proof fn lemma_data_connection_by_lookup(c: ServerConfig, lookup: SessionLookup)
    ensures
        c.proxy_protocol_switchboard is None ==> data_connection_action_of(c, lookup) == DataConnectionAction::Ignore,
        c.proxy_protocol_switchboard is Some ==> (data_connection_action_of(c, lookup) == DataConnectionAction::Dispatch
            <==> lookup == SessionLookup::Found),
        c.proxy_protocol_switchboard is Some ==> (data_connection_action_of(c, lookup) == DataConnectionAction::Reject
            <==> lookup == SessionLookup::NotFound),
        c.proxy_protocol_switchboard is Some ==> (data_connection_action_of(c, lookup) == DataConnectionAction::Ignore
            <==> lookup == SessionLookup::FoundWithoutControlChannel),
{
}

/// Whenever the server has a switchboard, whatever its other settings, the
/// passive mode reply announces exactly the reserved port after the external
/// IPv4 address: its high byte and its low byte in decimal. Without a
/// switchboard it announces port 0.
pub proof fn lemma_passive_reply_announces_reserved_port(c: ServerConfig, reserved_port: u16)
    requires
        c.proxy_protocol_mode matches Some(p) && p.external_ip is V4,
    ensures
        c.proxy_protocol_switchboard is Some ==> announced_port(c, reserved_port) == reserved_port,
        c.proxy_protocol_switchboard is None ==> announced_port(c, reserved_port) == 0,
        ({
            let port = announced_port(c, reserved_port);
            c.proxy_protocol_switchboard is Some
                ==> (c.proxy_protocol_mode->Some_0.external_ip matches IpAddress::V4(a, b, x, d)
                && passive_mode_text(a, b, x, d, (port / 256) as nat, (port % 256) as nat)
                    == "Entering Passive Mode ("@ + decimal(a as nat) + ","@ + decimal(b as nat) + ","@
                        + decimal(x as nat) + ","@ + decimal(d as nat) + ","@
                        + decimal((reserved_port / 256) as nat) + ","@
                        + decimal((reserved_port % 256) as nat) + ")"@)
        }),
{
}

/// Turning PROXY protocol mode on sets the PROXY parameters to the given
/// address and control port and the switchboard to the passive port range;
/// every other setting keeps its value.
pub proof fn lemma_proxy_mode_changes_only_proxy_settings(c: ServerConfig, ip: IpAddress, port: u16)
    ensures
        with_proxy_protocol(c, ip, port).proxy_protocol_mode
            == Some(ProxyParams { external_ip: ip, external_control_port: port }),
        with_proxy_protocol(c, ip, port).proxy_protocol_switchboard == Some(c.passive_ports),
        with_proxy_protocol(c, ip, port).greeting == c.greeting,
        with_proxy_protocol(c, ip, port).passive_ports == c.passive_ports,
        with_proxy_protocol(c, ip, port).certs_file == c.certs_file,
        with_proxy_protocol(c, ip, port).certs_password == c.certs_password,
        with_proxy_protocol(c, ip, port).collect_metrics == c.collect_metrics,
        with_proxy_protocol(c, ip, port).idle_session_timeout == c.idle_session_timeout,
{
}

/// A new server greets with "Welcome to the libunftp FTP server", uses the
/// passive ports 49152 up to 65535 (excluded), times idle sessions out after
/// 600 seconds, and has FTPS, metrics and PROXY protocol mode off.
pub proof fn lemma_defaults()
    ensures
        default_config().greeting == "Welcome to the libunftp FTP server"@,
        default_config().passive_ports == (49152u16, 65535u16),
        default_config().idle_session_timeout == 600,
        default_config().certs_file is None,
        default_config().certs_password is None,
        !default_config().collect_metrics,
        default_config().proxy_protocol_mode is None,
        default_config().proxy_protocol_switchboard is None,
{
}

/// The passive mode reply announces its port so that it reads back: the
/// fifth number of the reply times 256 plus the sixth is the port, and each
/// is below 256.
pub proof fn lemma_passive_port_reads_back(port: u16)
    ensures
        decimal_value(decimal((port / 256) as nat)) * 256 + decimal_value(decimal((port % 256) as nat)) == port,
        port / 256 < 256,
        port % 256 < 256,
{
    lemma_decimal_reads_back((port / 256) as nat);
    lemma_decimal_reads_back((port % 256) as nat);
}

impl<S, A> Server<S, A> {
    /// How the server listens: through the PROXY protocol exactly when that
    /// mode is on.
    pub fn listen_mode(&self) -> (m: ListenMode)
        ensures
            m == listen_mode_of(self@),
    {
        match self.proxy_protocol_mode {
            Some(_) => ListenMode::ProxyProtocol,
            None => ListenMode::Normal,
        }
    }

    /// Where a connection that came through the proxy goes, by the port of
    /// the proxy that the client connected to. PROXY protocol mode must be on.
    pub fn route_proxy_connection(&self, connection: &ConnectionTuple) -> (route: ProxyRoute)
        requires
            self@.proxy_protocol_mode is Some,
        ensures
            route == proxy_route(self@, connection.to_port),
    {
        let params = match self.proxy_protocol_mode {
            Some(p) => p,
            // Excluded by the precondition.
            None => { return ProxyRoute::Reject; },
        };
        if connection.to_port == params.external_control_port {
            ProxyRoute::ControlChannel
        } else if self.passive_ports.start <= connection.to_port && connection.to_port < self.passive_ports.end {
            ProxyRoute::DataChannel
        } else {
            ProxyRoute::Reject
        }
    }

    /// What to do with an incoming data connection, given what the switchboard
    /// knows of its session: without a switchboard nothing is done; a
    /// connection that no session waits for is shut down; one whose session
    /// has a channel to its control loop is dispatched to it.
    pub fn data_connection_action(&self, lookup: SessionLookup) -> (action: DataConnectionAction)
        ensures
            action == data_connection_action_of(self@, lookup),
    {
        if self.proxy_protocol_switchboard.is_none() {
            return DataConnectionAction::Ignore;
        }
        match lookup {
            SessionLookup::NotFound => DataConnectionAction::Reject,
            SessionLookup::FoundWithoutControlChannel => DataConnectionAction::Ignore,
            SessionLookup::Found => DataConnectionAction::Dispatch,
        }
    }

    /// The reply that tells a client where to open its passive data
    /// connection: the external IPv4 address of PROXY protocol mode, and the
    /// port that the switchboard reserved (port 0 when there is no
    /// switchboard).
    pub fn passive_mode_reply(&self, reserved_port: u16) -> (r: Reply)
        requires
            self@.proxy_protocol_mode matches Some(p) && p.external_ip is V4,
        ensures
            r.code == ReplyCode::EnteringPassiveMode,
            ({
                let port = announced_port(self@, reserved_port);
                self@.proxy_protocol_mode->Some_0.external_ip matches IpAddress::V4(a, b, c, d)
                    && r.msg@ == passive_mode_text(a, b, c, d, (port / 256) as nat, (port % 256) as nat)
            }),
    {
        let port: u16 = if self.proxy_protocol_switchboard.is_some() { reserved_port } else { 0 };
        match self.proxy_protocol_mode {
            Some(ProxyParams { external_ip: IpAddress::V4(a, b, c, d), .. }) =>
                entering_passive_mode_reply(a, b, c, d, port),
            // Excluded by the precondition.
            _ => Reply::new(ReplyCode::EnteringPassiveMode, ""),
        }
    }

    /// The settings that a control channel loop of this server starts with.
    pub fn loop_params(&self) -> (p: LoopParams)
        ensures
            opt_string_view(p.certs_file) == self@.certs_file,
            opt_string_view(p.certs_password) == self@.certs_password,
            p.collect_metrics == self@.collect_metrics,
            p.greeting@ == self@.greeting,
            p.idle_session_timeout == self@.idle_session_timeout,
            (p.passive_ports.start, p.passive_ports.end) == self@.passive_ports,
    {
        LoopParams {
            certs_file: clone_opt_string(&self.certs_file),
            certs_password: clone_opt_string(&self.certs_password),
            collect_metrics: self.collect_metrics,
            greeting: self.greeting,
            idle_session_timeout: self.idle_session_timeout,
            passive_ports: Range { start: self.passive_ports.start, end: self.passive_ports.end },
        }
    }
}

impl<S> Server<S, AnonymousAuthenticator> {
    /// A server with the given storage factory, the anonymous authenticator,
    /// and every other setting at its default.
    pub fn new(s: S) -> (server: Self)
        ensures
            server@ == default_config(),
            server.storage_factory() == s,
            server.authenticator_used() == AnonymousAuthenticator,
    {
        Self::new_with_authenticator(s, AnonymousAuthenticator)
    }
}

} // verus!
