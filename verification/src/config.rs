//! The daemon configuration as read from its file, and the connection
//! options it gives, with their defaults.
use crate::connection::router::{copy_strings, filter_view, strings_view, AddressFilter, DirectionFilter, FilterPolicy, RouterOptions};
use crate::connection::server::KnxNetIpServerOptions;
use crate::connection::tpuart::TpuartOptions;
use crate::connection::tunneling::{TransportProtocol, TunnelingOptions};
use crate::connection::usb::KnxUsbOptions;
use crate::protocol::knxnetip_enum::ConnectionType;
use crate::utils::text::{str_eq, string_of};
use vstd::prelude::*;

verus! {

/// Server section.
#[derive(Debug, Clone)]
pub struct ServerConfig {
    pub ip: Option<String>,
    pub port: Option<u16>,
    pub local_ip: Option<String>,
    pub individual_address: Option<String>,
    pub friendly_name: Option<String>,
    pub mac_address: Option<String>,
    pub routing_delay: Option<u16>,
    pub client_addrs: Option<String>,
    pub use_all_interfaces: Option<bool>,
    pub is_routing: Option<bool>,
    pub max_pending_requests_per_client: Option<u32>,
}

/// Tunnel client section.
#[derive(Debug, Clone)]
pub struct ClientConfig {
    pub gateway_host: Option<String>,
    pub gateway_port: Option<u16>,
    pub local_ip: Option<String>,
    pub local_port: Option<u16>,
    pub transport: Option<String>,
    pub connection_type: Option<String>,
    pub use_route_back: Option<bool>,
    pub max_queue_size: Option<usize>,
    pub auto_reconnect: Option<bool>,
    pub max_reconnect_attempts: Option<usize>,
    pub reconnect_delay_ms: Option<u64>,
}

/// Logging section.
#[derive(Debug, Clone)]
pub struct LoggingConfig {
    pub level: Option<String>,
    pub log_to_file: Option<bool>,
    pub log_dir: Option<String>,
    pub log_filename: Option<String>,
    pub indications: Option<bool>,
    pub indications_raw: Option<bool>,
    pub node_format: Option<bool>,
}

/// An address filter section.
#[derive(Debug, Clone)]
pub struct AddressFilterConfig {
    pub addresses: Vec<String>,
    pub policy: String,
}

/// The filters of one direction.
#[derive(Debug, Clone)]
pub struct DirectionFilterConfig {
    pub group_address: Option<AddressFilterConfig>,
    pub individual_address: Option<AddressFilterConfig>,
}

/// TP-UART section.
#[derive(Debug, Clone)]
pub struct TpuartConfig {
    pub path: String,
    pub ack_group: Option<bool>,
    pub ack_individual: Option<bool>,
    pub individual_address: Option<String>,
}

/// USB section.
#[derive(Debug, Clone)]
pub struct UsbConfig {
    pub path: Option<String>,
    pub vendor_id: Option<u16>,
    pub product_id: Option<u16>,
    pub individual_address: Option<String>,
}

/// Router section.
#[derive(Debug, Clone)]
pub struct RouterConfig {
    pub individual_address: Option<String>,
    pub use_single_ia: Option<bool>,
    pub handle_hop_count: Option<bool>,
    pub to_ip_filter: Option<DirectionFilterConfig>,
    pub to_local_filter: Option<DirectionFilterConfig>,
    pub server: Option<ServerConfig>,
    pub tpuart: Option<TpuartConfig>,
    pub tunneling: Option<Vec<ClientConfig>>,
    pub usb: Option<UsbConfig>,
}

/// API section.
#[derive(Debug, Clone)]
pub struct ApiConfig {
    pub db_path: Option<String>,
    pub ws_port: Option<u16>,
    pub mqtt_host: Option<String>,
    pub mqtt_port: Option<u16>,
    pub mqtt_client_id: Option<String>,
}

/// The whole configuration.
#[derive(Debug, Clone)]
pub struct Config {
    pub server: Option<ServerConfig>,
    pub client: Option<ClientConfig>,
    pub router: Option<RouterConfig>,
    pub logging: Option<LoggingConfig>,
    pub api: Option<ApiConfig>,
}

/// A text or its default.
pub open spec fn text_or(t: Option<String>, d: Seq<char>) -> Seq<char> {
    match t {
        Some(s) => s@,
        None => d,
    }
}

/// A value or its default.
pub open spec fn value_or<T>(t: Option<T>, d: T) -> T {
    match t {
        Some(v) => v,
        None => d,
    }
}

/// The transport a configuration names: TCP for `Tcp`, `tcp` or `TCP`,
/// else UDP.
pub open spec fn transport_of(t: Option<String>) -> TransportProtocol {
    match t {
        Some(s) => if s@ == "Tcp"@ || s@ == "tcp"@ || s@ == "TCP"@ {
            TransportProtocol::Tcp
        } else {
            TransportProtocol::Udp
        },
        None => TransportProtocol::Udp,
    }
}

/// The connection type a configuration names: device management for
/// `DeviceMgmtConnection`, else tunnelling.
pub open spec fn connection_type_of_name(t: Option<String>) -> ConnectionType {
    match t {
        Some(s) => if s@ == "DeviceMgmtConnection"@ {
            ConnectionType::DeviceMgmtConnection
        } else {
            ConnectionType::TunnelConnection
        },
        None => ConnectionType::TunnelConnection,
    }
}

/// The policy a configuration names: discard for `DiscardAll`, `discard
/// all` or `Discard`, else allow.
pub open spec fn policy_of_name(s: Seq<char>) -> FilterPolicy {
    if s == "DiscardAll"@ || s == "discard all"@ || s == "Discard"@ {
        FilterPolicy::DiscardAll
    } else {
        FilterPolicy::AllowAll
    }
}

fn text_or_exec(t: &Option<String>, d: &str) -> (r: String)
    ensures
        r@ == text_or(*t, d@),
{
    match t {
        Some(s) => string_of(s.as_str()),
        None => string_of(d),
    }
}

/// Whether a server configuration gives the server options: every field
/// the configured value or its default (multicast group 224.0.23.12, port
/// 3671, local address 0.0.0.0, address 1.1.0, name "rKNX Server", MAC
/// 00:11:22:33:44:55, routing delay 10 ms, routing on, 100 requests per
/// client per second), and no serial number.
pub open spec fn server_options_of(sc: ServerConfig, o: KnxNetIpServerOptions) -> bool {
    &&& o.ip@ == text_or(sc.ip, "224.0.23.12"@)
    &&& o.port == value_or(sc.port, 3671u16)
    &&& o.local_ip@ == text_or(sc.local_ip, "0.0.0.0"@)
    &&& o.individual_address@ == text_or(sc.individual_address, "1.1.0"@)
    &&& o.friendly_name@ == text_or(sc.friendly_name, "rKNX Server"@)
    &&& o.mac_address@ == text_or(sc.mac_address, "00:11:22:33:44:55"@)
    &&& o.routing_delay == value_or(sc.routing_delay, 10u16)
    &&& o.client_addrs == sc.client_addrs
    &&& o.serial_number is None
    &&& o.use_all_interfaces == value_or(sc.use_all_interfaces, false)
    &&& o.is_routing == value_or(sc.is_routing, true)
    &&& o.max_pending_requests_per_client == value_or(sc.max_pending_requests_per_client, 100u32)
    &&& !o.ignore_acktimeout
}

/// Whether a client configuration gives the tunnel options: gateway
/// 127.0.0.1:3671, local port 0, UDP, tunnelling, no route back, a queue of
/// 100, reconnecting up to 10 times every 5 s, unless configured.
pub open spec fn tunneling_options_of(cc: ClientConfig, o: TunnelingOptions) -> bool {
    &&& o.ip@ == text_or(cc.gateway_host, "127.0.0.1"@)
    &&& o.port == value_or(cc.gateway_port, 3671u16)
    &&& o.local_ip == cc.local_ip
    &&& o.local_port == value_or(cc.local_port, 0u16)
    &&& o.transport == transport_of(cc.transport)
    &&& o.connection_type == connection_type_of_name(cc.connection_type)
    &&& o.use_route_back == value_or(cc.use_route_back, false)
    &&& o.max_queue_size == value_or(cc.max_queue_size, 100usize)
    &&& o.auto_reconnect == value_or(cc.auto_reconnect, true)
    &&& o.max_reconnect_attempts == value_or(cc.max_reconnect_attempts, 10usize)
    &&& o.reconnect_delay_ms == value_or(cc.reconnect_delay_ms, 5000u64)
}

fn server_options(sc: &ServerConfig) -> (o: KnxNetIpServerOptions)
    ensures
        server_options_of(*sc, o),
{
    KnxNetIpServerOptions {
        ip: text_or_exec(&sc.ip, "224.0.23.12"),
        port: match sc.port {
            Some(p) => p,
            None => 3671,
        },
        local_ip: text_or_exec(&sc.local_ip, "0.0.0.0"),
        individual_address: text_or_exec(&sc.individual_address, "1.1.0"),
        friendly_name: text_or_exec(&sc.friendly_name, "rKNX Server"),
        mac_address: text_or_exec(&sc.mac_address, "00:11:22:33:44:55"),
        routing_delay: match sc.routing_delay {
            Some(d) => d,
            None => 10,
        },
        client_addrs: sc.client_addrs.clone(),
        serial_number: None,
        use_all_interfaces: match sc.use_all_interfaces {
            Some(b) => b,
            None => false,
        },
        is_routing: match sc.is_routing {
            Some(b) => b,
            None => true,
        },
        max_pending_requests_per_client: match sc.max_pending_requests_per_client {
            Some(m) => m,
            None => 100,
        },
        ignore_acktimeout: false,
    }
}

fn transport_exec(t: &Option<String>) -> (r: TransportProtocol)
    ensures
        r == transport_of(*t),
{
    match t {
        Some(s) => if str_eq(s.as_str(), "Tcp") || str_eq(s.as_str(), "tcp") || str_eq(s.as_str(), "TCP") {
            TransportProtocol::Tcp
        } else {
            TransportProtocol::Udp
        },
        None => TransportProtocol::Udp,
    }
}

fn connection_type_exec(t: &Option<String>) -> (r: ConnectionType)
    ensures
        r == connection_type_of_name(*t),
{
    match t {
        Some(s) => if str_eq(s.as_str(), "DeviceMgmtConnection") {
            ConnectionType::DeviceMgmtConnection
        } else {
            ConnectionType::TunnelConnection
        },
        None => ConnectionType::TunnelConnection,
    }
}

fn tunneling_options(cc: &ClientConfig) -> (o: TunnelingOptions)
    ensures
        tunneling_options_of(*cc, o),
{
    TunnelingOptions {
        ip: text_or_exec(&cc.gateway_host, "127.0.0.1"),
        port: match cc.gateway_port {
            Some(p) => p,
            None => 3671,
        },
        local_ip: cc.local_ip.clone(),
        local_port: match cc.local_port {
            Some(p) => p,
            None => 0,
        },
        transport: transport_exec(&cc.transport),
        connection_type: connection_type_exec(&cc.connection_type),
        use_route_back: match cc.use_route_back {
            Some(b) => b,
            None => false,
        },
        max_queue_size: match cc.max_queue_size {
            Some(m) => m,
            None => 100,
        },
        auto_reconnect: match cc.auto_reconnect {
            Some(b) => b,
            None => true,
        },
        max_reconnect_attempts: match cc.max_reconnect_attempts {
            Some(m) => m,
            None => 10,
        },
        reconnect_delay_ms: match cc.reconnect_delay_ms {
            Some(d) => d,
            None => 5000,
        },
    }
}

/// The addresses and policy an address filter section configures.
pub open spec fn configured_address_filter(a: Option<AddressFilterConfig>) -> Option<(Seq<Seq<char>>, FilterPolicy)> {
    match a {
        Some(x) => Some((strings_view(x.addresses@), policy_of_name(x.policy@))),
        None => None,
    }
}

/// The filters a direction section configures; none without a section.
pub open spec fn configured_filter(d: Option<DirectionFilterConfig>) -> (Option<(Seq<Seq<char>>, FilterPolicy)>, Option<(Seq<Seq<char>>, FilterPolicy)>) {
    match d {
        Some(x) => (configured_address_filter(x.group_address), configured_address_filter(x.individual_address)),
        None => (None, None),
    }
}

fn address_filter(afc: &AddressFilterConfig) -> (f: AddressFilter)
    ensures
        f.policy == policy_of_name(afc.policy@),
        strings_view(f.addresses@) == strings_view(afc.addresses@),
{
    let p = afc.policy.as_str();
    let policy = if str_eq(p, "DiscardAll") || str_eq(p, "discard all") || str_eq(p, "Discard") {
        FilterPolicy::DiscardAll
    } else {
        FilterPolicy::AllowAll
    };
    AddressFilter { addresses: copy_strings(&afc.addresses), policy }
}

fn direction_filter(dfc: &Option<DirectionFilterConfig>) -> (f: DirectionFilter)
    ensures
        dfc is None ==> f.group_address is None && f.individual_address is None,
        dfc matches Some(d) ==> (f.group_address is Some <==> d.group_address is Some) && (f.individual_address is Some <==> d.individual_address is Some),
        dfc matches Some(d) ==> (d.group_address matches Some(g) ==> f.group_address->0.policy == policy_of_name(g.policy@)),
        dfc matches Some(d) ==> (d.individual_address matches Some(g) ==> f.individual_address->0.policy == policy_of_name(g.policy@)),
        filter_view(f) == configured_filter(*dfc),
{
    match dfc {
        Some(d) => DirectionFilter {
            group_address: match &d.group_address {
                Some(g) => Some(address_filter(g)),
                None => None,
            },
            individual_address: match &d.individual_address {
                Some(g) => Some(address_filter(g)),
                None => None,
            },
        },
        None => DirectionFilter::default(),
    }
}

impl Config {
    /// The server options of the `server` section.
    pub fn to_server_options(&self) -> (r: Option<KnxNetIpServerOptions>)
        ensures
            match self.server {
                Some(sc) => r matches Some(o) && server_options_of(sc, o),
                None => r is None,
            },
    {
        match &self.server {
            Some(sc) => Some(server_options(sc)),
            None => None,
        }
    }

    /// The tunnel options of the `client` section.
    pub fn to_tunneling_options(&self) -> (r: Option<TunnelingOptions>)
        ensures
            match self.client {
                Some(cc) => r matches Some(o) && tunneling_options_of(cc, o),
                None => r is None,
            },
    {
        match &self.client {
            Some(cc) => Some(tunneling_options(cc)),
            None => None,
        }
    }

    /// The router options of the `router` section: address 15.15.0, one
    /// address for all links, no hop count handling unless configured;
    /// its server, tunnels, TP-UART (no acknowledgements) and USB interface
    /// with the same defaults as alone (address 1.1.0).
    pub fn to_router_options(&self) -> (r: Option<RouterOptions>)
        ensures
            match self.router {
                Some(rc) => r matches Some(o) && {
                    &&& o.individual_address@ == text_or(rc.individual_address, "15.15.0"@)
                    &&& o.use_single_ia == value_or(rc.use_single_ia, true)
                    &&& o.handle_hop_count == value_or(rc.handle_hop_count, false)
                    &&& (rc.server matches Some(sc) ==> (o.knx_net_ip_server matches Some(so) && server_options_of(sc, so)))
                    &&& (rc.server is None ==> o.knx_net_ip_server is None)
                    &&& (rc.tpuart matches Some(tc) ==> (o.tpuart matches Some(to) && to.path@ == tc.path@ && to.ack_group == value_or(tc.ack_group, false)
                        && to.ack_individual == value_or(tc.ack_individual, false) && to.individual_address@ == text_or(tc.individual_address, "1.1.0"@)))
                    &&& (rc.tpuart is None ==> o.tpuart is None)
                    &&& (rc.tunneling matches Some(v) ==> (o.tunneling matches Some(w) && w@.len() == v@.len() && forall|i: int| 0 <= i < v@.len() ==> tunneling_options_of(#[trigger] v@[i], w@[i])))
                    &&& (rc.tunneling is None ==> o.tunneling is None)
                    &&& (rc.usb matches Some(uc) ==> (o.usb matches Some(uo) && uo.path == uc.path && uo.vendor_id == uc.vendor_id && uo.product_id == uc.product_id
                        && uo.individual_address@ == text_or(uc.individual_address, "1.1.0"@)))
                    &&& (rc.usb is None ==> o.usb is None)
                    &&& filter_view(o.to_ip_filter) == configured_filter(rc.to_ip_filter)
                    &&& filter_view(o.to_local_filter) == configured_filter(rc.to_local_filter)
                },
                None => r is None,
            },
    {
        let rc = match &self.router {
            Some(rc) => rc,
            None => {
                return None;
            },
        };
        let to_ip_filter = direction_filter(&rc.to_ip_filter);
        let to_local_filter = direction_filter(&rc.to_local_filter);
        let knx_net_ip_server = match &rc.server {
            Some(sc) => Some(server_options(sc)),
            None => None,
        };
        let tpuart = match &rc.tpuart {
            Some(tc) => Some(TpuartOptions {
                path: string_of(tc.path.as_str()),
                ack_group: match tc.ack_group {
                    Some(b) => b,
                    None => false,
                },
                ack_individual: match tc.ack_individual {
                    Some(b) => b,
                    None => false,
                },
                individual_address: text_or_exec(&tc.individual_address, "1.1.0"),
            }),
            None => None,
        };
        let tunneling = match &rc.tunneling {
            Some(v) => {
                let mut w: Vec<TunnelingOptions> = Vec::new();
                let n = v.len();
                let mut i: usize = 0;
                while i < n
                    invariant
                        n == v@.len(),
                        i <= n,
                        w@.len() == i,
                        forall|j: int| 0 <= j < i ==> tunneling_options_of(#[trigger] v@[j], w@[j]),
                    decreases n - i,
                {
                    w.push(tunneling_options(&v[i]));
                    i = i + 1;
                }
                Some(w)
            },
            None => None,
        };
        let usb = match &rc.usb {
            Some(uc) => Some(KnxUsbOptions {
                path: uc.path.clone(),
                vendor_id: uc.vendor_id,
                product_id: uc.product_id,
                individual_address: text_or_exec(&uc.individual_address, "1.1.0"),
            }),
            None => None,
        };
        Some(RouterOptions {
            individual_address: text_or_exec(&rc.individual_address, "15.15.0"),
            use_single_ia: match rc.use_single_ia {
                Some(b) => b,
                None => true,
            },
            handle_hop_count: match rc.handle_hop_count {
                Some(b) => b,
                None => false,
            },
            to_ip_filter,
            to_local_filter,
            knx_net_ip_server,
            tpuart,
            tunneling,
            usb,
        })
    }
}

/// What the command line asks for.
#[derive(Debug, Clone)]
pub enum CliAction {
    /// Run with the configuration file at this path.
    Run(String),
    /// Show the help.
    Help,
    /// `-c` without a value.
    MissingValue,
    /// An unknown option.
    Unknown(String),
}

/// A command-line request with its texts as character sequences.
pub enum CliSpec {
    Run(Seq<char>),
    Help,
    MissingValue,
    Unknown(Seq<char>),
}

impl View for CliAction {
    type V = CliSpec;

    open spec fn view(&self) -> CliSpec {
        match self {
            CliAction::Run(p) => CliSpec::Run(p@),
            CliAction::Help => CliSpec::Help,
            CliAction::MissingValue => CliSpec::MissingValue,
            CliAction::Unknown(o) => CliSpec::Unknown(o@),
        }
    }
}

/// What the arguments `args` ask for, with `path` the configuration file
/// named so far: each `-c`/`--config` names the file with the argument
/// after it; `-h`/`--help` asks for the help; anything else is unknown.
pub open spec fn cli_spec(args: Seq<Seq<char>>, path: Seq<char>) -> CliSpec
    decreases args.len(),
{
    if args.len() == 0 {
        CliSpec::Run(path)
    } else if args[0] == "-c"@ || args[0] == "--config"@ {
        if args.len() >= 2 {
            cli_spec(args.skip(2), args[1])
        } else {
            CliSpec::MissingValue
        }
    } else if args[0] == "-h"@ || args[0] == "--help"@ {
        CliSpec::Help
    } else {
        CliSpec::Unknown(args[0])
    }
}

/// The texts of a list of arguments.
pub open spec fn arg_texts(args: Seq<String>) -> Seq<Seq<char>> {
    args.map_values(|a: String| a@)
}

/// Reads the command line (without the program name): `-c`/`--config`
/// with a path, `-h`/`--help`; the default configuration file is
/// `/etc/rknx/config.toml`.
pub fn parse_args(args: &Vec<String>) -> (r: CliAction)
    ensures
        r@ == cli_spec(arg_texts(args@), "/etc/rknx/config.toml"@),
{
    let mut path = string_of("/etc/rknx/config.toml");
    let n = args.len();
    let mut i: usize = 0;
    let ghost all = arg_texts(args@);
    assert(all.skip(0) =~= all);
    while i < n
        invariant
            n == args@.len(),
            all == arg_texts(args@),
            i <= n,
            cli_spec(all, "/etc/rknx/config.toml"@) == cli_spec(all.skip(i as int), path@),
        decreases n - i,
    {
        let a = args[i].as_str();
        let ghost rest = all.skip(i as int);
        assert(rest[0] == args@[i as int]@);
        if str_eq(a, "-c") || str_eq(a, "--config") {
            if i + 1 < n {
                assert(rest[1] == args@[i + 1]@);
                assert(rest.skip(2) =~= all.skip(i + 2));
                path = string_of(args[i + 1].as_str());
                i = i + 2;
            } else {
                return CliAction::MissingValue;
            }
        } else if str_eq(a, "-h") || str_eq(a, "--help") {
            return CliAction::Help;
        } else {
            return CliAction::Unknown(string_of(a));
        }
    }
    CliAction::Run(path)
}

} // verus!
