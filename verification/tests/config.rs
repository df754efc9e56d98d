use rknx::config::{parse_args, CliAction, ClientConfig, Config, ServerConfig};

fn args(v: &[&str]) -> Vec<String> {
    v.iter().map(|s| s.to_string()).collect()
}

#[test]
fn the_command_line_names_the_configuration() {
    assert!(matches!(parse_args(&args(&[])), CliAction::Run(p) if p == "/etc/rknx/config.toml"));
    assert!(matches!(parse_args(&args(&["-c", "my.toml"])), CliAction::Run(p) if p == "my.toml"));
    assert!(matches!(parse_args(&args(&["--config", "a.toml", "-c", "b.toml"])), CliAction::Run(p) if p == "b.toml"));
    assert!(matches!(parse_args(&args(&["-c"])), CliAction::MissingValue));
    assert!(matches!(parse_args(&args(&["--help", "-x"])), CliAction::Help));
    assert!(matches!(parse_args(&args(&["-x"])), CliAction::Unknown(o) if o == "-x"));
}

fn empty_server() -> ServerConfig {
    ServerConfig {
        ip: None,
        port: None,
        local_ip: None,
        individual_address: None,
        friendly_name: None,
        mac_address: None,
        routing_delay: None,
        client_addrs: None,
        use_all_interfaces: None,
        is_routing: None,
        max_pending_requests_per_client: None,
    }
}

#[test]
fn server_options_take_defaults() {
    let mut sc = empty_server();
    sc.port = Some(3700);
    let config = Config { server: Some(sc), client: None, router: None, logging: None, api: None };
    let o = config.to_server_options().unwrap();
    assert_eq!(o.ip, "224.0.23.12");
    assert_eq!(o.port, 3700);
    assert_eq!(o.local_ip, "0.0.0.0");
    assert_eq!(o.individual_address, "1.1.0");
    assert_eq!(o.friendly_name, "rKNX Server");
    assert_eq!(o.routing_delay, 10);
    assert!(o.is_routing);
    assert_eq!(o.max_pending_requests_per_client, 100);
    assert!(config.to_tunneling_options().is_none());
    assert!(config.to_router_options().is_none());
}

#[test]
fn client_options_read_the_gateway() {
    let cc = ClientConfig {
        gateway_host: Some("10.0.0.5".to_string()),
        gateway_port: None,
        local_ip: None,
        local_port: None,
        transport: None,
        connection_type: None,
        use_route_back: None,
        max_queue_size: None,
        auto_reconnect: None,
        max_reconnect_attempts: None,
        reconnect_delay_ms: None,
    };
    let config = Config { server: None, client: Some(cc), router: None, logging: None, api: None };
    let o = config.to_tunneling_options().unwrap();
    assert_eq!(o.ip, "10.0.0.5");
    assert_eq!(o.port, 3671);
}
