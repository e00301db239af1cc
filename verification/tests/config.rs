use reception::connection::ConnectionConfig;
use reception::listener::config::websocket_config::MEGA;
use reception::{ListenerConfig, WebSocketConfig};

#[test]
fn connection_config_defaults() {
    let config = ConnectionConfig::default();
    assert_eq!(config.ping_interval, 20_000_000_000);
    assert_eq!(config.pong_timeout, 4_000_000_000);
}

#[test]
fn websocket_config_defaults() {
    let config = WebSocketConfig::default();
    assert_eq!(MEGA, 1_048_576);
    assert_eq!(config.max_message_size, 16 * 1024 * 1024);
    assert_eq!(config.max_frame_size, 4 * 1024 * 1024);
}

#[test]
fn listener_config_defaults() {
    let config = ListenerConfig::default();
    assert_eq!(config.interface, "127.0.0.1");
    assert_eq!(config.port, 8080);
    assert_eq!(config.websocket_config, WebSocketConfig::default());
    assert_eq!(config.connection_config, ConnectionConfig::default());
}

#[test]
fn socket_address_joins_interface_and_port() {
    let config = ListenerConfig::default();
    assert_eq!(config.socket_address(), "127.0.0.1:8080");
    let mut config = ListenerConfig::default();
    config.interface = "127.0.0".to_owned();
    config.port = 0;
    assert_eq!(config.socket_address(), "127.0.0:0");
    config.port = 65535;
    assert_eq!(config.socket_address(), "127.0.0:65535");
    config.port = 10;
    config.interface = "::1".to_owned();
    assert_eq!(config.socket_address(), "::1:10");
}
