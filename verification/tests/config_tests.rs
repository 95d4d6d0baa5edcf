use udp_traffic_generator::config::{effective_workers, ConfigError, Parameters};

fn base_params() -> Parameters {
    Parameters {
        server_addr: String::from("127.0.0.1:9000"),
        rate: 1,
        connections: 1,
        len: 16,
        start_port: 8000,
        sleep: 50,
        use_dtls: false,
        ca_file: None,
    }
}

#[test]
fn validate_accepts_plain_configuration() {
    let p = base_params();
    assert!(p.validate().is_ok());
}

#[test]
fn validate_rejects_dtls_without_trust_anchor() {
    let mut p = base_params();
    p.use_dtls = true;
    p.ca_file = None;
    let r = p.validate();
    assert!(matches!(r, Err(ConfigError::MissingTrustAnchor)));
}

#[test]
fn validate_accepts_dtls_with_trust_anchor() {
    let mut p = base_params();
    p.use_dtls = true;
    p.ca_file = Some(String::from("ca.pem"));
    assert!(p.validate().is_ok());
}

#[test]
fn ports_are_assigned_consecutively() {
    let mut p = base_params();
    p.connections = 3;
    p.start_port = 8000;
    assert_eq!(p.port_for_client(0), 8000);
    assert_eq!(p.port_for_client(1), 8001);
    assert_eq!(p.port_for_client(2), 8002);
}

#[test]
fn theoretical_packet_rate_multiplies_clients_and_rate() {
    let mut p = base_params();
    p.connections = 3;
    p.rate = 5;
    assert_eq!(p.theoretical_packet_rate(), 15);
}

#[test]
fn theoretical_bandwidth_counts_eight_bits_per_byte() {
    let mut p = base_params();
    p.connections = 3;
    p.rate = 5;
    p.len = 10;
    assert_eq!(p.theoretical_bandwidth_bits(), 1200);
}

#[test]
fn effective_workers_keeps_positive_requests() {
    assert_eq!(effective_workers(Some(4)), Some(4));
}

#[test]
fn effective_workers_ignores_zero() {
    assert_eq!(effective_workers(Some(0)), None);
}

#[test]
fn effective_workers_defaults_when_absent() {
    assert_eq!(effective_workers(None), None);
}
