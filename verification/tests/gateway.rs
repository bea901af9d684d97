use dump1090_server::gateway::{
    configure, cors_policy, transport_security, ConfigError, CorsPolicy, GatewayConfig, Method,
    Settings, TransportSecurity,
};

fn settings() -> Settings {
    Settings {
        server_url: Some("127.0.0.1:50051".to_string()),
        json_dir: None,
        allow_origin: None,
        cert_path: None,
        key_path: None,
    }
}

#[test]
fn cors_policy_permits_all_origins_by_default() {
    assert_eq!(
        cors_policy(None),
        CorsPolicy {
            allow_origin: "*".to_string(),
            allow_methods: vec![Method::Get, Method::Post],
            allow_headers: vec!["content-type".to_string(), "x-grpc-web".to_string()],
        }
    );
}

#[test]
fn cors_policy_permits_the_configured_origin() {
    let policy = cors_policy(Some("https://example.org".to_string()));
    assert_eq!(policy.allow_origin, "https://example.org");
    assert_eq!(policy.allow_methods, vec![Method::Get, Method::Post]);
    assert_eq!(policy.allow_headers, vec!["content-type", "x-grpc-web"]);
}

#[test]
fn transport_is_secure_only_with_certificate_and_key() {
    let some = |s: &str| Some(s.to_string());
    assert_eq!(
        transport_security(some("cert.pem"), some("key.pem")),
        TransportSecurity::Tls { cert_path: "cert.pem".to_string(), key_path: "key.pem".to_string() }
    );
    assert_eq!(transport_security(some("cert.pem"), None), TransportSecurity::Cleartext);
    assert_eq!(transport_security(None, some("key.pem")), TransportSecurity::Cleartext);
    assert_eq!(transport_security(None, None), TransportSecurity::Cleartext);
}

#[test]
fn configure_fails_without_an_address() {
    let found = Settings { server_url: None, ..settings() };
    assert_eq!(configure(found), Err(ConfigError::MissingServerUrl));
    let found = Settings {
        server_url: None,
        json_dir: Some("/data".to_string()),
        allow_origin: Some("https://example.org".to_string()),
        cert_path: Some("cert.pem".to_string()),
        key_path: Some("key.pem".to_string()),
    };
    assert_eq!(configure(found), Err(ConfigError::MissingServerUrl));
}

#[test]
fn configure_fills_in_the_defaults() {
    assert_eq!(
        configure(settings()),
        Ok(GatewayConfig {
            server_url: "127.0.0.1:50051".to_string(),
            json_dir: "./test-data".to_string(),
            cors: cors_policy(None),
            security: TransportSecurity::Cleartext,
        })
    );
}

#[test]
fn configure_takes_what_is_configured() {
    let found = Settings {
        server_url: Some("[::1]:8443".to_string()),
        json_dir: Some("/run/dump1090".to_string()),
        allow_origin: Some("https://example.org".to_string()),
        cert_path: Some("cert.pem".to_string()),
        key_path: Some("key.pem".to_string()),
    };
    let config = configure(found).unwrap();
    assert_eq!(config.server_url, "[::1]:8443");
    assert_eq!(config.json_dir, "/run/dump1090");
    assert_eq!(config.cors.allow_origin, "https://example.org");
    assert_eq!(
        config.security,
        TransportSecurity::Tls { cert_path: "cert.pem".to_string(), key_path: "key.pem".to_string() }
    );
}
