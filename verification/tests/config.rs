use std::time::Duration;

use pihole_exporter::config::{
    extract_string_config, parse_hostname_port, ClientConfig, ConfigError, EnvConfig, ExtractResult,
};

fn default_env() -> EnvConfig {
    EnvConfig {
        pihole_protocol: vec!["http".to_string()],
        pihole_hostname: vec!["127.0.0.1".to_string()],
        pihole_port: vec![80],
        pihole_password: vec![],
        bind_addr: "0.0.0.0".to_string(),
        port: 9617,
        timeout: Duration::from_secs(5),
        skip_tls_verification: false,
        debug: false,
    }
}

#[test]
fn split_default() {
    let clients = default_env().split().unwrap();
    assert_eq!(clients.len(), 1);
    assert_eq!(clients[0].pihole_hostname, "127.0.0.1");
    assert_eq!(clients[0].pihole_protocol, "http");
    assert_eq!(clients[0].pihole_port, 80);
    assert!(clients[0].pihole_password.is_empty());
}

#[test]
fn split_multiple_hosts_same_config() {
    let env = EnvConfig {
        pihole_hostname: vec![
            "127.0.0.1".to_string(),
            "127.0.0.2".to_string(),
            "127.0.0.3".to_string(),
        ],
        pihole_port: vec![8080],
        ..default_env()
    };

    let clients = env.split().unwrap();
    assert_eq!(clients.len(), 3);
    for (client, host) in clients.iter().zip(["127.0.0.1", "127.0.0.2", "127.0.0.3"]) {
        assert_eq!(client.pihole_hostname, host);
        assert_eq!(client.pihole_protocol, "http");
        assert_eq!(client.pihole_port, 8080);
        assert!(client.pihole_password.is_empty());
    }
}

#[test]
fn split_multiple_hosts_multiple_configs() {
    let env = EnvConfig {
        pihole_hostname: vec![
            "127.0.0.1".to_string(),
            "127.0.0.2".to_string(),
            "127.0.0.3".to_string(),
        ],
        pihole_password: vec!["".to_string(), "password2".to_string(), "".to_string()],
        pihole_port: vec![8081, 8082, 8083],
        ..default_env()
    };

    let clients = env.split().unwrap();
    assert_eq!(clients.len(), 3);
    assert_eq!(clients[0].pihole_port, 8081);
    assert_eq!(clients[1].pihole_port, 8082);
    assert_eq!(clients[1].pihole_password, "password2");
    assert_eq!(clients[2].pihole_port, 8083);
}

#[test]
fn split_hostname_with_embedded_port() {
    let env = EnvConfig {
        pihole_hostname: vec!["pihole4.example.com:8443".to_string()],
        pihole_port: vec![8443],
        pihole_protocol: vec!["https".to_string()],
        ..default_env()
    };

    let clients = env.split().unwrap();
    assert_eq!(clients[0].pihole_hostname, "pihole4.example.com");
    assert_eq!(clients[0].pihole_port, 8443);
    assert_eq!(clients[0].base_url(), "https://pihole4.example.com:8443");
}

#[test]
fn validate_protocol() {
    let mut client = ClientConfig {
        pihole_protocol: "ftp".to_string(),
        pihole_hostname: "127.0.0.1".to_string(),
        pihole_port: 80,
        pihole_password: String::new(),
    };
    assert!(matches!(
        client.validate(),
        Err(ConfigError::InvalidProtocol(_))
    ));

    client.pihole_protocol = "https".to_string();
    assert!(client.validate().is_ok());
}

#[test]
fn split_no_hosts_is_empty() {
    let env = EnvConfig {
        pihole_hostname: vec![],
        pihole_port: vec![1, 2, 3],
        ..default_env()
    };
    assert_eq!(env.split().unwrap().len(), 0);
}

#[test]
fn split_wrong_port_count() {
    let env = EnvConfig {
        pihole_hostname: vec!["a".to_string(), "b".to_string(), "c".to_string()],
        pihole_port: vec![1, 2],
        ..default_env()
    };
    assert!(matches!(env.split(), Err(ConfigError::WrongPortCount)));
}

#[test]
fn split_wrong_protocol_count() {
    let env = EnvConfig {
        pihole_hostname: vec!["a".to_string(), "b".to_string(), "c".to_string()],
        pihole_protocol: vec!["http".to_string(), "https".to_string()],
        ..default_env()
    };
    assert!(matches!(env.split(), Err(ConfigError::WrongProtocolCount)));
}

#[test]
fn split_wrong_password_count() {
    let env = EnvConfig {
        pihole_hostname: vec!["a".to_string(), "b".to_string(), "c".to_string()],
        pihole_password: vec!["x".to_string(), "y".to_string()],
        ..default_env()
    };
    assert!(matches!(env.split(), Err(ConfigError::WrongPasswordCount)));
}

#[test]
fn split_invalid_protocol_is_reported() {
    let env = EnvConfig {
        pihole_protocol: vec![" ftp ".to_string()],
        ..default_env()
    };
    match env.split() {
        Err(ConfigError::InvalidProtocol(p)) => assert_eq!(p, "ftp"),
        other => panic!("unexpected result: {:?}", other),
    }
}

#[test]
fn split_empty_protocol_defaults_to_http_and_trims() {
    let env = EnvConfig {
        pihole_protocol: vec!["  ".to_string()],
        pihole_hostname: vec!["  pi.hole \t".to_string()],
        pihole_password: vec![" secret ".to_string()],
        pihole_port: vec![],
        ..default_env()
    };
    let clients = env.split().unwrap();
    assert_eq!(clients[0].pihole_protocol, "http");
    assert_eq!(clients[0].pihole_hostname, "pi.hole");
    assert_eq!(clients[0].pihole_password, "secret");
    assert_eq!(clients[0].pihole_port, 0);
    assert_eq!(clients[0].base_url(), "http://pi.hole:0");
}

#[test]
fn split_ipv6_with_port() {
    let env = EnvConfig {
        pihole_hostname: vec!["[::1]:8080".to_string(), "[fe80::2]".to_string()],
        pihole_port: vec![80],
        ..default_env()
    };
    let clients = env.split().unwrap();
    assert_eq!(clients[0].pihole_hostname, "[::1]");
    assert_eq!(clients[0].pihole_port, 8080);
    assert_eq!(clients[1].pihole_hostname, "[fe80::2]");
    assert_eq!(clients[1].pihole_port, 80);
    assert_eq!(clients[0].base_url(), "http://[::1]:8080");
}

#[test]
fn split_port_with_plus_sign_and_bad_port() {
    let env = EnvConfig {
        pihole_hostname: vec!["host:+81".to_string()],
        ..default_env()
    };
    let clients = env.split().unwrap();
    assert_eq!(clients[0].pihole_hostname, "host");
    assert_eq!(clients[0].pihole_port, 81);

    let env = EnvConfig {
        pihole_hostname: vec!["host:99999".to_string()],
        ..default_env()
    };
    match env.split() {
        Err(ConfigError::InvalidBaseUrl(url)) => assert_eq!(url, "http://host:99999:80"),
        other => panic!("unexpected result: {:?}", other),
    }
}

#[test]
fn validate_rejects_unparsable_url() {
    let client = ClientConfig {
        pihole_protocol: "http".to_string(),
        pihole_hostname: "bad host".to_string(),
        pihole_port: 80,
        pihole_password: String::new(),
    };
    match client.validate() {
        Err(ConfigError::InvalidBaseUrl(url)) => assert_eq!(url, "http://bad host:80"),
        other => panic!("unexpected result: {:?}", other),
    }
    assert!(client.validate_with(true).is_ok());
    assert!(matches!(client.validate_with(false), Err(ConfigError::InvalidBaseUrl(_))));
}

#[test]
fn base_url_formats_port() {
    let client = ClientConfig {
        pihole_protocol: "https".to_string(),
        pihole_hostname: "10.0.0.1".to_string(),
        pihole_port: 65535,
        pihole_password: String::new(),
    };
    assert_eq!(client.base_url(), "https://10.0.0.1:65535");
}

#[test]
fn config_error_messages() {
    assert_eq!(
        ConfigError::InvalidProtocol("ftp".to_string()).message(),
        "invalid protocol ftp: must be http or https"
    );
    assert_eq!(
        ConfigError::WrongPortCount.message(),
        "wrong number of ports: must be empty, single value or one per host"
    );
    assert_eq!(
        ConfigError::WrongProtocolCount.message(),
        "wrong number of PIHoleProtocol: must be empty, single value or one per host"
    );
    assert_eq!(
        ConfigError::WrongPasswordCount.message(),
        "wrong number of PIHolePassword: must be empty, single value or one per host"
    );
    assert_eq!(
        ConfigError::InvalidBaseUrl("http://a:1:2".to_string()).message(),
        "invalid base URL http://a:1:2: hostname and port may be duplicated (use either host:port or separate PIHOLE_PORT)"
    );
}

#[test]
fn hostname_port_forms() {
    assert_eq!(parse_hostname_port(" pi.hole:8080 ", 80), ("pi.hole".to_string(), 8080));
    assert_eq!(parse_hostname_port("[::1]:8443", 80), ("[::1]".to_string(), 8443));
    assert_eq!(parse_hostname_port("[::1]", 81), ("[::1]".to_string(), 81));
    assert_eq!(parse_hostname_port("[::1]x", 81), ("[::1]".to_string(), 81));
    assert_eq!(parse_hostname_port("fe80::1", 82), ("fe80::1".to_string(), 82));
    assert_eq!(parse_hostname_port("host:99999", 83), ("host:99999".to_string(), 83));
    assert_eq!(parse_hostname_port(":8080", 84), (":8080".to_string(), 84));
    assert_eq!(parse_hostname_port("host", 85), ("host".to_string(), 85));
}

#[test]
fn per_host_values() {
    let one = vec![" https ".to_string()];
    assert!(matches!(extract_string_config(&one, 2, 3), ExtractResult::Value(v) if v == "https"));
    let each = vec!["a".to_string(), "  ".to_string(), "c".to_string()];
    assert!(matches!(extract_string_config(&each, 0, 3), ExtractResult::Value(v) if v == "a"));
    assert!(matches!(extract_string_config(&each, 1, 3), ExtractResult::Empty));
    assert!(matches!(extract_string_config(&vec![], 0, 3), ExtractResult::Empty));
    let two = vec!["a".to_string(), "b".to_string()];
    assert!(matches!(extract_string_config(&two, 0, 3), ExtractResult::Invalid));
}

#[test]
fn single_value_applies_whatever_the_host_index() {
    let one = vec!["x".to_string()];
    assert!(matches!(extract_string_config(&one, 5, 2), ExtractResult::Value(v) if v == "x"));
}
