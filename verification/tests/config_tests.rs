use sap_it::config::Config;
use sap_it::config::Server;
use sap_it::config::Settings;

fn server(name: &str, ssh: Option<&str>, rdp: &str, vpn: &str) -> Server {
    Server {
        name: name.to_string(),
        ssh: ssh.map(|s| s.to_string()),
        rdp: rdp.to_string(),
        vpn: vpn.to_string(),
    }
}

#[test]
fn test_server_has_ssh() {
    let server_with_ssh = Server {
        name: "Test".to_string(),
        ssh: Some("root@192.168.1.1".to_string()),
        rdp: "192.168.1.2".to_string(),
        vpn: "TEST_VPN".to_string(),
    };
    assert!(server_with_ssh.has_ssh());

    let server_without_ssh = Server {
        name: "Test".to_string(),
        ssh: None,
        rdp: "192.168.1.2".to_string(),
        vpn: "TEST_VPN".to_string(),
    };
    assert!(!server_without_ssh.has_ssh());

    let server_empty_ssh = Server {
        name: "Test".to_string(),
        ssh: Some("".to_string()),
        rdp: "192.168.1.2".to_string(),
        vpn: "TEST_VPN".to_string(),
    };
    assert!(!server_empty_ssh.has_ssh());
}

#[test]
fn test_ssh_ip_extraction() {
    let server = Server {
        name: "Test".to_string(),
        ssh: Some("root@192.168.1.100".to_string()),
        rdp: "192.168.1.2".to_string(),
        vpn: "TEST_VPN".to_string(),
    };
    assert_eq!(server.ssh_ip(), Some("192.168.1.100".to_string()));

    let server_no_ssh = Server {
        name: "Test".to_string(),
        ssh: None,
        rdp: "192.168.1.2".to_string(),
        vpn: "TEST_VPN".to_string(),
    };
    assert_eq!(server_no_ssh.ssh_ip(), None);
}

#[test]
fn test_default_settings() {
    let settings = Settings::default();
    assert_eq!(settings.vpn_timeout_secs, 30);
    assert_eq!(settings.ping_timeout_ms, 3000);
    assert_eq!(settings.ping_retries, 3);
}

#[test]
fn test_ssh_ip_takes_everything_after_first_at() {
    let s = server("T", Some("a@b@c"), "1.2.3.4", "V");
    assert_eq!(s.ssh_ip(), Some("b@c".to_string()));
}

#[test]
fn test_ssh_ip_without_at_sign() {
    let s = server("T", Some("nouser-no-at-sign"), "1.2.3.4", "V");
    assert_eq!(s.ssh_ip(), None);
    assert!(s.has_ssh());
}

#[test]
fn test_ssh_string_filters_empty() {
    let s = server("T", Some("root@h"), "1.2.3.4", "V");
    assert_eq!(s.ssh_string(), Some("root@h"));
    let empty = server("T", Some(""), "1.2.3.4", "V");
    assert_eq!(empty.ssh_string(), None);
    let none = server("T", None, "1.2.3.4", "V");
    assert_eq!(none.ssh_string(), None);
}

#[test]
fn test_default_config_catalog() {
    let config = Config::default_config();
    assert_eq!(config.servers.len(), 4);
    assert_eq!(config.servers[0].name, "Ilmatex");
    assert_eq!(config.servers[0].ssh.as_deref(), Some("root@192.168.0.98"));
    assert_eq!(config.servers[0].rdp, "192.168.0.99");
    assert_eq!(config.servers[0].vpn, "ILMATEX");
    assert_eq!(config.servers[1].name, "Frodexim");
    assert!(config.servers[1].ssh.is_none());
    assert_eq!(config.servers[3].name, "BG Nova");
    assert_eq!(config.settings.vpn_timeout_secs, 30);
}

#[test]
fn test_config_clone_keeps_servers() {
    let config = Config::default_config();
    let copy = config.clone();
    assert_eq!(copy.servers.len(), config.servers.len());
    for i in 0..config.servers.len() {
        assert_eq!(copy.servers[i].name, config.servers[i].name);
        assert_eq!(copy.servers[i].rdp, config.servers[i].rdp);
        assert_eq!(copy.servers[i].vpn, config.servers[i].vpn);
        assert_eq!(copy.servers[i].ssh, config.servers[i].ssh);
    }
    assert_eq!(copy.settings.ping_retries, config.settings.ping_retries);
}
