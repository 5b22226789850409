use sap_it::cli::{eq_ignore_case, parse_connection_type, parse_number, resolve_server, CliError};
use sap_it::config::Server;
use sap_it::connection::ConnectionType;

fn server(name: &str) -> Server {
    Server {
        name: name.to_string(),
        ssh: None,
        rdp: "10.0.0.1".to_string(),
        vpn: "VPN".to_string(),
    }
}

#[test]
fn test_parse_connection_type_words() {
    assert_eq!(parse_connection_type("rdp"), Ok(ConnectionType::Rdp));
    assert_eq!(parse_connection_type("RDP"), Ok(ConnectionType::Rdp));
    assert_eq!(parse_connection_type("Ssh"), Ok(ConnectionType::Ssh));
    assert_eq!(parse_connection_type("BOTH"), Ok(ConnectionType::Both));
    assert_eq!(parse_connection_type("invalid"), Err(CliError::InvalidMode));
    assert_eq!(parse_connection_type(""), Err(CliError::InvalidMode));
}

#[test]
fn test_parse_number_reads_numerals() {
    assert_eq!(parse_number("1"), Some(1));
    assert_eq!(parse_number("042"), Some(42));
    assert_eq!(parse_number("+7"), Some(7));
    assert_eq!(parse_number(""), None);
    assert_eq!(parse_number("+"), None);
    assert_eq!(parse_number("12a"), None);
    assert_eq!(parse_number("-3"), None);
    assert_eq!(parse_number("99999999999999999999999999"), None);
}

#[test]
fn test_resolve_server_by_index() {
    let servers = vec![server("Alpha"), server("Beta")];
    assert_eq!(resolve_server(&servers, "1"), Ok(0));
    assert_eq!(resolve_server(&servers, "2"), Ok(1));
    assert_eq!(resolve_server(&servers, "0"), Err(CliError::IndexOutOfRange));
    assert_eq!(resolve_server(&servers, "3"), Err(CliError::IndexOutOfRange));
}

#[test]
fn test_resolve_server_by_name_case_insensitive() {
    let servers = vec![server("Alpha"), server("Beta")];
    assert_eq!(resolve_server(&servers, "beta"), Ok(1));
    assert_eq!(resolve_server(&servers, "ALPHA"), Ok(0));
    assert_eq!(
        resolve_server(&servers, "NonExistentServer"),
        Err(CliError::UnknownServer)
    );
}

#[test]
fn test_resolve_server_first_match_wins() {
    let servers = vec![server("Twin"), server("twin")];
    assert_eq!(resolve_server(&servers, "TWIN"), Ok(0));
}

#[test]
fn test_eq_ignore_case() {
    assert!(eq_ignore_case("Both", "bOTH"));
    assert!(!eq_ignore_case("Both", "Bot"));
    assert!(eq_ignore_case("", ""));
}
