use sap_it::config::Server;
use sap_it::config::Settings;
use sap_it::connection::Action;
use sap_it::connection::ConnectError;
use sap_it::connection::ConnectionManager;
use sap_it::connection::ConnectionType;
use sap_it::connection::Phase;

fn server_a() -> Server {
    Server {
        name: "A".to_string(),
        ssh: Some("user@10.0.0.2".to_string()),
        rdp: "10.0.0.1".to_string(),
        vpn: "A-VPN".to_string(),
    }
}

fn rdp_only() -> Server {
    Server {
        name: "B".to_string(),
        ssh: None,
        rdp: "10.0.0.9".to_string(),
        vpn: "B-VPN".to_string(),
    }
}

fn settings(vpn_timeout_secs: u64, ping_retries: u32) -> Settings {
    Settings {
        vpn_timeout_secs,
        ping_timeout_ms: 3000,
        ping_retries,
    }
}

#[test]
fn test_connection_type_names() {
    assert_eq!(ConnectionType::Rdp.name(), "RDP");
    assert_eq!(ConnectionType::Ssh.name(), "SSH");
    assert_eq!(ConnectionType::Both.name(), "Both");
}

#[test]
fn test_connection_type_all() {
    let all = ConnectionType::all();
    assert_eq!(all.len(), 3);
    assert!(all.contains(&ConnectionType::Rdp));
    assert!(all.contains(&ConnectionType::Ssh));
    assert!(all.contains(&ConnectionType::Both));
}

#[test]
fn test_ssh_mode_rejected_without_capability() {
    let mut mgr = ConnectionManager::new(rdp_only(), settings(30, 3));
    assert_eq!(
        mgr.connect(ConnectionType::Ssh, false),
        Err(ConnectError::ConfigError)
    );
    assert_eq!(mgr.phase, Phase::Idle);

    let mut mgr = ConnectionManager::new(rdp_only(), settings(30, 3));
    assert_eq!(
        mgr.connect(ConnectionType::Both, false),
        Err(ConnectError::ConfigError)
    );
    assert_eq!(mgr.phase, Phase::Idle);
    assert_eq!(mgr.vpn_connects, 0);
    assert_eq!(mgr.vpn_disconnects, 0);
}

#[test]
fn test_malformed_ssh_target_is_config_error() {
    let server = Server {
        name: "C".to_string(),
        ssh: Some("nouser-no-at-sign".to_string()),
        rdp: "10.0.0.1".to_string(),
        vpn: "C-VPN".to_string(),
    };
    let mut mgr = ConnectionManager::new(server, settings(30, 3));
    assert_eq!(
        mgr.connect(ConnectionType::Ssh, false),
        Err(ConnectError::ConfigError)
    );
    // Refused before orchestration: no ping, no launch, no VPN command.
    assert_eq!(mgr.phase, Phase::Idle);
    assert_eq!(mgr.vpn_connects, 0);
    assert_eq!(mgr.rdp_launches, 0);
    assert_eq!(mgr.ssh_launches, 0);
}

#[test]
fn test_cancelled_before_any_call() {
    let mut mgr = ConnectionManager::new(server_a(), settings(30, 3));
    let first = mgr.connect(ConnectionType::Both, true).unwrap();
    assert_eq!(first, Action::DisconnectVpn);
    assert_eq!(mgr.step(true, true), Action::Finished);
    assert_eq!(mgr.result(), Err(ConnectError::Cancelled));
    assert_eq!(mgr.vpn_connects, 0);
    assert_eq!(mgr.vpn_disconnects, 1);
    assert_eq!(mgr.rdp_launches, 0);
    assert_eq!(mgr.ssh_launches, 0);
}

#[test]
fn test_both_mode_full_call_sequence() {
    // Both hosts reachable: VPN connect, tunnel probe succeeds, RDP probe
    // succeeds, RDP launches, SSH probe succeeds, SSH runs, RDP is waited
    // on, and the VPN is disconnected.
    let mut mgr = ConnectionManager::new(server_a(), settings(30, 3));
    assert_eq!(
        mgr.connect(ConnectionType::Both, false),
        Ok(Action::ConnectVpn)
    );
    assert_eq!(mgr.step(false, true), Action::PingRdp); // VPN command issued
    assert_eq!(mgr.step(false, true), Action::PingRdp); // tunnel routable; probe RDP host
    assert_eq!(mgr.step(false, true), Action::LaunchRdp); // RDP host reachable
    assert_eq!(mgr.step(false, true), Action::PingSsh); // RDP spawned; probe SSH host
    assert_eq!(mgr.step(false, true), Action::LaunchSsh); // SSH host reachable
    assert_eq!(mgr.step(false, true), Action::WaitRdp); // SSH session ended
    assert_eq!(mgr.step(false, true), Action::DisconnectVpn); // RDP process ended
    assert_eq!(mgr.step(false, true), Action::Finished);
    assert_eq!(mgr.result(), Ok(()));
    assert_eq!(mgr.vpn_connects, 1);
    assert_eq!(mgr.vpn_disconnects, 1);
    assert_eq!(mgr.rdp_launches, 1);
    assert_eq!(mgr.ssh_launches, 1);
}

#[test]
fn test_vpn_wait_times_out_and_proceeds() {
    // A tunnel that never answers: the wait probes at 0s, 2s, 4s and 5s,
    // sleeping 2s, 2s and 1s, then proceeds anyway.
    let mut mgr = ConnectionManager::new(rdp_only(), settings(5, 3));
    assert_eq!(
        mgr.connect(ConnectionType::Rdp, false),
        Ok(Action::ConnectVpn)
    );
    assert_eq!(mgr.step(false, true), Action::PingRdp);
    assert_eq!(mgr.step(false, false), Action::Sleep(2000));
    assert_eq!(mgr.step(false, false), Action::PingRdp);
    assert_eq!(mgr.step(false, false), Action::Sleep(2000));
    assert_eq!(mgr.step(false, false), Action::PingRdp);
    assert_eq!(mgr.step(false, false), Action::Sleep(1000));
    assert_eq!(mgr.step(false, false), Action::PingRdp);
    // Timeout reached: the failing probe no longer waits but enters the
    // launch part (the reachability check of the RDP host).
    assert_eq!(mgr.step(false, false), Action::PingRdp);
    assert_eq!(mgr.phase, Phase::CheckingRdp);
}

#[test]
fn test_reachability_check_three_probes_with_backoff() {
    // pingRetries = 3 and a host that never answers: exactly three probes,
    // with sleeps of 1s and 2s between them and none after the last.
    let mut mgr = ConnectionManager::new(rdp_only(), settings(30, 3));
    assert_eq!(
        mgr.connect(ConnectionType::Rdp, false),
        Ok(Action::ConnectVpn)
    );
    assert_eq!(mgr.step(false, true), Action::PingRdp); // tunnel wait probe
    assert_eq!(mgr.step(false, true), Action::PingRdp); // probe 1 of the check
    assert_eq!(mgr.step(false, false), Action::Sleep(1000));
    assert_eq!(mgr.step(false, false), Action::PingRdp); // probe 2
    assert_eq!(mgr.step(false, false), Action::Sleep(2000));
    assert_eq!(mgr.step(false, false), Action::PingRdp); // probe 3
    // Unreachable after the last probe: the RDP session is skipped, the
    // attempt tears down and still counts as a success.
    assert_eq!(mgr.step(false, false), Action::DisconnectVpn);
    assert_eq!(mgr.step(false, true), Action::Finished);
    assert_eq!(mgr.result(), Ok(()));
    assert_eq!(mgr.rdp_launches, 0);
    assert_eq!(mgr.vpn_disconnects, 1);
}

#[test]
fn test_both_mode_rdp_unreachable_ssh_still_launches() {
    let mut mgr = ConnectionManager::new(server_a(), settings(30, 2));
    assert_eq!(
        mgr.connect(ConnectionType::Both, false),
        Ok(Action::ConnectVpn)
    );
    assert_eq!(mgr.step(false, true), Action::PingRdp); // tunnel wait probe
    assert_eq!(mgr.step(false, true), Action::PingRdp); // tunnel routable; RDP probe 1
    assert_eq!(mgr.step(false, false), Action::Sleep(1000)); // RDP probe 1 fails
    assert_eq!(mgr.step(false, false), Action::PingRdp); // RDP probe 2
    assert_eq!(mgr.step(false, false), Action::PingSsh); // RDP probe 2 fails: fall back to SSH
    assert_eq!(mgr.step(false, true), Action::LaunchSsh); // SSH reachable: still launches
    assert_eq!(mgr.step(false, true), Action::DisconnectVpn); // SSH ended; no RDP to wait on
    assert_eq!(mgr.step(false, true), Action::Finished);
    assert_eq!(mgr.result(), Ok(()));
    assert_eq!(mgr.rdp_launches, 0);
    assert_eq!(mgr.ssh_launches, 1);
    assert_eq!(mgr.vpn_disconnects, 1);
}

#[test]
fn test_rdp_launch_failure_is_fatal_with_teardown() {
    let mut mgr = ConnectionManager::new(rdp_only(), settings(30, 3));
    assert_eq!(
        mgr.connect(ConnectionType::Rdp, false),
        Ok(Action::ConnectVpn)
    );
    assert_eq!(mgr.step(false, true), Action::PingRdp);
    assert_eq!(mgr.step(false, true), Action::PingRdp);
    assert_eq!(mgr.step(false, true), Action::LaunchRdp);
    assert_eq!(mgr.step(false, false), Action::DisconnectVpn); // spawn failed
    assert_eq!(mgr.step(false, true), Action::Finished);
    assert_eq!(mgr.result(), Err(ConnectError::LaunchError));
    assert_eq!(mgr.vpn_disconnects, 1);
}

#[test]
fn test_ssh_launch_failure_reflects_in_outcome() {
    let mut mgr = ConnectionManager::new(server_a(), settings(30, 1));
    assert_eq!(
        mgr.connect(ConnectionType::Ssh, false),
        Ok(Action::ConnectVpn)
    );
    assert_eq!(mgr.step(false, true), Action::PingRdp); // tunnel wait probe
    assert_eq!(mgr.step(false, true), Action::PingSsh); // SSH mode probes the SSH host
    assert_eq!(mgr.step(false, true), Action::LaunchSsh);
    assert_eq!(mgr.step(false, false), Action::DisconnectVpn); // spawn failed
    assert_eq!(mgr.step(false, true), Action::Finished);
    assert_eq!(mgr.result(), Err(ConnectError::LaunchError));
    assert_eq!(mgr.vpn_disconnects, 1);
}

#[test]
fn test_cancel_during_wait_tears_down_once() {
    let mut mgr = ConnectionManager::new(server_a(), settings(30, 3));
    assert_eq!(
        mgr.connect(ConnectionType::Rdp, false),
        Ok(Action::ConnectVpn)
    );
    assert_eq!(mgr.step(false, true), Action::PingRdp);
    assert_eq!(mgr.step(true, false), Action::DisconnectVpn); // cancellation observed
    assert_eq!(mgr.step(true, true), Action::Finished);
    assert_eq!(mgr.result(), Err(ConnectError::Cancelled));
    assert_eq!(mgr.vpn_connects, 1);
    assert_eq!(mgr.vpn_disconnects, 1);
    assert_eq!(mgr.rdp_launches, 0);
}

fn disconnects(trace: &[Action]) -> usize {
    trace.iter().filter(|a| **a == Action::DisconnectVpn).count()
}

#[test]
fn test_run_to_end_always_tears_down_once() {
    // Everything reachable and spawnable: success, one disconnect.
    let mut mgr = ConnectionManager::new(server_a(), settings(5, 3));
    let pending = mgr.connect(ConnectionType::Both, false).unwrap();
    let trace = mgr.run_to_end(pending, true, true);
    assert_eq!(disconnects(&trace), 1);
    assert_eq!(mgr.result(), Ok(()));

    // Nothing reachable: both sessions skipped, still success, still one
    // disconnect, and no launch was ever emitted.
    let mut mgr = ConnectionManager::new(server_a(), settings(5, 3));
    let pending = mgr.connect(ConnectionType::Both, false).unwrap();
    let trace = mgr.run_to_end(pending, false, true);
    assert_eq!(disconnects(&trace), 1);
    assert!(!trace
        .iter()
        .any(|a| matches!(a, Action::LaunchRdp | Action::LaunchSsh)));
    assert_eq!(mgr.result(), Ok(()));

    // Spawns failing: the attempt fails, still one disconnect.
    let mut mgr = ConnectionManager::new(server_a(), settings(5, 3));
    let pending = mgr.connect(ConnectionType::Both, false).unwrap();
    let trace = mgr.run_to_end(pending, true, false);
    assert_eq!(disconnects(&trace), 1);
    assert_eq!(mgr.result(), Err(ConnectError::LaunchError));
}

#[test]
fn test_vpn_soft_failure_is_not_fatal() {
    // The VPN connect command failing does not abort the attempt.
    let mut mgr = ConnectionManager::new(rdp_only(), settings(30, 1));
    assert_eq!(
        mgr.connect(ConnectionType::Rdp, false),
        Ok(Action::ConnectVpn)
    );
    assert_eq!(mgr.step(false, false), Action::PingRdp); // command failed: proceed
    assert_eq!(mgr.phase, Phase::WaitingForVpn);
}
