use sap_it::config::Config;
use sap_it::config::Server;
use sap_it::config::Settings;
use sap_it::connection::ConnectionType;
use sap_it::tui::get_spinner_frame;
use sap_it::tui::App;
use sap_it::tui::ConfirmAction;
use sap_it::tui::ConnectionStatus;
use sap_it::tui::EventHandler;
use sap_it::tui::Screen;
use sap_it::tui::TickCommand;
use sap_it::tui::UiCommand;

fn server(name: &str, ssh: Option<&str>, rdp: &str, vpn: &str) -> Server {
    Server {
        name: name.to_string(),
        ssh: ssh.map(|s| s.to_string()),
        rdp: rdp.to_string(),
        vpn: vpn.to_string(),
    }
}

fn config_with(servers: Vec<Server>) -> Config {
    Config {
        servers,
        settings: Settings::default(),
    }
}

fn two_server_app() -> App {
    App::new(config_with(vec![
        server("Alpha", Some("root@10.0.0.2"), "10.0.0.1", "ALPHA"),
        server("Beta", None, "10.1.0.1", "BETA"),
    ]))
}

#[test]
fn test_new_app_defaults() {
    let app = two_server_app();
    assert_eq!(app.screen, Screen::ServerList);
    assert_eq!(app.selected_server, 0);
    assert_eq!(app.connection_status, ConnectionStatus::Idle);
    assert!(!app.should_quit);
    assert!(app.connected_vpn.is_none());
}

#[test]
fn test_server_list_navigation_wraps() {
    let mut app = two_server_app();
    app.select_next();
    assert_eq!(app.selected_server, 1);
    app.select_next();
    assert_eq!(app.selected_server, 0);
    app.select_previous();
    assert_eq!(app.selected_server, 1);
    app.select_previous();
    assert_eq!(app.selected_server, 0);
}

#[test]
fn test_empty_list_navigation_is_noop() {
    let mut app = App::new(config_with(vec![]));
    app.select_next();
    assert_eq!(app.selected_server, 0);
    app.select_previous();
    assert_eq!(app.selected_server, 0);
}

#[test]
fn test_connection_type_navigation_wraps() {
    let mut app = two_server_app();
    // Alpha offers SSH: three entries.
    app.go_to_screen(Screen::ConnectionTypeSelect);
    assert_eq!(app.selected_conn_type, 0);
    app.select_next();
    assert_eq!(app.selected_conn_type, 1);
    app.select_next();
    assert_eq!(app.selected_conn_type, 2);
    app.select_next();
    assert_eq!(app.selected_conn_type, 0);
    app.select_previous();
    assert_eq!(app.selected_conn_type, 2);
}

#[test]
fn test_available_types_depend_on_ssh() {
    let mut app = two_server_app();
    assert_eq!(
        app.available_connection_types(),
        vec![
            ConnectionType::Rdp,
            ConnectionType::Ssh,
            ConnectionType::Both
        ]
    );
    app.select_next(); // Beta has no SSH
    assert_eq!(app.available_connection_types(), vec![ConnectionType::Rdp]);
}

#[test]
fn test_confirm_on_ssh_server_opens_type_select() {
    let mut app = two_server_app();
    let cmd = app.confirm_selection(1000);
    assert_eq!(cmd, UiCommand::Stay);
    assert_eq!(app.screen, Screen::ConnectionTypeSelect);
    assert_eq!(app.selected_conn_type, 0);
}

#[test]
fn test_confirm_on_rdp_only_server_starts_connection() {
    let mut app = two_server_app();
    app.select_next(); // Beta: RDP only
    let cmd = app.confirm_selection(1000);
    assert_eq!(cmd, UiCommand::StartVpn);
    assert_eq!(app.screen, Screen::Connecting);
    assert_eq!(app.connection_status, ConnectionStatus::ConnectingVpn);
    assert_eq!(app.connected_vpn.as_deref(), Some("BETA"));
    assert_eq!(app.connected_server, Some(1));
    assert_eq!(app.connection_start, Some(1000));
}

#[test]
fn test_connection_ticks_to_connected_with_rdp_launch() {
    let mut app = two_server_app();
    app.select_next();
    app.confirm_selection(1000);
    // VPN command succeeded.
    assert_eq!(app.update_connection(1100, true), TickCommand::Nothing);
    assert_eq!(app.connection_status, ConnectionStatus::WaitingForVpn);
    // A probe of the RDP host answered.
    assert_eq!(app.update_connection(1400, true), TickCommand::Nothing);
    assert_eq!(app.connection_status, ConnectionStatus::StartingSession);
    // The session tick launches RDP and shows the session screen.
    assert_eq!(app.update_connection(1600, true), TickCommand::StartRdp);
    assert_eq!(app.connection_status, ConnectionStatus::Connected);
    assert_eq!(app.screen, Screen::Connected);
}

#[test]
fn test_vpn_command_failure_shows_error() {
    let mut app = two_server_app();
    app.select_next();
    app.confirm_selection(1000);
    assert_eq!(app.update_connection(1100, false), TickCommand::Nothing);
    assert_eq!(
        app.connection_status,
        ConnectionStatus::Error("VPN error".to_string())
    );
    // The screen stays on Connecting until the user acknowledges.
    assert_eq!(app.screen, Screen::Connecting);
}

#[test]
fn test_vpn_wait_timeout_shows_error() {
    let mut app = two_server_app();
    app.select_next();
    app.confirm_selection(1000);
    app.update_connection(1100, true); // waiting now
    // Probes keep failing within the timeout: still waiting.
    assert_eq!(app.update_connection(21_000, false), TickCommand::Nothing);
    assert_eq!(app.connection_status, ConnectionStatus::WaitingForVpn);
    // 30 s (default) past the start, the wait gives up.
    assert_eq!(app.update_connection(32_000, false), TickCommand::Nothing);
    assert_eq!(
        app.connection_status,
        ConnectionStatus::Error("VPN connection timeout".to_string())
    );
}

#[test]
fn test_disconnect_returns_vpn_name_and_resets() {
    let mut app = two_server_app();
    app.select_next();
    app.confirm_selection(1000);
    let vpn = app.disconnect(2000);
    assert_eq!(vpn.as_deref(), Some("BETA"));
    assert_eq!(app.connection_status, ConnectionStatus::Idle);
    assert_eq!(app.screen, Screen::ServerList);
    assert!(app.connected_vpn.is_none());
    assert!(app.connected_server.is_none());
    assert!(app.connection_start.is_none());
}

#[test]
fn test_quit_while_connected_needs_confirmation() {
    let mut app = two_server_app();
    app.select_next();
    app.confirm_selection(1000);
    app.update_connection(1100, true);
    app.update_connection(1200, true);
    app.update_connection(1300, true);
    assert_eq!(app.screen, Screen::Connected);
    app.request_quit();
    assert!(!app.should_quit);
    assert_eq!(app.screen, Screen::Confirm);
    assert_eq!(app.confirm_action, Some(ConfirmAction::Quit));
    // Confirming runs teardown and quits.
    app.confirm_selection = 1;
    let cmd = app.confirm_selection(2000);
    assert_eq!(cmd, UiCommand::StopVpn("BETA".to_string()));
    assert!(app.should_quit);
    assert!(app.connected_vpn.is_none());
}

#[test]
fn test_quit_while_idle_is_immediate() {
    let mut app = two_server_app();
    app.request_quit();
    assert!(app.should_quit);
    assert_eq!(app.screen, Screen::ServerList);
}

#[test]
fn test_confirm_no_dismisses_action() {
    let mut app = two_server_app();
    app.delete_selected_server();
    assert_eq!(app.screen, Screen::Confirm);
    assert_eq!(app.confirm_action, Some(ConfirmAction::DeleteServer(0)));
    // "No" is preselected.
    let cmd = app.confirm_selection(500);
    assert_eq!(cmd, UiCommand::Stay);
    assert_eq!(app.screen, Screen::ServerList);
    assert!(app.confirm_action.is_none());
    assert_eq!(app.config.servers.len(), 2);
}

#[test]
fn test_delete_server_confirmed() {
    let mut app = two_server_app();
    app.delete_selected_server();
    app.select_next(); // toggle to "Yes"
    assert_eq!(app.confirm_selection, 1);
    let cmd = app.confirm_selection(500);
    assert_eq!(cmd, UiCommand::Stay);
    assert_eq!(app.config.servers.len(), 1);
    assert_eq!(app.config.servers[0].name, "Beta");
    assert_eq!(app.screen, Screen::ServerList);
}

#[test]
fn test_add_server_through_edit_form() {
    let mut app = two_server_app();
    app.add_server();
    assert_eq!(app.screen, Screen::EditServer);
    assert!(!app.edit_mode);
    for c in "Gamma".chars() {
        app.handle_char(c);
    }
    app.confirm_selection(100); // name -> rdp
    for c in "10.2.0.1".chars() {
        app.handle_char(c);
    }
    app.confirm_selection(100); // rdp -> ssh, left empty
    app.confirm_selection(100); // ssh -> vpn
    for c in "GAMMA".chars() {
        app.handle_char(c);
    }
    let cmd = app.confirm_selection(100); // commit
    assert_eq!(cmd, UiCommand::Stay);
    assert_eq!(app.screen, Screen::ServerList);
    assert_eq!(app.config.servers.len(), 3);
    let added = &app.config.servers[2];
    assert_eq!(added.name, "Gamma");
    assert_eq!(added.rdp, "10.2.0.1");
    assert_eq!(added.vpn, "GAMMA");
    assert!(added.ssh.is_none());
    assert_eq!(app.selected_server, 2);
}

#[test]
fn test_edit_server_updates_in_place() {
    let mut app = two_server_app();
    app.edit_selected_server();
    assert!(app.edit_mode);
    assert_eq!(app.input_buffer.iter().collect::<String>(), "Alpha");
    // Rename: clear the name and type a new one.
    while app.cursor_position > 0 {
        app.handle_backspace();
    }
    for c in "Omega".chars() {
        app.handle_char(c);
    }
    app.confirm_selection(100);
    app.confirm_selection(100);
    app.confirm_selection(100);
    app.confirm_selection(100);
    assert_eq!(app.config.servers.len(), 2);
    assert_eq!(app.config.servers[0].name, "Omega");
    assert_eq!(app.config.servers[0].rdp, "10.0.0.1");
    assert_eq!(app.config.servers[0].ssh.as_deref(), Some("root@10.0.0.2"));
}

#[test]
fn test_commit_requires_name_rdp_and_vpn() {
    let mut app = two_server_app();
    app.add_server();
    // Leave the name empty, fill only the RDP address and the VPN name.
    app.confirm_selection(100); // name (empty) -> rdp
    for c in "10.9.0.1".chars() {
        app.handle_char(c);
    }
    app.confirm_selection(100); // rdp -> ssh
    app.confirm_selection(100); // ssh -> vpn
    for c in "NINE".chars() {
        app.handle_char(c);
    }
    let cmd = app.confirm_selection(100); // commit refused: name is empty
    assert_eq!(cmd, UiCommand::Stay);
    assert_eq!(app.screen, Screen::EditServer);
    assert_eq!(app.config.servers.len(), 2);
}

#[test]
fn test_edit_buffer_cursor_and_delete() {
    let mut app = two_server_app();
    app.add_server();
    for c in "abd".chars() {
        app.handle_char(c);
    }
    app.cursor_left();
    app.handle_char('c'); // "abcd"
    assert_eq!(app.input_buffer.iter().collect::<String>(), "abcd");
    app.cursor_left();
    app.cursor_left();
    app.handle_delete(); // removes 'b'
    assert_eq!(app.input_buffer.iter().collect::<String>(), "acd");
    app.handle_backspace(); // removes 'a'
    assert_eq!(app.input_buffer.iter().collect::<String>(), "cd");
}

#[test]
fn test_go_back_restores_previous_screen() {
    let mut app = two_server_app();
    app.go_to_screen(Screen::Help);
    assert_eq!(app.screen, Screen::Help);
    app.go_back();
    assert_eq!(app.screen, Screen::ServerList);
    app.go_back();
    assert_eq!(app.screen, Screen::ServerList);
}

#[test]
fn test_help_scroll_saturates_at_zero() {
    let mut app = two_server_app();
    app.go_to_screen(Screen::Help);
    app.select_previous();
    assert_eq!(app.help_scroll, 0);
    app.select_next();
    app.select_next();
    assert_eq!(app.help_scroll, 2);
    app.select_previous();
    assert_eq!(app.help_scroll, 1);
}

#[test]
fn test_status_log_keeps_last_hundred() {
    let mut app = two_server_app();
    for i in 0..150u64 {
        app.log_status(i, format!("message {}", i));
    }
    assert_eq!(app.status_log.len(), 100);
    assert_eq!(app.status_log[0].1, "message 50");
    assert_eq!(app.status_log[99].1, "message 149");
}

#[test]
fn test_format_duration() {
    assert_eq!(App::format_duration(0), "00:00");
    assert_eq!(App::format_duration(59), "00:59");
    assert_eq!(App::format_duration(65), "01:05");
    assert_eq!(App::format_duration(3600), "01:00:00");
    assert_eq!(App::format_duration(3661), "01:01:01");
    assert_eq!(App::format_duration(360_000), "100:00:00");
}

#[test]
fn test_connection_duration() {
    let mut app = two_server_app();
    assert_eq!(app.connection_duration(5000), None);
    app.select_next();
    app.confirm_selection(1000);
    assert_eq!(app.connection_duration(5000), Some(4000));
}

#[test]
fn test_spinner_frame_cycles() {
    let a = get_spinner_frame(0);
    let b = get_spinner_frame(100);
    assert_ne!(a, b);
    assert_eq!(get_spinner_frame(0), get_spinner_frame(1000));
}

#[test]
fn test_event_handler_tick_rate() {
    let handler = EventHandler::new(250);
    assert_eq!(handler.tick_rate_ms, 250);
}

#[test]
fn test_selected_connection_type_mapping() {
    let mut app = two_server_app();
    assert_eq!(app.selected_connection_type(), ConnectionType::Rdp);
    app.selected_conn_type = 1;
    assert_eq!(app.selected_connection_type(), ConnectionType::Ssh);
    app.selected_conn_type = 2;
    assert_eq!(app.selected_connection_type(), ConnectionType::Both);
}
