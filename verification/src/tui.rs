//! Interactive controller: the screen-navigation state machine of the
//! terminal interface.
//!
//! The controller owns the current screen, the selections, the edit form and
//! the connection status, and decides every transition. It performs no
//! platform work itself: methods that in effect start or stop something
//! return a command describing the platform call the caller must make, and
//! take the call's result and the current time as plain values.

use vstd::prelude::*;
use vstd::string::StringExecFns;

use crate::config::Config;
use crate::config::Server;
use crate::connection::ConnectionType;
use crate::textutil::chars_of;
use crate::textutil::duration_text;
use crate::textutil::padded2_chars;
use crate::textutil::string_of;

verus! {

/// Current screen/view in the application.
#[derive(Clone, Copy, Debug, PartialEq, Eq, Structural)]
pub enum Screen {
    /// Main server selection screen.
    ServerList,
    /// Connection type selection.
    ConnectionTypeSelect,
    /// Connecting status screen.
    Connecting,
    /// Connected/session active screen.
    Connected,
    /// Help screen.
    Help,
    /// Settings screen.
    Settings,
    /// Add/Edit server screen.
    EditServer,
    /// Confirmation dialog.
    Confirm,
}

/// Connection status during the connection process.
#[derive(Clone, Debug, PartialEq, Eq)]
pub enum ConnectionStatus {
    Idle,
    ConnectingVpn,
    WaitingForVpn,
    CheckingConnectivity,
    StartingSession,
    Connected,
    Disconnecting,
    Error(String),
}

/// Confirmation dialog type.
#[derive(Clone, Copy, Debug, PartialEq, Eq, Structural)]
pub enum ConfirmAction {
    DeleteServer(usize),
    Disconnect,
    Quit,
}

/// Fields for editing a server.
#[derive(Clone, Debug)]
pub struct EditServerFields {
    pub name: String,
    pub rdp: String,
    pub ssh: String,
    pub vpn: String,
}

impl Default for EditServerFields {
    fn default() -> (r: Self)
        ensures
            r.name@ == Seq::<char>::empty(),
            r.rdp@ == Seq::<char>::empty(),
            r.ssh@ == Seq::<char>::empty(),
            r.vpn@ == Seq::<char>::empty(),
    {
        EditServerFields {
            name: String::new(),
            rdp: String::new(),
            ssh: String::new(),
            vpn: String::new(),
        }
    }
}

/// The text of the edit form field with the given focus index.
pub open spec fn field_text(f: EditServerFields, i: int) -> Seq<char> {
    if i == 0 {
        f.name@
    } else if i == 1 {
        f.rdp@
    } else if i == 2 {
        f.ssh@
    } else {
        f.vpn@
    }
}

/// The index before `i` in a circular list of `len` entries.
pub open spec fn wrap_prev(i: int, len: int) -> int {
    if i > 0 {
        i - 1
    } else if len > 0 {
        len - 1
    } else {
        0
    }
}

/// The index after `i` in a circular list of `len` entries.
pub open spec fn wrap_next(i: int, len: int) -> int {
    if len > 0 {
        (i + 1) % len
    } else {
        i
    }
}

/// What moving the selection up does, screen by screen.
pub open spec fn select_previous_post(a: App, b: App) -> bool {
    match a.screen {
        Screen::ServerList => {
            &&& b.selected_server == wrap_prev(
                a.selected_server as int,
                a.config.servers@.len() as int,
            )
            &&& b == (App { selected_server: b.selected_server, ..a })
        },
        Screen::ConnectionTypeSelect => {
            &&& b.selected_conn_type == wrap_prev(a.selected_conn_type as int, a.avail_len())
            &&& b == (App { selected_conn_type: b.selected_conn_type, ..a })
        },
        Screen::Confirm => {
            &&& b.confirm_selection == if a.confirm_selection == 0 {
                1int
            } else {
                0int
            }
            &&& b == (App { confirm_selection: b.confirm_selection, ..a })
        },
        Screen::EditServer => {
            if a.edit_field_index > 0 {
                &&& b.edit_field_index == a.edit_field_index - 1
                &&& b.input_buffer@ == field_text(a.edit_server_fields, a.edit_field_index - 1)
                &&& b.cursor_position == b.input_buffer@.len()
                &&& b == (App {
                    edit_field_index: b.edit_field_index,
                    input_buffer: b.input_buffer,
                    cursor_position: b.cursor_position,
                    ..a
                })
            } else {
                b == a
            }
        },
        Screen::Help => {
            &&& b.help_scroll == if a.help_scroll > 0 {
                a.help_scroll - 1
            } else {
                0int
            }
            &&& b == (App { help_scroll: b.help_scroll, ..a })
        },
        Screen::Settings => {
            &&& b.settings_scroll == if a.settings_scroll > 0 {
                a.settings_scroll - 1
            } else {
                0int
            }
            &&& b == (App { settings_scroll: b.settings_scroll, ..a })
        },
        _ => b == a,
    }
}

/// What moving the selection down does, screen by screen.
pub open spec fn select_next_post(a: App, b: App) -> bool {
    match a.screen {
        Screen::ServerList => {
            &&& b.selected_server == wrap_next(
                a.selected_server as int,
                a.config.servers@.len() as int,
            )
            &&& b == (App { selected_server: b.selected_server, ..a })
        },
        Screen::ConnectionTypeSelect => {
            &&& b.selected_conn_type == wrap_next(a.selected_conn_type as int, a.avail_len())
            &&& b == (App { selected_conn_type: b.selected_conn_type, ..a })
        },
        Screen::Confirm => {
            &&& b.confirm_selection == if a.confirm_selection == 0 {
                1int
            } else {
                0int
            }
            &&& b == (App { confirm_selection: b.confirm_selection, ..a })
        },
        Screen::EditServer => {
            if a.edit_field_index < 3 {
                &&& b.edit_field_index == a.edit_field_index + 1
                &&& b.input_buffer@ == field_text(a.edit_server_fields, a.edit_field_index + 1)
                &&& b.cursor_position == b.input_buffer@.len()
                &&& b == (App {
                    edit_field_index: b.edit_field_index,
                    input_buffer: b.input_buffer,
                    cursor_position: b.cursor_position,
                    ..a
                })
            } else {
                b == a
            }
        },
        Screen::Help => {
            &&& b.help_scroll == if a.help_scroll < usize::MAX {
                a.help_scroll + 1
            } else {
                a.help_scroll as int
            }
            &&& b == (App { help_scroll: b.help_scroll, ..a })
        },
        Screen::Settings => {
            &&& b.settings_scroll == if a.settings_scroll < usize::MAX {
                a.settings_scroll + 1
            } else {
                a.settings_scroll as int
            }
            &&& b == (App { settings_scroll: b.settings_scroll, ..a })
        },
        _ => b == a,
    }
}

/// Whether the tunnel wait has outlived the VPN timeout at time `now_ms`.
pub open spec fn vpn_wait_timed_out(a: App, now_ms: u64) -> bool {
    match a.connection_start {
        Some(t0) => (if now_ms >= t0 {
            now_ms - t0
        } else {
            0int
        }) > a.config.settings.vpn_timeout_secs * 1000,
        None => false,
    }
}

/// What one status tick does, status by status.
pub open spec fn update_connection_post(a: App, b: App, now_ms: u64, ok: bool, r: TickCommand) -> bool {
    match a.connection_status {
        ConnectionStatus::ConnectingVpn => {
            &&& r is Nothing
            &&& (ok ==> b.connection_status is WaitingForVpn)
            &&& (!ok ==> (b.connection_status matches ConnectionStatus::Error(m) && m@
                == "VPN error"@))
            &&& b == (App {
                connection_status: b.connection_status,
                status_log: b.status_log,
                ..a
            })
        },
        ConnectionStatus::WaitingForVpn => {
            &&& r is Nothing
            &&& if a.current_server_spec() is Some {
                if ok {
                    &&& b.connection_status is StartingSession
                    &&& b == (App {
                        connection_status: b.connection_status,
                        status_log: b.status_log,
                        ..a
                    })
                } else if vpn_wait_timed_out(a, now_ms) {
                    &&& b.connection_status matches ConnectionStatus::Error(m) && m@
                        == "VPN connection timeout"@
                    &&& b == (App {
                        connection_status: b.connection_status,
                        status_log: b.status_log,
                        ..a
                    })
                } else {
                    b == a
                }
            } else {
                b == a
            }
        },
        ConnectionStatus::StartingSession => {
            if a.current_server_spec() is Some {
                &&& b.connection_status is Connected
                &&& b.screen is Connected
                &&& (r is StartRdp <==> !(a.selected_connection_type_spec() is Ssh))
                &&& b == (App {
                    connection_status: b.connection_status,
                    screen: Screen::Connected,
                    status_log: b.status_log,
                    ..a
                })
            } else {
                b == a && r is Nothing
            }
        },
        _ => b == a && r is Nothing,
    }
}

/// A connection attempt was begun for the selected server of `a`: `b`
/// records what is being connected and shows the `Connecting` screen.
pub open spec fn connection_started(a: App, b: App, now_ms: u64) -> bool {
    &&& b.connection_status is ConnectingVpn
    &&& b.connection_start == Some(now_ms)
    &&& b.connected_server == Some(a.selected_server)
    &&& (b.connected_vpn matches Some(v) && v@ == a.current_server_spec()->0.vpn@)
    &&& b.screen is Connecting
    &&& b.prev_screen == Some(a.screen)
    &&& b == (App {
        connection_status: b.connection_status,
        connection_start: b.connection_start,
        connected_server: b.connected_server,
        connected_vpn: b.connected_vpn,
        screen: b.screen,
        prev_screen: b.prev_screen,
        status_log: b.status_log,
        ..a
    })
}

/// The screen shown after going back from `a`.
pub open spec fn back_screen(a: App) -> Screen {
    match a.prev_screen {
        Some(p) => p,
        None => a.screen,
    }
}

/// The session state was cleared and the server list shown again; the VPN
/// name to disconnect, if any, went into the command.
pub open spec fn disconnected(a: App, b: App, r: UiCommand) -> bool {
    &&& b.connected_vpn is None
    &&& b.connected_server is None
    &&& b.connection_start is None
    &&& b.connection_status is Idle
    &&& b.screen is ServerList
    &&& b.prev_screen is None
    &&& b.confirm_action is None
    &&& (a.connected_vpn matches Some(v) ==> (r matches UiCommand::StopVpn(x) && x@ == v@))
    &&& (a.connected_vpn is None ==> r is Stay)
}

/// What confirming the current selection does, screen by screen.
pub open spec fn confirm_selection_post(a: App, b: App, now_ms: u64, r: UiCommand) -> bool {
    match a.screen {
        Screen::ServerList => {
            match a.current_server_spec() {
                Some(s) => {
                    if s.has_ssh_spec() {
                        &&& b == (App {
                            selected_conn_type: 0,
                            screen: Screen::ConnectionTypeSelect,
                            prev_screen: Some(Screen::ServerList),
                            ..a
                        })
                        &&& r is Stay
                    } else if a.connected_vpn is None {
                        &&& connection_started((App { selected_conn_type: 0, ..a }), b, now_ms)
                        &&& r is StartVpn
                    } else {
                        &&& b == (App { selected_conn_type: 0, ..a })
                        &&& r is Stay
                    }
                },
                None => b == a && r is Stay,
            }
        },
        Screen::ConnectionTypeSelect => {
            match a.current_server_spec() {
                Some(s) => {
                    if a.connected_vpn is None {
                        connection_started(a, b, now_ms) && r is StartVpn
                    } else {
                        b == a && r is Stay
                    }
                },
                None => b == a && r is Stay,
            }
        },
        Screen::Confirm => {
            if a.confirm_selection != 1 {
                &&& b == (App {
                    confirm_action: None,
                    screen: back_screen(a),
                    prev_screen: None,
                    ..a
                })
                &&& r is Stay
            } else {
                match a.confirm_action {
                    Some(ConfirmAction::DeleteServer(i)) => {
                        &&& b.config.servers@ == a.config.servers@.remove(i as int)
                        &&& b.config.settings == a.config.settings
                        &&& b.selected_server == (if a.selected_server
                            >= a.config.servers@.len() - 1 && a.selected_server > 0 {
                            a.selected_server - 1
                        } else {
                            a.selected_server as int
                        })
                        &&& b.confirm_action is None
                        &&& b.screen == back_screen(a)
                        &&& b.prev_screen is None
                        &&& b == (App {
                            config: b.config,
                            selected_server: b.selected_server,
                            confirm_action: None,
                            screen: b.screen,
                            prev_screen: None,
                            status_log: b.status_log,
                            ..a
                        })
                        &&& r is Stay
                    },
                    Some(ConfirmAction::Disconnect) => {
                        &&& disconnected(a, b, r)
                        &&& b == (App {
                            connected_vpn: None,
                            connected_server: None,
                            connection_start: None,
                            connection_status: ConnectionStatus::Idle,
                            screen: Screen::ServerList,
                            prev_screen: None,
                            confirm_action: None,
                            status_log: b.status_log,
                            ..a
                        })
                    },
                    Some(ConfirmAction::Quit) => {
                        &&& disconnected(a, b, r)
                        &&& b.should_quit
                        &&& b == (App {
                            connected_vpn: None,
                            connected_server: None,
                            connection_start: None,
                            connection_status: ConnectionStatus::Idle,
                            screen: Screen::ServerList,
                            prev_screen: None,
                            confirm_action: None,
                            should_quit: true,
                            status_log: b.status_log,
                            ..a
                        })
                    },
                    None => {
                        &&& b == (App {
                            screen: back_screen(a),
                            prev_screen: None,
                            ..a
                        })
                        &&& r is Stay
                    },
                }
            }
        },
        Screen::EditServer => {
            if a.edit_field_index < 3 {
                &&& field_text(b.edit_server_fields, a.edit_field_index as int)
                    == a.input_buffer@
                &&& (forall|j: int| 0 <= j <= 3 && j != a.edit_field_index ==> field_text(
                    b.edit_server_fields,
                    j,
                ) == field_text(a.edit_server_fields, j))
                &&& b.edit_field_index == a.edit_field_index + 1
                &&& b.input_buffer@ == field_text(a.edit_server_fields, a.edit_field_index + 1)
                &&& b.cursor_position == b.input_buffer@.len()
                &&& b == (App {
                    edit_server_fields: b.edit_server_fields,
                    edit_field_index: b.edit_field_index,
                    input_buffer: b.input_buffer,
                    cursor_position: b.cursor_position,
                    ..a
                })
                &&& r is Stay
            } else if a.edit_server_fields.name@.len() > 0 && a.edit_server_fields.rdp@.len() > 0
                && a.input_buffer@.len() > 0 {
                &&& save_server_changes(a, b)
                &&& b.screen is ServerList
                &&& b.prev_screen == Some(Screen::EditServer)
                &&& b == (App {
                    edit_server_fields: b.edit_server_fields,
                    config: b.config,
                    selected_server: b.selected_server,
                    status_log: b.status_log,
                    screen: Screen::ServerList,
                    prev_screen: b.prev_screen,
                    ..a
                })
                &&& r is Stay
            } else {
                &&& field_text(b.edit_server_fields, a.edit_field_index as int)
                    == a.input_buffer@
                &&& (forall|j: int| 0 <= j <= 3 && j != a.edit_field_index ==> field_text(
                    b.edit_server_fields,
                    j,
                ) == field_text(a.edit_server_fields, j))
                &&& b.config == a.config
                &&& b.screen is EditServer
                &&& b == (App {
                    edit_server_fields: b.edit_server_fields,
                    status_log: b.status_log,
                    ..a
                })
                &&& r is Stay
            }
        },
        Screen::Connected => {
            &&& b == (App {
                confirm_action: Some(ConfirmAction::Disconnect),
                confirm_selection: 0,
                screen: Screen::Confirm,
                prev_screen: Some(Screen::Connected),
                ..a
            })
            &&& r is Stay
        },
        _ => b == a && r is Stay,
    }
}

/// Whether the server record carries exactly what the edit form holds, an
/// empty SSH field meaning no SSH.
pub open spec fn server_matches_fields(s: Server, f: EditServerFields) -> bool {
    &&& s.name@ == f.name@
    &&& s.rdp@ == f.rdp@
    &&& s.vpn@ == f.vpn@
    &&& (f.ssh@.len() == 0 ==> s.ssh is None)
    &&& (f.ssh@.len() > 0 ==> (s.ssh matches Some(x) && x@ == f.ssh@))
}

/// What committing the edit form does: the focused field takes the input
/// buffer, and the form is upserted into the catalog.
pub open spec fn save_server_post(a: App, b: App) -> bool {
    &&& save_server_changes(a, b)
    &&& b == (App {
        edit_server_fields: b.edit_server_fields,
        config: b.config,
        selected_server: b.selected_server,
        status_log: b.status_log,
        ..a
    })
}

/// The field and catalog changes of committing the edit form.
pub open spec fn save_server_changes(a: App, b: App) -> bool {
    &&& field_text(b.edit_server_fields, a.edit_field_index as int) == a.input_buffer@
    &&& (forall|j: int| 0 <= j <= 3 && j != a.edit_field_index ==> field_text(
        b.edit_server_fields,
        j,
    ) == field_text(a.edit_server_fields, j))
    &&& if a.edit_mode && a.selected_server < a.config.servers@.len() {
        &&& b.config.servers@.len() == a.config.servers@.len()
        &&& server_matches_fields(
            b.config.servers@[a.selected_server as int],
            b.edit_server_fields,
        )
        &&& (forall|j: int| 0 <= j < a.config.servers@.len() && j != a.selected_server
            ==> b.config.servers@[j] == a.config.servers@[j])
        &&& b.selected_server == a.selected_server
    } else {
        &&& b.config.servers@.len() == a.config.servers@.len() + 1
        &&& server_matches_fields(
            b.config.servers@[a.config.servers@.len() as int],
            b.edit_server_fields,
        )
        &&& (forall|j: int| 0 <= j < a.config.servers@.len() ==> b.config.servers@[j]
            == a.config.servers@[j])
        &&& b.selected_server == a.config.servers@.len()
    }
    &&& b.config.settings == a.config.settings
}

/// A platform call the caller must make after a controller transition.
#[derive(Clone, Debug, PartialEq, Eq)]
pub enum UiCommand {
    /// No platform work is needed.
    Stay,
    /// Issue the VPN connect command for `App::connected_vpn`.
    StartVpn,
    /// Issue the VPN disconnect command for this VPN name (best effort).
    StopVpn(String),
}

/// A platform call the caller must make after a status tick.
#[derive(Clone, Copy, Debug, PartialEq, Eq, Structural)]
pub enum TickCommand {
    /// No platform work is needed.
    Nothing,
    /// Spawn the RDP client for the connected server's RDP address.
    StartRdp,
}

/// Application state.
pub struct App {
    /// Current configuration.
    pub config: Config,
    /// Current screen.
    pub screen: Screen,
    /// Previous screen (for going back).
    pub prev_screen: Option<Screen>,
    /// Selected server index.
    pub selected_server: usize,
    /// Selected connection type index.
    pub selected_conn_type: usize,
    /// Current connection status.
    pub connection_status: ConnectionStatus,
    /// Status messages log, newest last, each with its timestamp in
    /// milliseconds.
    pub status_log: Vec<(u64, String)>,
    /// Whether the application should quit.
    pub should_quit: bool,
    /// Currently connected server (if any).
    pub connected_server: Option<usize>,
    /// Connected VPN name (for disconnection).
    pub connected_vpn: Option<String>,
    /// Connection start time, in milliseconds.
    pub connection_start: Option<u64>,
    /// Confirmation dialog action.
    pub confirm_action: Option<ConfirmAction>,
    /// Confirm dialog selection (0 = No, 1 = Yes).
    pub confirm_selection: usize,
    /// Edit server form fields.
    pub edit_server_fields: EditServerFields,
    /// Edit mode (true = edit existing, false = add new).
    pub edit_mode: bool,
    /// Currently editing field index.
    pub edit_field_index: usize,
    /// Input buffer for text editing.
    pub input_buffer: Vec<char>,
    /// Cursor position in input.
    pub cursor_position: usize,
    /// Settings scroll position.
    pub settings_scroll: usize,
    /// Help scroll position.
    pub help_scroll: usize,
}

impl App {
    /// Well-formedness: what `new` establishes and every method preserves.
    pub open spec fn wf(&self) -> bool {
        &&& self.config.settings.wf()
        &&& (self.config.servers@.len() == 0 ==> self.selected_server == 0)
        &&& (self.config.servers@.len() > 0 ==> self.selected_server
            < self.config.servers@.len())
        &&& self.selected_conn_type < 3
        &&& self.edit_field_index <= 3
        &&& self.confirm_selection <= 1
        &&& self.cursor_position <= self.input_buffer@.len()
        &&& self.status_log@.len() <= 100
        &&& (self.confirm_action matches Some(ConfirmAction::DeleteServer(i)) ==> i
            < self.config.servers@.len())
    }

    /// The currently selected server, when the catalog is not empty.
    pub open spec fn current_server_spec(&self) -> Option<Server> {
        if self.selected_server < self.config.servers@.len() {
            Some(self.config.servers@[self.selected_server as int])
        } else {
            None
        }
    }

    /// How many connection types the selected server offers: all three with
    /// SSH, only RDP without.
    pub open spec fn avail_len(&self) -> int {
        match self.current_server_spec() {
            Some(s) => if s.has_ssh_spec() {
                3
            } else {
                1
            },
            None => 1,
        }
    }

    /// Create a new application with the given configuration.
    pub fn new(config: Config) -> (r: Self)
        requires
            config.settings.wf(),
        ensures
            r.wf(),
            r.config == config,
            r.screen is ServerList,
            r.prev_screen is None,
            r.selected_server == 0,
            r.selected_conn_type == 0,
            r.connection_status is Idle,
            r.status_log@.len() == 0,
            !r.should_quit,
            r.connected_server is None,
            r.connected_vpn is None,
            r.connection_start is None,
            r.confirm_action is None,
            r.confirm_selection == 0,
            !r.edit_mode,
            r.edit_field_index == 0,
            r.input_buffer@.len() == 0,
            r.cursor_position == 0,
            r.settings_scroll == 0,
            r.help_scroll == 0,
    {
        App {
            config,
            screen: Screen::ServerList,
            prev_screen: None,
            selected_server: 0,
            selected_conn_type: 0,
            connection_status: ConnectionStatus::Idle,
            status_log: Vec::new(),
            should_quit: false,
            connected_server: None,
            connected_vpn: None,
            connection_start: None,
            confirm_action: None,
            confirm_selection: 0,
            edit_server_fields: EditServerFields::default(),
            edit_mode: false,
            edit_field_index: 0,
            input_buffer: Vec::new(),
            cursor_position: 0,
            settings_scroll: 0,
            help_scroll: 0,
        }
    }

    /// Add a status message to the log, keeping only the last 100 entries.
    pub fn log_status(&mut self, now_ms: u64, message: String)
        requires
            old(self).wf(),
        ensures
            final(self).wf(),
            old(self).status_log@.len() < 100 ==> final(self).status_log@ == old(self).status_log@.push((now_ms, message)),
            old(self).status_log@.len() >= 100 ==> final(self).status_log@ == old(self).status_log@.drop_first().push((now_ms, message)),
            *final(self) == (App { status_log: final(self).status_log, ..*old(self) }),
    {
        self.status_log.push((now_ms, message));
        if self.status_log.len() > 100 {
            self.status_log.remove(0);
            proof {
                assert(self.status_log@ =~= old(self).status_log@.drop_first().push(
                    (now_ms, message),
                ));
            }
        }
    }

    /// Get the currently selected server.
    pub fn current_server(&self) -> (r: Option<&Server>)
        ensures
            match r {
                Some(s) => self.current_server_spec() == Some(*s),
                None => self.current_server_spec() is None,
            },
    {
        if self.selected_server < self.config.servers.len() {
            Some(&self.config.servers[self.selected_server])
        } else {
            None
        }
    }

    /// Get the selected connection type.
    pub fn selected_connection_type(&self) -> (r: ConnectionType)
        ensures
            r == self.selected_connection_type_spec(),
    {
        match self.selected_conn_type {
            0 => ConnectionType::Rdp,
            1 => ConnectionType::Ssh,
            2 => ConnectionType::Both,
            _ => ConnectionType::Rdp,
        }
    }

    /// The connection type the selection index stands for.
    pub open spec fn selected_connection_type_spec(&self) -> ConnectionType {
        if self.selected_conn_type == 1 {
            ConnectionType::Ssh
        } else if self.selected_conn_type == 2 {
            ConnectionType::Both
        } else {
            ConnectionType::Rdp
        }
    }

    /// Get available connection types for the selected server: all three
    /// when it offers SSH, only RDP otherwise.
    pub fn available_connection_types(&self) -> (r: Vec<ConnectionType>)
        ensures
            r@.len() == self.avail_len(),
            r@[0] == ConnectionType::Rdp,
            self.avail_len() == 3 ==> r@ == seq![
                ConnectionType::Rdp,
                ConnectionType::Ssh,
                ConnectionType::Both,
            ],
            self.avail_len() == 1 ==> r@ == seq![ConnectionType::Rdp],
    {
        let has_ssh = match self.current_server() {
            Some(server) => server.has_ssh(),
            None => false,
        };
        if has_ssh {
            let r = ConnectionType::all();
            proof {
                assert(r@[0] == ConnectionType::Rdp);
            }
            r
        } else {
            let mut r: Vec<ConnectionType> = Vec::new();
            r.push(ConnectionType::Rdp);
            proof {
                assert(r@ =~= seq![ConnectionType::Rdp]);
            }
            r
        }
    }

    /// Move selection up in the current list, wrapping from the first entry
    /// to the last; an empty list stays put.
    pub fn select_previous(&mut self)
        requires
            old(self).wf(),
        ensures
            final(self).wf(),
            select_previous_post(*old(self), *final(self)),
    {
        match self.screen {
            Screen::ServerList => {
                if self.selected_server > 0 {
                    self.selected_server = self.selected_server - 1;
                } else if self.config.servers.len() > 0 {
                    self.selected_server = self.config.servers.len() - 1;
                }
            },
            Screen::ConnectionTypeSelect => {
                let types = self.available_connection_types();
                if self.selected_conn_type > 0 {
                    self.selected_conn_type = self.selected_conn_type - 1;
                } else {
                    self.selected_conn_type = types.len() - 1;
                }
            },
            Screen::Confirm => {
                self.confirm_selection = if self.confirm_selection == 0 {
                    1
                } else {
                    0
                };
            },
            Screen::EditServer => {
                if self.edit_field_index > 0 {
                    self.edit_field_index = self.edit_field_index - 1;
                    self.load_field_to_input();
                }
            },
            Screen::Help => {
                if self.help_scroll > 0 {
                    self.help_scroll = self.help_scroll - 1;
                }
            },
            Screen::Settings => {
                if self.settings_scroll > 0 {
                    self.settings_scroll = self.settings_scroll - 1;
                }
            },
            _ => {},
        }
    }

    /// Move selection down in the current list, wrapping from the last entry
    /// to the first; an empty list stays put.
    pub fn select_next(&mut self)
        requires
            old(self).wf(),
        ensures
            final(self).wf(),
            select_next_post(*old(self), *final(self)),
    {
        match self.screen {
            Screen::ServerList => {
                if self.config.servers.len() > 0 {
                    self.selected_server = (self.selected_server + 1) % self.config.servers.len();
                }
            },
            Screen::ConnectionTypeSelect => {
                let types = self.available_connection_types();
                self.selected_conn_type = (self.selected_conn_type + 1) % types.len();
            },
            Screen::Confirm => {
                self.confirm_selection = if self.confirm_selection == 0 {
                    1
                } else {
                    0
                };
            },
            Screen::EditServer => {
                if self.edit_field_index < 3 {
                    self.edit_field_index = self.edit_field_index + 1;
                    self.load_field_to_input();
                }
            },
            Screen::Help => {
                if self.help_scroll < usize::MAX {
                    self.help_scroll = self.help_scroll + 1;
                }
            },
            Screen::Settings => {
                if self.settings_scroll < usize::MAX {
                    self.settings_scroll = self.settings_scroll + 1;
                }
            },
            _ => {},
        }
    }

    /// Load the focused edit form field into the input buffer, placing the
    /// cursor at its end.
    pub fn load_field_to_input(&mut self)
        requires
            old(self).wf(),
        ensures
            final(self).wf(),
            final(self).input_buffer@ == field_text(
                old(self).edit_server_fields,
                old(self).edit_field_index as int,
            ),
            final(self).cursor_position == final(self).input_buffer@.len(),
            *final(self) == (App {
                input_buffer: final(self).input_buffer,
                cursor_position: final(self).cursor_position,
                ..*old(self)
            }),
    {
        let v: Vec<char> = match self.edit_field_index {
            0 => chars_of(self.edit_server_fields.name.as_str()),
            1 => chars_of(self.edit_server_fields.rdp.as_str()),
            2 => chars_of(self.edit_server_fields.ssh.as_str()),
            _ => chars_of(self.edit_server_fields.vpn.as_str()),
        };
        self.input_buffer = v;
        self.cursor_position = self.input_buffer.len();
    }

    /// Navigate to a screen, remembering the one left for going back.
    pub fn go_to_screen(&mut self, screen: Screen)
        ensures
            final(self).screen == screen,
            final(self).prev_screen == Some(old(self).screen),
            *final(self) == (App {
                screen,
                prev_screen: Some(old(self).screen),
                ..*old(self)
            }),
    {
        self.prev_screen = Some(self.screen);
        self.screen = screen;
    }

    /// Go back to the previous screen, if one is remembered.
    pub fn go_back(&mut self)
        ensures
            old(self).prev_screen matches Some(p) ==> final(self).screen == p && final(self).prev_screen is None,
            old(self).prev_screen is None ==> *final(self) == *old(self),
            *final(self) == (App {
                screen: final(self).screen,
                prev_screen: final(self).prev_screen,
                ..*old(self)
            }),
    {
        match self.prev_screen {
            Some(prev) => {
                self.screen = prev;
                self.prev_screen = None;
            },
            None => {},
        }
    }

    /// Begin a connection attempt for the selected server: record what is
    /// being connected, move to the `Connecting` screen, and tell the caller
    /// to issue the VPN connect command. Does nothing without a selected
    /// server, and refuses to start a second orchestration while a VPN is
    /// still held by an active one.
    pub fn start_connection(&mut self, now_ms: u64) -> (r: bool)
        requires
            old(self).wf(),
        ensures
            final(self).wf(),
            r == (old(self).current_server_spec() is Some && old(self).connected_vpn is None),
            !r ==> *final(self) == *old(self),
            r ==> final(self).connection_status is ConnectingVpn,
            r ==> final(self).connection_start == Some(now_ms),
            r ==> final(self).connected_server == Some(old(self).selected_server),
            r ==> (final(self).connected_vpn matches Some(v) && v@ == old(self).current_server_spec()->0.vpn@),
            r ==> final(self).screen is Connecting && final(self).prev_screen == Some(
                old(self).screen,
            ),
            r ==> *final(self) == (App {
                connection_status: final(self).connection_status,
                connection_start: final(self).connection_start,
                connected_server: final(self).connected_server,
                connected_vpn: final(self).connected_vpn,
                screen: final(self).screen,
                prev_screen: final(self).prev_screen,
                status_log: final(self).status_log,
                ..*old(self)
            }),
    {
        match &self.connected_vpn {
            Some(_) => {
                return false;
            },
            None => {},
        }
        let vpn: Option<String> = match self.current_server() {
            Some(server) => Some(server.vpn.clone()),
            None => None,
        };
        match vpn {
            Some(v) => {
                self.connection_status = ConnectionStatus::ConnectingVpn;
                self.connection_start = Some(now_ms);
                self.connected_vpn = Some(v);
                self.connected_server = Some(self.selected_server);
                self.log_status(now_ms, String::from_str("Connecting to VPN"));
                self.go_to_screen(Screen::Connecting);
                true
            },
            None => false,
        }
    }

    /// Disconnect from the current session: clear the connection state,
    /// return to the server list, and hand back the VPN name the caller
    /// must disconnect, if one was connected.
    pub fn disconnect(&mut self, now_ms: u64) -> (r: Option<String>)
        requires
            old(self).wf(),
        ensures
            final(self).wf(),
            r == old(self).connected_vpn,
            final(self).connected_vpn is None,
            final(self).connected_server is None,
            final(self).connection_start is None,
            final(self).connection_status is Idle,
            final(self).screen is ServerList,
            *final(self) == (App {
                connected_vpn: None,
                connected_server: None,
                connection_start: None,
                connection_status: ConnectionStatus::Idle,
                screen: Screen::ServerList,
                status_log: final(self).status_log,
                ..*old(self)
            }),
    {
        let vpn = self.connected_vpn.take();
        match &vpn {
            Some(_) => {
                self.log_status(now_ms, String::from_str("Disconnecting VPN"));
            },
            None => {},
        }
        self.connected_server = None;
        self.connection_start = None;
        self.connection_status = ConnectionStatus::Idle;
        self.screen = Screen::ServerList;
        vpn
    }

    /// Observe connection progress on a tick.
    ///
    /// `ok` is the result of the platform call the current status asked
    /// for: the VPN connect command while `ConnectingVpn`, a probe of the
    /// server's RDP address while `WaitingForVpn`; it is ignored otherwise.
    /// While `StartingSession` the returned command tells the caller to
    /// spawn the RDP client when the chosen mode includes RDP.
    pub fn update_connection(&mut self, now_ms: u64, ok: bool) -> (r: TickCommand)
        requires
            old(self).wf(),
        ensures
            final(self).wf(),
            update_connection_post(*old(self), *final(self), now_ms, ok, r),
    {
        match &self.connection_status {
            ConnectionStatus::ConnectingVpn => {
                if ok {
                    self.connection_status = ConnectionStatus::WaitingForVpn;
                    self.log_status(now_ms, String::from_str("Waiting for VPN to establish..."));
                } else {
                    self.connection_status = ConnectionStatus::Error(
                        String::from_str("VPN error"),
                    );
                    self.log_status(now_ms, String::from_str("VPN connection failed"));
                }
                TickCommand::Nothing
            },
            ConnectionStatus::WaitingForVpn => {
                if self.selected_server < self.config.servers.len() {
                    if ok {
                        self.connection_status = ConnectionStatus::StartingSession;
                        self.log_status(
                            now_ms,
                            String::from_str("VPN connected, starting session..."),
                        );
                    } else {
                        let timed_out: bool = match self.connection_start {
                            Some(t0) => {
                                let elapsed: u64 = if now_ms >= t0 {
                                    now_ms - t0
                                } else {
                                    0
                                };
                                elapsed > self.config.settings.vpn_timeout_secs * 1000
                            },
                            None => false,
                        };
                        if timed_out {
                            self.connection_status = ConnectionStatus::Error(
                                String::from_str("VPN connection timeout"),
                            );
                            self.log_status(now_ms, String::from_str("VPN connection timed out"));
                        }
                    }
                }
                TickCommand::Nothing
            },
            ConnectionStatus::StartingSession => {
                if self.selected_server < self.config.servers.len() {
                    let launch_rdp: bool = match self.selected_connection_type() {
                        ConnectionType::Rdp => true,
                        ConnectionType::Both => true,
                        ConnectionType::Ssh => false,
                    };
                    self.connection_status = ConnectionStatus::Connected;
                    self.screen = Screen::Connected;
                    self.log_status(now_ms, String::from_str("Session active"));
                    if launch_rdp {
                        TickCommand::StartRdp
                    } else {
                        TickCommand::Nothing
                    }
                } else {
                    TickCommand::Nothing
                }
            },
            _ => TickCommand::Nothing,
        }
    }

    /// Request quit: quit at once when idle; while a session is connected,
    /// route through the quit confirmation so teardown is never skipped.
    pub fn request_quit(&mut self)
        requires
            old(self).wf(),
        ensures
            final(self).wf(),
            old(self).connected_server is Some ==> final(self).confirm_action == Some(
                ConfirmAction::Quit,
            ) && final(self).confirm_selection == 0 && final(self).screen is Confirm && final(self).prev_screen == Some(old(self).screen) && final(self).should_quit == old(self).should_quit && *final(self) == (App {
                confirm_action: final(self).confirm_action,
                confirm_selection: 0,
                screen: Screen::Confirm,
                prev_screen: final(self).prev_screen,
                ..*old(self)
            }),
            old(self).connected_server is None ==> final(self).should_quit && *final(self) == (App {
                should_quit: true,
                ..*old(self)
            }),
    {
        match self.connected_server {
            Some(_) => {
                self.confirm_action = Some(ConfirmAction::Quit);
                self.confirm_selection = 0;
                self.go_to_screen(Screen::Confirm);
            },
            None => {
                self.should_quit = true;
            },
        }
    }

    /// Handle enter/confirm on the current screen: pick the selected server
    /// or mode and begin connecting, execute or dismiss the pending
    /// confirmation, advance or commit the edit form, or ask to disconnect.
    /// Committing the form asks for a non-empty name, RDP address and VPN
    /// name; SSH stays optional. The returned command names the platform
    /// call the caller must make.
    pub fn confirm_selection(&mut self, now_ms: u64) -> (r: UiCommand)
        requires
            old(self).wf(),
        ensures
            final(self).wf(),
            confirm_selection_post(*old(self), *final(self), now_ms, r),
    {
        match self.screen {
            Screen::ServerList => {
                let has_ssh: Option<bool> = match self.current_server() {
                    Some(server) => Some(server.has_ssh()),
                    None => None,
                };
                match has_ssh {
                    Some(true) => {
                        self.selected_conn_type = 0;
                        self.go_to_screen(Screen::ConnectionTypeSelect);
                        UiCommand::Stay
                    },
                    Some(false) => {
                        self.selected_conn_type = 0;
                        if self.start_connection(now_ms) {
                            UiCommand::StartVpn
                        } else {
                            UiCommand::Stay
                        }
                    },
                    None => {
                        UiCommand::Stay
                    },
                }
            },
            Screen::ConnectionTypeSelect => {
                if self.start_connection(now_ms) {
                    UiCommand::StartVpn
                } else {
                    UiCommand::Stay
                }
            },
            Screen::Confirm => {
                if self.confirm_selection == 1 {
                    let action = self.confirm_action.take();
                    match action {
                        Some(ConfirmAction::DeleteServer(index)) => {
                            self.config.servers.remove(index);
                            if self.selected_server >= self.config.servers.len()
                                && self.selected_server > 0 {
                                self.selected_server = self.selected_server - 1;
                            }
                            self.log_status(now_ms, String::from_str("Server deleted"));
                            self.go_back();
                            UiCommand::Stay
                        },
                        Some(ConfirmAction::Disconnect) => {
                            let vpn = self.disconnect(now_ms);
                            self.prev_screen = None;
                            match vpn {
                                Some(v) => UiCommand::StopVpn(v),
                                None => UiCommand::Stay,
                            }
                        },
                        Some(ConfirmAction::Quit) => {
                            let vpn = self.disconnect(now_ms);
                            self.should_quit = true;
                            self.prev_screen = None;
                            match vpn {
                                Some(v) => UiCommand::StopVpn(v),
                                None => UiCommand::Stay,
                            }
                        },
                        None => {
                            self.go_back();
                            UiCommand::Stay
                        },
                    }
                } else {
                    self.confirm_action = None;
                    self.go_back();
                    UiCommand::Stay
                }
            },
            Screen::EditServer => {
                let valid = !self.edit_server_fields.name.as_str().is_empty()
                    && !self.edit_server_fields.rdp.as_str().is_empty()
                    && self.input_buffer.len() > 0;
                self.save_current_field();
                if self.edit_field_index < 3 {
                    self.edit_field_index = self.edit_field_index + 1;
                    self.load_field_to_input();
                } else {
                    if valid {
                        self.save_server(now_ms);
                        self.go_to_screen(Screen::ServerList);
                    } else {
                        self.log_status(
                            now_ms,
                            String::from_str("Name, RDP address and VPN name are required"),
                        );
                    }
                }
                UiCommand::Stay
            },
            Screen::Connected => {
                self.confirm_action = Some(ConfirmAction::Disconnect);
                self.confirm_selection = 0;
                self.go_to_screen(Screen::Confirm);
                UiCommand::Stay
            },
            _ => {
                UiCommand::Stay
            },
        }
    }

    /// Start adding a new server: open the edit form empty, focused on the
    /// first field.
    pub fn add_server(&mut self)
        requires
            old(self).wf(),
        ensures
            final(self).wf(),
            !final(self).edit_mode,
            final(self).edit_field_index == 0,
            forall|j: int| 0 <= j <= 3 ==> field_text(final(self).edit_server_fields, j)
                == Seq::<char>::empty(),
            final(self).input_buffer@ == Seq::<char>::empty(),
            final(self).cursor_position == 0,
            final(self).screen is EditServer,
            final(self).prev_screen == Some(old(self).screen),
            *final(self) == (App {
                edit_mode: false,
                edit_field_index: 0,
                edit_server_fields: final(self).edit_server_fields,
                input_buffer: final(self).input_buffer,
                cursor_position: 0,
                screen: Screen::EditServer,
                prev_screen: final(self).prev_screen,
                ..*old(self)
            }),
    {
        self.edit_mode = false;
        self.edit_server_fields = EditServerFields::default();
        self.edit_field_index = 0;
        self.load_field_to_input();
        self.go_to_screen(Screen::EditServer);
    }

    /// Start editing the selected server: open the edit form filled with its
    /// fields, focused on the first one. Does nothing without a selected
    /// server.
    pub fn edit_selected_server(&mut self)
        requires
            old(self).wf(),
        ensures
            final(self).wf(),
            old(self).current_server_spec() is None ==> *final(self) == *old(self),
            old(self).current_server_spec() matches Some(s) ==> {
                &&& final(self).edit_mode
                &&& final(self).edit_field_index == 0
                &&& field_text(final(self).edit_server_fields, 0) == s.name@
                &&& field_text(final(self).edit_server_fields, 1) == s.rdp@
                &&& field_text(final(self).edit_server_fields, 2) == (match s.ssh {
                    Some(x) => x@,
                    None => Seq::<char>::empty(),
                })
                &&& field_text(final(self).edit_server_fields, 3) == s.vpn@
                &&& final(self).input_buffer@ == s.name@
                &&& final(self).cursor_position == s.name@.len()
                &&& final(self).screen is EditServer
                &&& final(self).prev_screen == Some(old(self).screen)
                &&& *final(self) == (App {
                    edit_mode: true,
                    edit_field_index: 0,
                    edit_server_fields: final(self).edit_server_fields,
                    input_buffer: final(self).input_buffer,
                    cursor_position: final(self).cursor_position,
                    screen: Screen::EditServer,
                    prev_screen: final(self).prev_screen,
                    ..*old(self)
                })
            },
    {
        let fields: Option<EditServerFields> = match self.current_server() {
            Some(server) => Some(
                EditServerFields {
                    name: server.name.clone(),
                    rdp: server.rdp.clone(),
                    ssh: match &server.ssh {
                        Some(x) => x.clone(),
                        None => String::new(),
                    },
                    vpn: server.vpn.clone(),
                },
            ),
            None => None,
        };
        match fields {
            Some(f) => {
                self.edit_mode = true;
                self.edit_server_fields = f;
                self.edit_field_index = 0;
                self.load_field_to_input();
                self.go_to_screen(Screen::EditServer);
            },
            None => {},
        }
    }

    /// Ask for confirmation before deleting the selected server. Does
    /// nothing when the catalog is empty.
    pub fn delete_selected_server(&mut self)
        requires
            old(self).wf(),
        ensures
            final(self).wf(),
            old(self).config.servers@.len() == 0 ==> *final(self) == *old(self),
            old(self).config.servers@.len() > 0 ==> {
                &&& final(self).confirm_action == Some(
                    ConfirmAction::DeleteServer(old(self).selected_server),
                )
                &&& final(self).confirm_selection == 0
                &&& final(self).screen is Confirm
                &&& final(self).prev_screen == Some(old(self).screen)
                &&& *final(self) == (App {
                    confirm_action: final(self).confirm_action,
                    confirm_selection: 0,
                    screen: Screen::Confirm,
                    prev_screen: final(self).prev_screen,
                    ..*old(self)
                })
            },
    {
        if self.config.servers.len() > 0 {
            self.confirm_action = Some(ConfirmAction::DeleteServer(self.selected_server));
            self.confirm_selection = 0;
            self.go_to_screen(Screen::Confirm);
        }
    }

    /// Save the input buffer into the focused edit form field.
    pub fn save_current_field(&mut self)
        requires
            old(self).wf(),
        ensures
            final(self).wf(),
            field_text(final(self).edit_server_fields, old(self).edit_field_index as int) == old(
                self,
            ).input_buffer@,
            forall|j: int| 0 <= j <= 3 && j != old(self).edit_field_index ==> field_text(
                final(self).edit_server_fields,
                j,
            ) == field_text(old(self).edit_server_fields, j),
            *final(self) == (App {
                edit_server_fields: final(self).edit_server_fields,
                ..*old(self)
            }),
    {
        let text = string_of(&self.input_buffer);
        match self.edit_field_index {
            0 => {
                self.edit_server_fields.name = text;
            },
            1 => {
                self.edit_server_fields.rdp = text;
            },
            2 => {
                self.edit_server_fields.ssh = text;
            },
            _ => {
                self.edit_server_fields.vpn = text;
            },
        }
    }

    /// Commit the edit form: save the focused field, then upsert the server
    /// into the catalog — replacing the selected entry in edit mode,
    /// appending and selecting a new entry otherwise. An empty SSH field
    /// means no SSH.
    pub fn save_server(&mut self, now_ms: u64)
        requires
            old(self).wf(),
        ensures
            final(self).wf(),
            save_server_post(*old(self), *final(self)),
    {
        self.save_current_field();
        let ssh: Option<String> = if self.edit_server_fields.ssh.as_str().is_empty() {
            None
        } else {
            Some(self.edit_server_fields.ssh.clone())
        };
        let server = Server {
            name: self.edit_server_fields.name.clone(),
            ssh,
            rdp: self.edit_server_fields.rdp.clone(),
            vpn: self.edit_server_fields.vpn.clone(),
        };
        if self.edit_mode && self.selected_server < self.config.servers.len() {
            self.config.servers[self.selected_server] = server;
            self.log_status(now_ms, String::from_str("Server updated"));
        } else {
            self.config.servers.push(server);
            self.selected_server = self.config.servers.len() - 1;
            self.log_status(now_ms, String::from_str("Server added"));
        }
    }

    /// Handle character input: insert at the cursor while editing.
    pub fn handle_char(&mut self, c: char)
        requires
            old(self).wf(),
        ensures
            final(self).wf(),
            old(self).screen is EditServer ==> final(self).input_buffer@ == old(self).input_buffer@.insert(old(self).cursor_position as int, c) && final(self).cursor_position == old(self).cursor_position + 1,
            !(old(self).screen is EditServer) ==> *final(self) == *old(self),
            *final(self) == (App {
                input_buffer: final(self).input_buffer,
                cursor_position: final(self).cursor_position,
                ..*old(self)
            }),
    {
        match self.screen {
            Screen::EditServer => {
                self.input_buffer.insert(self.cursor_position, c);
                let n = self.input_buffer.len();
                assert(self.cursor_position < n);
                self.cursor_position = self.cursor_position + 1;
            },
            _ => {},
        }
    }

    /// Handle backspace: remove the character before the cursor.
    pub fn handle_backspace(&mut self)
        requires
            old(self).wf(),
        ensures
            final(self).wf(),
            old(self).screen is EditServer && old(self).cursor_position > 0 ==> final(self).input_buffer@ == old(self).input_buffer@.remove(
                old(self).cursor_position - 1,
            ) && final(self).cursor_position == old(self).cursor_position - 1,
            !(old(self).screen is EditServer && old(self).cursor_position > 0) ==> *final(self)
                == *old(self),
            *final(self) == (App {
                input_buffer: final(self).input_buffer,
                cursor_position: final(self).cursor_position,
                ..*old(self)
            }),
    {
        match self.screen {
            Screen::EditServer => {
                if self.cursor_position > 0 {
                    self.cursor_position = self.cursor_position - 1;
                    self.input_buffer.remove(self.cursor_position);
                }
            },
            _ => {},
        }
    }

    /// Handle delete: remove the character at the cursor.
    pub fn handle_delete(&mut self)
        requires
            old(self).wf(),
        ensures
            final(self).wf(),
            old(self).screen is EditServer && old(self).cursor_position < old(self).input_buffer@.len() ==> final(self).input_buffer@ == old(self).input_buffer@.remove(
                old(self).cursor_position as int,
            ) && final(self).cursor_position == old(self).cursor_position,
            !(old(self).screen is EditServer && old(self).cursor_position < old(self).input_buffer@.len()) ==> *final(self) == *old(self),
            *final(self) == (App {
                input_buffer: final(self).input_buffer,
                ..*old(self)
            }),
    {
        match self.screen {
            Screen::EditServer => {
                if self.cursor_position < self.input_buffer.len() {
                    self.input_buffer.remove(self.cursor_position);
                }
            },
            _ => {},
        }
    }

    /// Move cursor left.
    pub fn cursor_left(&mut self)
        ensures
            final(self).cursor_position == if old(self).cursor_position > 0 {
                old(self).cursor_position - 1
            } else {
                0int
            },
            *final(self) == (App {
                cursor_position: final(self).cursor_position,
                ..*old(self)
            }),
    {
        if self.cursor_position > 0 {
            self.cursor_position = self.cursor_position - 1;
        }
    }

    /// Move cursor right.
    pub fn cursor_right(&mut self)
        ensures
            final(self).cursor_position == if old(self).cursor_position < old(self).input_buffer@.len() {
                old(self).cursor_position + 1
            } else {
                old(self).cursor_position as int
            },
            *final(self) == (App {
                cursor_position: final(self).cursor_position,
                ..*old(self)
            }),
    {
        if self.cursor_position < self.input_buffer.len() {
            self.cursor_position = self.cursor_position + 1;
        }
    }

    /// Milliseconds since the connection attempt started, if one is running.
    pub fn connection_duration(&self, now_ms: u64) -> (r: Option<u64>)
        ensures
            match self.connection_start {
                Some(t0) => r == Some(if now_ms >= t0 {
                    (now_ms - t0) as u64
                } else {
                    0u64
                }),
                None => r is None,
            },
    {
        match self.connection_start {
            Some(t0) => {
                if now_ms >= t0 {
                    Some(now_ms - t0)
                } else {
                    Some(0)
                }
            },
            None => None,
        }
    }

    /// Format a duration in seconds as `mm:ss`, or `hh:mm:ss` from one hour
    /// on.
    pub fn format_duration(secs: u64) -> (r: String)
        ensures
            r@ == duration_text(secs as int),
    {
        let hours = secs / 3600;
        let mins = (secs % 3600) / 60;
        let rest = secs % 60;
        let mut out: Vec<char> = Vec::new();
        if hours > 0 {
            let mut h = padded2_chars(hours);
            out.append(&mut h);
            out.push(':');
        }
        let mut m = padded2_chars(mins);
        out.append(&mut m);
        out.push(':');
        let mut s = padded2_chars(rest);
        out.append(&mut s);
        proof {
            assert(out@ =~= duration_text(secs as int));
        }
        string_of(&out)
    }
}

/// The spinner frame shown at the given time, cycling every second.
pub fn get_spinner_frame(now_ms: u64) -> (r: &'static str)
    ensures
        r@ == spinner_frame_text(now_ms as int),
{
    let idx = (now_ms / 100) % 10;
    match idx {
        0 => "|",
        1 => "/",
        2 => "-",
        3 => "\\",
        4 => "|",
        5 => "/",
        6 => "-",
        7 => "\\",
        8 => "|",
        _ => "/",
    }
}

/// The spinner frame for the given time.
pub open spec fn spinner_frame_text(now_ms: int) -> Seq<char> {
    let idx = (now_ms / 100) % 10;
    if idx == 0 {
        "|"@
    } else if idx == 1 {
        "/"@
    } else if idx == 2 {
        "-"@
    } else if idx == 3 {
        "\\"@
    } else if idx == 4 {
        "|"@
    } else if idx == 5 {
        "/"@
    } else if idx == 6 {
        "-"@
    } else if idx == 7 {
        "\\"@
    } else if idx == 8 {
        "|"@
    } else {
        "/"@
    }
}

/// Ticking configuration of the event loop.
pub struct EventHandler {
    /// Tick rate for updates, in milliseconds.
    pub tick_rate_ms: u64,
}

impl EventHandler {
    /// Create a new event handler with the given tick rate.
    pub fn new(tick_rate_ms: u64) -> (r: Self)
        ensures
            r.tick_rate_ms == tick_rate_ms,
    {
        EventHandler { tick_rate_ms }
    }
}

} // verus!
