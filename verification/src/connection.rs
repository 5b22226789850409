//! Connection orchestrator: drives one target through VPN connect,
//! reachability confirmation, remote-session launch, and guaranteed VPN
//! teardown, under a shared cancellation signal.
//!
//! The orchestrator is a state machine. Every blocking platform operation
//! (spawning the VPN client, probing a host, launching or waiting on a
//! session process) is an [`Action`] handed to the caller; the caller
//! performs it and reports what happened through the next [`ConnectionManager::step`]
//! call, together with the current state of the cancellation flag. The
//! machine decides everything else, so the whole decision logic is verified.

use vstd::prelude::*;
use vstd::arithmetic::power2::lemma2_to64;
use vstd::arithmetic::power2::lemma2_to64_rest;
use vstd::arithmetic::power2::lemma_pow2_strictly_increases;
use vstd::arithmetic::power2::lemma_pow2_unfold;
use vstd::arithmetic::power2::pow2;

use crate::config::Server;
use crate::config::Settings;

verus! {

/// Connection type options.
#[derive(Clone, Copy, Debug, PartialEq, Eq, Structural)]
pub enum ConnectionType {
    Rdp,
    Ssh,
    Both,
}

/// Whether the mode asks for an SSH session.
pub open spec fn needs_ssh(m: ConnectionType) -> bool {
    m is Ssh || m is Both
}

impl ConnectionType {
    /// Get the display name of the connection type.
    pub fn name(&self) -> (r: &'static str)
        ensures
            *self is Rdp ==> r@ == "RDP"@,
            *self is Ssh ==> r@ == "SSH"@,
            *self is Both ==> r@ == "Both"@,
    {
        match self {
            ConnectionType::Rdp => "RDP",
            ConnectionType::Ssh => "SSH",
            ConnectionType::Both => "Both",
        }
    }

    /// Get all available connection types.
    pub fn all() -> (r: Vec<ConnectionType>)
        ensures
            r@ == seq![ConnectionType::Rdp, ConnectionType::Ssh, ConnectionType::Both],
    {
        let mut v: Vec<ConnectionType> = Vec::new();
        v.push(ConnectionType::Rdp);
        v.push(ConnectionType::Ssh);
        v.push(ConnectionType::Both);
        proof {
            assert(v@ =~= seq![ConnectionType::Rdp, ConnectionType::Ssh, ConnectionType::Both]);
        }
        v
    }
}

/// How one connection attempt can fail.
#[derive(Clone, Copy, Debug, PartialEq, Eq, Structural)]
pub enum ConnectError {
    /// Cooperative abort requested through the cancellation flag.
    Cancelled,
    /// SSH requested on a target without SSH, or a malformed SSH string.
    ConfigError,
    /// A required remote-access client process could not be spawned.
    LaunchError,
    /// A host did not answer after the configured probe attempts.
    Unreachable,
}

/// Where one connection attempt stands.
#[derive(Clone, Copy, Debug, PartialEq, Eq, Structural)]
pub enum Phase {
    /// Nothing started yet.
    Idle,
    /// The VPN connect command was issued; its (soft) result is awaited.
    ConnectingVpn,
    /// A probe of the RDP host is in flight, to see the tunnel route.
    WaitingForVpn,
    /// Sleeping one poll interval before probing the tunnel again.
    VpnSleep,
    /// Probing the RDP host before launching the RDP session.
    CheckingRdp,
    /// Sleeping one backoff step before probing the RDP host again.
    RdpBackoff,
    /// The RDP client spawn is in flight.
    LaunchingRdp,
    /// Probing the SSH host before launching the SSH session.
    CheckingSsh,
    /// Sleeping one backoff step before probing the SSH host again.
    SshBackoff,
    /// The SSH session is running; its end (or spawn failure) is awaited.
    LaunchingSsh,
    /// Waiting for the launched RDP process to end.
    WaitingRdp,
    /// The unconditional VPN disconnect is in flight.
    Disconnecting,
    /// The attempt is over; the outcome is settled.
    Finished,
}

/// One platform operation the caller must perform next.
#[derive(Clone, Copy, Debug, PartialEq, Eq, Structural)]
pub enum Action {
    /// Issue the VPN connect command for the target's VPN name.
    ConnectVpn,
    /// Probe the target's RDP address once, with the ping timeout.
    PingRdp,
    /// Probe the SSH host once, with the ping timeout.
    PingSsh,
    /// Sleep this many milliseconds.
    Sleep(u64),
    /// Spawn the RDP client for the target's RDP address.
    LaunchRdp,
    /// Spawn the SSH client and block until the session ends.
    LaunchSsh,
    /// Block until the launched RDP process ends.
    WaitRdp,
    /// Issue the VPN disconnect command (best effort).
    DisconnectVpn,
    /// Nothing is left to do.
    Finished,
}

/// Milliseconds slept before retry number `attempt + 1` of a reachability
/// probe: one second doubled for each retry already made.
pub open spec fn backoff_ms(attempt: int) -> int {
    1000 * pow2((attempt - 1) as nat) as int
}

fn backoff_for(attempt: u32) -> (r: u64)
    requires
        1 <= attempt <= 40,
    ensures
        r == backoff_ms(attempt as int),
{
    let e: u32 = attempt - 1;
    let mut r: u64 = 1000;
    let mut i: u32 = 0;
    proof {
        lemma2_to64();
    }
    while i < e
        invariant
            i <= e <= 39,
            r == 1000 * pow2(i as nat),
        decreases e - i,
    {
        proof {
            if (i as nat) < 39 {
                lemma_pow2_strictly_increases(i as nat, 39);
            }
            lemma2_to64_rest();
            lemma_pow2_unfold((i + 1) as nat);
        }
        r = r * 2;
        i = i + 1;
    }
    r
}

/// How many times `which` occurs in the trace `t`.
pub open spec fn count_actions(t: Seq<Action>, which: Action) -> int
    decreases t.len(),
{
    if t.len() == 0 {
        0
    } else {
        count_actions(t.drop_last(), which) + (if t.last() == which {
            1int
        } else {
            0int
        })
    }
}

/// Manages one connection attempt with guaranteed cleanup.
pub struct ConnectionManager {
    /// The target this attempt connects to.
    pub server: Server,
    /// The timing settings of this attempt.
    pub settings: Settings,
    /// The requested connection mode; meaningful once the attempt started.
    pub mode: ConnectionType,
    /// Where the attempt stands.
    pub phase: Phase,
    /// The settled or pending failure; `None` means success so far.
    pub outcome: Option<ConnectError>,
    /// Host part of the SSH string; present whenever the mode asks for SSH.
    pub ssh_host: Option<String>,
    /// Milliseconds slept so far while waiting for the tunnel.
    pub waited_ms: u64,
    /// Number of the reachability probe currently in flight, starting at 1.
    pub attempt: u32,
    /// Whether an RDP process was launched and not yet waited on.
    pub rdp_running: bool,
    /// How many times the VPN connect command was emitted.
    pub vpn_connects: u32,
    /// How many times the VPN disconnect command was emitted.
    pub vpn_disconnects: u32,
    /// How many times an RDP launch was emitted.
    pub rdp_launches: u32,
    /// How many times an SSH launch was emitted.
    pub ssh_launches: u32,
}

impl ConnectionManager {
    /// The tunnel wait timeout, in milliseconds.
    pub open spec fn vpn_timeout_ms(&self) -> int {
        self.settings.vpn_timeout_secs * 1000
    }

    /// The next sleep while waiting for the tunnel: one poll interval,
    /// clipped to the time left before the timeout.
    pub open spec fn vpn_sleep_ms(&self) -> int {
        if self.vpn_timeout_ms() - self.waited_ms >= 2000 {
            2000
        } else {
            self.vpn_timeout_ms() - self.waited_ms
        }
    }

    /// Phases in which the attempt is underway: started and not yet in
    /// teardown.
    pub open spec fn active(self) -> bool {
        match self.phase {
            Phase::Idle => false,
            Phase::Disconnecting => false,
            Phase::Finished => false,
            _ => true,
        }
    }

    /// Phases probing a host before a launch.
    pub open spec fn probing(self) -> bool {
        self.phase is CheckingRdp || self.phase is RdpBackoff || self.phase is CheckingSsh
            || self.phase is SshBackoff
    }

    /// Phases belonging to the SSH sub-session.
    pub open spec fn in_ssh_part(self) -> bool {
        self.phase is CheckingSsh || self.phase is SshBackoff || self.phase is LaunchingSsh
    }

    /// Well-formedness of one attempt: what `new` and `connect` establish
    /// and every step preserves.
    pub open spec fn inv(self) -> bool {
        &&& self.settings.wf()
        &&& self.vpn_connects <= 1
        &&& self.vpn_disconnects <= 1
        &&& self.rdp_launches <= 1
        &&& self.ssh_launches <= 1
        &&& (self.phase is Idle ==> self.vpn_connects == 0 && self.vpn_disconnects == 0
            && self.rdp_launches == 0 && self.ssh_launches == 0 && !self.rdp_running
            && self.outcome is None)
        &&& (self.active() ==> self.vpn_connects == 1 && self.vpn_disconnects == 0
            && self.outcome is None)
        &&& (self.phase is Disconnecting ==> self.vpn_disconnects == 1)
        &&& (self.phase is Finished ==> self.vpn_disconnects == 1)
        &&& (!(self.phase is Idle) && needs_ssh(self.mode) ==> self.ssh_host is Some
            && self.server.ssh_host_spec() == Some(self.ssh_host->0@))
        &&& (self.phase is WaitingForVpn ==> self.waited_ms <= self.vpn_timeout_ms())
        &&& (self.phase is VpnSleep ==> self.waited_ms < self.vpn_timeout_ms())
        &&& (self.phase is CheckingRdp || self.phase is CheckingSsh ==> 1 <= self.attempt
            <= self.settings.ping_retries)
        &&& (self.phase is RdpBackoff || self.phase is SshBackoff ==> 1 <= self.attempt
            < self.settings.ping_retries)
        &&& (self.in_ssh_part() ==> needs_ssh(self.mode))
        &&& (self.phase is CheckingRdp || self.phase is RdpBackoff || self.phase is LaunchingRdp
            ==> !(self.mode is Ssh))
        &&& (self.rdp_running ==> self.rdp_launches == 1)
        &&& (self.phase is WaitingRdp ==> self.rdp_running)
        &&& (self.phase is ConnectingVpn || self.phase is WaitingForVpn || self.phase is VpnSleep
            || self.phase is CheckingRdp || self.phase is RdpBackoff ==> self.rdp_launches == 0
            && self.ssh_launches == 0 && !self.rdp_running)
        &&& (self.phase is LaunchingRdp ==> self.rdp_launches == 1 && self.ssh_launches == 0
            && !self.rdp_running)
        &&& (self.phase is CheckingSsh || self.phase is SshBackoff ==> self.ssh_launches == 0)
        &&& (self.phase is LaunchingSsh ==> self.ssh_launches == 1)
    }

    /// The state after entering teardown with outcome `e`.
    pub open spec fn teardown(self, e: Option<ConnectError>) -> ConnectionManager {
        ConnectionManager {
            phase: Phase::Disconnecting,
            outcome: e,
            vpn_disconnects: (self.vpn_disconnects + 1) as u32,
            ..self
        }
    }

    /// The state and action on entering the launch part: probe the first
    /// host the mode asks for.
    pub open spec fn enter_session(self) -> (ConnectionManager, Action) {
        if self.mode is Ssh {
            (ConnectionManager { phase: Phase::CheckingSsh, attempt: 1, ..self }, Action::PingSsh)
        } else {
            (ConnectionManager { phase: Phase::CheckingRdp, attempt: 1, ..self }, Action::PingRdp)
        }
    }

    /// The full transition relation of a started attempt: from the current
    /// state, the cancellation flag and the result `ok` of the action
    /// performed last, to the next state and the next action.
    ///
    /// `ok` carries the probe answer in probing phases, whether the spawn
    /// succeeded in launching phases, and is ignored where the last action
    /// had no result.
    pub open spec fn next(s: ConnectionManager, cancelled: bool, ok: bool) -> (ConnectionManager,
        Action) {
        if s.phase is Finished || s.phase is Idle {
            (s, Action::Finished)
        } else if cancelled && !(s.phase is Disconnecting) {
            (s.teardown(Some(ConnectError::Cancelled)), Action::DisconnectVpn)
        } else {
            match s.phase {
                Phase::Idle => (s, Action::Finished),
                Phase::ConnectingVpn => (
                    ConnectionManager { phase: Phase::WaitingForVpn, waited_ms: 0, ..s },
                    Action::PingRdp,
                ),
                Phase::WaitingForVpn => {
                    if ok || s.waited_ms >= s.vpn_timeout_ms() {
                        s.enter_session()
                    } else {
                        (
                            ConnectionManager { phase: Phase::VpnSleep, ..s },
                            Action::Sleep(s.vpn_sleep_ms() as u64),
                        )
                    }
                },
                Phase::VpnSleep => (
                    ConnectionManager {
                        phase: Phase::WaitingForVpn,
                        waited_ms: (s.waited_ms + s.vpn_sleep_ms()) as u64,
                        ..s
                    },
                    Action::PingRdp,
                ),
                Phase::CheckingRdp => {
                    if ok {
                        (
                            ConnectionManager {
                                phase: Phase::LaunchingRdp,
                                rdp_launches: (s.rdp_launches + 1) as u32,
                                ..s
                            },
                            Action::LaunchRdp,
                        )
                    } else if s.attempt < s.settings.ping_retries {
                        (
                            ConnectionManager { phase: Phase::RdpBackoff, ..s },
                            Action::Sleep(backoff_ms(s.attempt as int) as u64),
                        )
                    } else if s.mode is Both {
                        (
                            ConnectionManager { phase: Phase::CheckingSsh, attempt: 1, ..s },
                            Action::PingSsh,
                        )
                    } else {
                        (s.teardown(None), Action::DisconnectVpn)
                    }
                },
                Phase::RdpBackoff => (
                    ConnectionManager {
                        phase: Phase::CheckingRdp,
                        attempt: (s.attempt + 1) as u32,
                        ..s
                    },
                    Action::PingRdp,
                ),
                Phase::LaunchingRdp => {
                    if ok {
                        if s.mode is Both {
                            (
                                ConnectionManager {
                                    phase: Phase::CheckingSsh,
                                    attempt: 1,
                                    rdp_running: true,
                                    ..s
                                },
                                Action::PingSsh,
                            )
                        } else {
                            (
                                ConnectionManager {
                                    phase: Phase::WaitingRdp,
                                    rdp_running: true,
                                    ..s
                                },
                                Action::WaitRdp,
                            )
                        }
                    } else {
                        (s.teardown(Some(ConnectError::LaunchError)), Action::DisconnectVpn)
                    }
                },
                Phase::CheckingSsh => {
                    if ok {
                        (
                            ConnectionManager {
                                phase: Phase::LaunchingSsh,
                                ssh_launches: (s.ssh_launches + 1) as u32,
                                ..s
                            },
                            Action::LaunchSsh,
                        )
                    } else if s.attempt < s.settings.ping_retries {
                        (
                            ConnectionManager { phase: Phase::SshBackoff, ..s },
                            Action::Sleep(backoff_ms(s.attempt as int) as u64),
                        )
                    } else if s.rdp_running {
                        (ConnectionManager { phase: Phase::WaitingRdp, ..s }, Action::WaitRdp)
                    } else {
                        (s.teardown(None), Action::DisconnectVpn)
                    }
                },
                Phase::SshBackoff => (
                    ConnectionManager {
                        phase: Phase::CheckingSsh,
                        attempt: (s.attempt + 1) as u32,
                        ..s
                    },
                    Action::PingSsh,
                ),
                Phase::LaunchingSsh => {
                    if !ok {
                        (s.teardown(Some(ConnectError::LaunchError)), Action::DisconnectVpn)
                    } else if s.rdp_running {
                        (ConnectionManager { phase: Phase::WaitingRdp, ..s }, Action::WaitRdp)
                    } else {
                        (s.teardown(None), Action::DisconnectVpn)
                    }
                },
                Phase::WaitingRdp => (
                    ConnectionManager { rdp_running: false, ..s }.teardown(None),
                    Action::DisconnectVpn,
                ),
                Phase::Disconnecting => (
                    ConnectionManager { phase: Phase::Finished, ..s },
                    Action::Finished,
                ),
                Phase::Finished => (s, Action::Finished),
            }
        }
    }

    /// Create a new connection manager for the given server.
    pub fn new(server: Server, settings: Settings) -> (r: Self)
        requires
            settings.wf(),
        ensures
            r.inv(),
            r.phase is Idle,
            r.server == server,
            r.settings == settings,
            r.vpn_connects == 0,
            r.vpn_disconnects == 0,
            r.rdp_launches == 0,
            r.ssh_launches == 0,
    {
        ConnectionManager {
            server,
            settings,
            mode: ConnectionType::Rdp,
            phase: Phase::Idle,
            outcome: None,
            ssh_host: None,
            waited_ms: 0,
            attempt: 0,
            rdp_running: false,
            vpn_connects: 0,
            vpn_disconnects: 0,
            rdp_launches: 0,
            ssh_launches: 0,
        }
    }

    /// Start one connection attempt in the given mode.
    ///
    /// Validation happens here, before any side effect: a mode that asks for
    /// SSH on a target without SSH, or with an SSH string holding no `'@'`,
    /// is refused with `ConfigError` and the machine stays idle. Otherwise
    /// the first action is returned: the VPN connect, or, when cancellation
    /// is already signalled, the teardown disconnect.
    pub fn connect(&mut self, conn_type: ConnectionType, cancelled: bool) -> (r: Result<
        Action,
        ConnectError,
    >)
        requires
            old(self).inv(),
            old(self).phase is Idle,
        ensures
            final(self).inv(),
            final(self).server == old(self).server,
            final(self).settings == old(self).settings,
            r is Err <==> needs_ssh(conn_type) && old(self).server.ssh_host_spec() is None,
            r is Err ==> r == Err::<Action, ConnectError>(ConnectError::ConfigError)
                && *final(self) == *old(self),
            r is Ok ==> final(self).mode == conn_type && final(self).rdp_launches == 0
                && final(self).ssh_launches == 0,
            r is Ok && cancelled ==> final(self).phase is Disconnecting && final(self).outcome
                == Some(ConnectError::Cancelled) && final(self).vpn_connects == 0
                && final(self).vpn_disconnects == 1 && r == Ok::<Action, ConnectError>(
                Action::DisconnectVpn,
            ),
            r is Ok && !cancelled ==> final(self).phase is ConnectingVpn && final(self).outcome
                is None && final(self).vpn_connects == 1 && final(self).vpn_disconnects == 0
                && r == Ok::<Action, ConnectError>(Action::ConnectVpn),
    {
        let ssh_host: Option<String>;
        match conn_type {
            ConnectionType::Rdp => {
                ssh_host = None;
            },
            _ => {
                match self.server.ssh_ip() {
                    Some(h) => {
                        ssh_host = Some(h);
                    },
                    None => {
                        return Err(ConnectError::ConfigError);
                    },
                }
            },
        }
        self.mode = conn_type;
        self.ssh_host = ssh_host;
        if cancelled {
            self.outcome = Some(ConnectError::Cancelled);
            self.phase = Phase::Disconnecting;
            self.vpn_disconnects = 1;
            Ok(Action::DisconnectVpn)
        } else {
            self.phase = Phase::ConnectingVpn;
            self.vpn_connects = 1;
            Ok(Action::ConnectVpn)
        }
    }

    /// Perform one transition of a started attempt.
    ///
    /// `cancelled` is the cancellation flag as the caller last saw it; `ok`
    /// is the result of the action performed last. Returns the next action.
    pub fn step(&mut self, cancelled: bool, ok: bool) -> (r: Action)
        requires
            old(self).inv(),
            !(old(self).phase is Idle),
        ensures
            *final(self) == Self::next(*old(self), cancelled, ok).0,
            r == Self::next(*old(self), cancelled, ok).1,
            final(self).inv(),
    {
        proof {
            Self::lemma_next_preserves_inv(*old(self), cancelled, ok);
        }
        match self.phase {
            Phase::Finished => {
                return Action::Finished;
            },
            _ => {},
        }
        if cancelled {
            match self.phase {
                Phase::Disconnecting => {},
                _ => {
                    self.outcome = Some(ConnectError::Cancelled);
                    self.phase = Phase::Disconnecting;
                    self.vpn_disconnects = self.vpn_disconnects + 1;
                    return Action::DisconnectVpn;
                },
            }
        }
        match self.phase {
            Phase::Idle => Action::Finished,
            Phase::ConnectingVpn => {
                self.phase = Phase::WaitingForVpn;
                self.waited_ms = 0;
                Action::PingRdp
            },
            Phase::WaitingForVpn => {
                let timeout_ms: u64 = self.settings.vpn_timeout_secs * 1000;
                if ok || self.waited_ms >= timeout_ms {
                    self.enter_session_exec()
                } else {
                    let remaining = timeout_ms - self.waited_ms;
                    let dt: u64 = if remaining >= 2000 {
                        2000
                    } else {
                        remaining
                    };
                    self.phase = Phase::VpnSleep;
                    Action::Sleep(dt)
                }
            },
            Phase::VpnSleep => {
                let timeout_ms: u64 = self.settings.vpn_timeout_secs * 1000;
                let remaining = timeout_ms - self.waited_ms;
                let dt: u64 = if remaining >= 2000 {
                    2000
                } else {
                    remaining
                };
                self.phase = Phase::WaitingForVpn;
                self.waited_ms = self.waited_ms + dt;
                Action::PingRdp
            },
            Phase::CheckingRdp => {
                if ok {
                    self.phase = Phase::LaunchingRdp;
                    self.rdp_launches = self.rdp_launches + 1;
                    Action::LaunchRdp
                } else if self.attempt < self.settings.ping_retries {
                    self.phase = Phase::RdpBackoff;
                    Action::Sleep(backoff_for(self.attempt))
                } else {
                    match self.mode {
                        ConnectionType::Both => {
                            self.phase = Phase::CheckingSsh;
                            self.attempt = 1;
                            Action::PingSsh
                        },
                        _ => {
                            self.phase = Phase::Disconnecting;
                            self.outcome = None;
                            self.vpn_disconnects = self.vpn_disconnects + 1;
                            Action::DisconnectVpn
                        },
                    }
                }
            },
            Phase::RdpBackoff => {
                self.phase = Phase::CheckingRdp;
                self.attempt = self.attempt + 1;
                Action::PingRdp
            },
            Phase::LaunchingRdp => {
                if ok {
                    match self.mode {
                        ConnectionType::Both => {
                            self.phase = Phase::CheckingSsh;
                            self.attempt = 1;
                            self.rdp_running = true;
                            Action::PingSsh
                        },
                        _ => {
                            self.phase = Phase::WaitingRdp;
                            self.rdp_running = true;
                            Action::WaitRdp
                        },
                    }
                } else {
                    self.phase = Phase::Disconnecting;
                    self.outcome = Some(ConnectError::LaunchError);
                    self.vpn_disconnects = self.vpn_disconnects + 1;
                    Action::DisconnectVpn
                }
            },
            Phase::CheckingSsh => {
                if ok {
                    self.phase = Phase::LaunchingSsh;
                    self.ssh_launches = self.ssh_launches + 1;
                    Action::LaunchSsh
                } else if self.attempt < self.settings.ping_retries {
                    self.phase = Phase::SshBackoff;
                    Action::Sleep(backoff_for(self.attempt))
                } else if self.rdp_running {
                    self.phase = Phase::WaitingRdp;
                    Action::WaitRdp
                } else {
                    self.phase = Phase::Disconnecting;
                    self.outcome = None;
                    self.vpn_disconnects = self.vpn_disconnects + 1;
                    Action::DisconnectVpn
                }
            },
            Phase::SshBackoff => {
                self.phase = Phase::CheckingSsh;
                self.attempt = self.attempt + 1;
                Action::PingSsh
            },
            Phase::LaunchingSsh => {
                if !ok {
                    self.phase = Phase::Disconnecting;
                    self.outcome = Some(ConnectError::LaunchError);
                    self.vpn_disconnects = self.vpn_disconnects + 1;
                    Action::DisconnectVpn
                } else if self.rdp_running {
                    self.phase = Phase::WaitingRdp;
                    Action::WaitRdp
                } else {
                    self.phase = Phase::Disconnecting;
                    self.outcome = None;
                    self.vpn_disconnects = self.vpn_disconnects + 1;
                    Action::DisconnectVpn
                }
            },
            Phase::WaitingRdp => {
                self.rdp_running = false;
                self.phase = Phase::Disconnecting;
                self.outcome = None;
                self.vpn_disconnects = self.vpn_disconnects + 1;
                Action::DisconnectVpn
            },
            Phase::Disconnecting => {
                self.phase = Phase::Finished;
                Action::Finished
            },
            Phase::Finished => Action::Finished,
        }
    }

    fn enter_session_exec(&mut self) -> (r: Action)
        ensures
            *final(self) == old(self).enter_session().0,
            r == old(self).enter_session().1,
    {
        match self.mode {
            ConnectionType::Ssh => {
                self.phase = Phase::CheckingSsh;
                self.attempt = 1;
                Action::PingSsh
            },
            _ => {
                self.phase = Phase::CheckingRdp;
                self.attempt = 1;
                Action::PingRdp
            },
        }
    }

    /// The settled result of a finished attempt.
    pub fn result(&self) -> (r: Result<(), ConnectError>)
        requires
            self.phase is Finished,
        ensures
            r is Ok <==> self.outcome is None,
            self.outcome is Some ==> r == Err::<(), ConnectError>(self.outcome->0),
    {
        match self.outcome {
            None => Ok(()),
            Some(e) => Err(e),
        }
    }

    /// VPN phase transitions: connect command issued, or waiting for the
    /// tunnel to become routable.
    pub fn connect_vpn(&mut self, cancelled: bool, ok: bool) -> (r: Action)
        requires
            old(self).inv(),
            old(self).phase is ConnectingVpn || old(self).phase is WaitingForVpn || old(
                self,
            ).phase is VpnSleep,
        ensures
            *final(self) == Self::next(*old(self), cancelled, ok).0,
            r == Self::next(*old(self), cancelled, ok).1,
            final(self).inv(),
    {
        self.step(cancelled, ok)
    }

    /// Reachability-probe transitions: a probe answered, or a backoff sleep
    /// ended.
    pub fn check_host_reachable(&mut self, cancelled: bool, ok: bool) -> (r: Action)
        requires
            old(self).inv(),
            old(self).probing(),
        ensures
            *final(self) == Self::next(*old(self), cancelled, ok).0,
            r == Self::next(*old(self), cancelled, ok).1,
            final(self).inv(),
    {
        self.step(cancelled, ok)
    }

    /// RDP launch transitions: the spawn answered, or the RDP process ended.
    pub fn start_rdp(&mut self, cancelled: bool, ok: bool) -> (r: Action)
        requires
            old(self).inv(),
            old(self).phase is LaunchingRdp || old(self).phase is WaitingRdp,
        ensures
            *final(self) == Self::next(*old(self), cancelled, ok).0,
            r == Self::next(*old(self), cancelled, ok).1,
            final(self).inv(),
    {
        self.step(cancelled, ok)
    }

    /// SSH launch transition: the blocking SSH session ended, or its spawn
    /// failed.
    pub fn start_ssh(&mut self, cancelled: bool, ok: bool) -> (r: Action)
        requires
            old(self).inv(),
            old(self).phase is LaunchingSsh,
        ensures
            *final(self) == Self::next(*old(self), cancelled, ok).0,
            r == Self::next(*old(self), cancelled, ok).1,
            final(self).inv(),
    {
        self.step(cancelled, ok)
    }

    /// Teardown transition: the disconnect command was issued; the attempt
    /// finishes with its settled outcome.
    pub fn disconnect_vpn(&mut self, cancelled: bool, ok: bool) -> (r: Action)
        requires
            old(self).inv(),
            old(self).phase is Disconnecting,
        ensures
            *final(self) == Self::next(*old(self), cancelled, ok).0,
            r == Self::next(*old(self), cancelled, ok).1,
            final(self).inv(),
    {
        self.step(cancelled, ok)
    }

    /// Every transition keeps the attempt well-formed.
    #[verifier::rlimit(50)]
    pub proof fn lemma_next_preserves_inv(s: ConnectionManager, cancelled: bool, ok: bool)
        requires
            s.inv(),
        ensures
            Self::next(s, cancelled, ok).0.inv(),
    {
        let s2 = Self::next(s, cancelled, ok).0;
        if s.phase is Finished || s.phase is Idle {
        } else if cancelled && !(s.phase is Disconnecting) {
            assert(s2.inv());
        } else {
            match s.phase {
                Phase::Idle => {
                    assert(s2.inv());
                },
                Phase::ConnectingVpn => {
                    assert(s2.inv());
                },
                Phase::WaitingForVpn => {
                    assert(s2.inv());
                },
                Phase::VpnSleep => {
                    assert(s2.inv());
                },
                Phase::CheckingRdp => {
                    assert(s2.inv());
                },
                Phase::RdpBackoff => {
                    assert(s2.inv());
                },
                Phase::LaunchingRdp => {
                    assert(s2.inv());
                },
                Phase::CheckingSsh => {
                    assert(s2.inv());
                },
                Phase::SshBackoff => {
                    assert(s2.inv());
                },
                Phase::LaunchingSsh => {
                    assert(s2.inv());
                },
                Phase::WaitingRdp => {
                    assert(s2.inv());
                },
                Phase::Disconnecting => {
                    assert(s2.inv());
                },
                Phase::Finished => {
                    assert(s2.inv());
                },
            }
        }
    }

    /// The action whose result the attempt is waiting for in its current
    /// phase.
    pub open spec fn awaited_action(s: ConnectionManager) -> Action {
        match s.phase {
            Phase::Idle => Action::Finished,
            Phase::ConnectingVpn => Action::ConnectVpn,
            Phase::WaitingForVpn => Action::PingRdp,
            Phase::VpnSleep => Action::Sleep(s.vpn_sleep_ms() as u64),
            Phase::CheckingRdp => Action::PingRdp,
            Phase::RdpBackoff => Action::Sleep(backoff_ms(s.attempt as int) as u64),
            Phase::LaunchingRdp => Action::LaunchRdp,
            Phase::CheckingSsh => Action::PingSsh,
            Phase::SshBackoff => Action::Sleep(backoff_ms(s.attempt as int) as u64),
            Phase::LaunchingSsh => Action::LaunchSsh,
            Phase::WaitingRdp => Action::WaitRdp,
            Phase::Disconnecting => Action::DisconnectVpn,
            Phase::Finished => Action::Finished,
        }
    }

    /// Protocol law: every transition returns exactly the action its new
    /// state awaits, so a driver that performs each returned action and
    /// reports its result never falls out of step with the machine.
    pub proof fn lemma_action_matches_phase(s: ConnectionManager, cancelled: bool, ok: bool)
        ensures
            Self::next(s, cancelled, ok).1 == Self::awaited_action(Self::next(s, cancelled, ok).0),
    {
    }

    /// How far the attempt still is from teardown, coarsely: strictly falls
    /// along the phase order.
    pub open spec fn phase_rank(p: Phase) -> int {
        match p {
            Phase::Idle => 9,
            Phase::ConnectingVpn => 8,
            Phase::WaitingForVpn => 7,
            Phase::VpnSleep => 7,
            Phase::CheckingRdp => 6,
            Phase::RdpBackoff => 6,
            Phase::LaunchingRdp => 5,
            Phase::CheckingSsh => 4,
            Phase::SshBackoff => 4,
            Phase::LaunchingSsh => 3,
            Phase::WaitingRdp => 2,
            Phase::Disconnecting => 1,
            Phase::Finished => 0,
        }
    }

    /// What is left of the bounded part of the current phase: the time the
    /// tunnel wait may still sleep, or the probes a reachability check may
    /// still make.
    pub open spec fn phase_slack(s: ConnectionManager) -> int {
        match s.phase {
            Phase::WaitingForVpn => s.vpn_timeout_ms() - s.waited_ms,
            Phase::VpnSleep => s.vpn_timeout_ms() - s.waited_ms,
            Phase::CheckingRdp => s.settings.ping_retries - s.attempt,
            Phase::RdpBackoff => s.settings.ping_retries - s.attempt,
            Phase::CheckingSsh => s.settings.ping_retries - s.attempt,
            Phase::SshBackoff => s.settings.ping_retries - s.attempt,
            _ => 0,
        }
    }

    /// Whether the phase is about to probe (rather than to sleep).
    pub open spec fn phase_probing(p: Phase) -> int {
        match p {
            Phase::WaitingForVpn => 1,
            Phase::CheckingRdp => 1,
            Phase::CheckingSsh => 1,
            _ => 0,
        }
    }

    /// Progress law: every transition of a started, unfinished attempt
    /// strictly descends in the measure (phase rank, slack, probe bit), so
    /// an attempt can never loop forever: it reaches its teardown and its
    /// end after finitely many transitions, whatever the outcomes.
    pub proof fn lemma_next_progress(s: ConnectionManager, cancelled: bool, ok: bool)
        requires
            s.inv(),
            !(s.phase is Idle),
            !(s.phase is Finished),
        ensures
            ({
                let s2 = Self::next(s, cancelled, ok).0;
                &&& 0 <= Self::phase_rank(s2.phase)
                &&& 0 <= Self::phase_slack(s2)
                &&& 0 <= Self::phase_probing(s2.phase)
                &&& Self::phase_rank(s2.phase) < Self::phase_rank(s.phase) || (Self::phase_rank(
                    s2.phase,
                ) == Self::phase_rank(s.phase) && (Self::phase_slack(s2) < Self::phase_slack(s)
                    || (Self::phase_slack(s2) == Self::phase_slack(s) && Self::phase_probing(
                    s2.phase,
                ) < Self::phase_probing(s.phase))))
            }),
    {
    }

    /// Run a started attempt to its end without platform work and without
    /// cancellation, against fixed outcomes: every probe answers `ping_ok`,
    /// every spawn `launch_ok`, and the other actions merely complete.
    /// Returns the trace of every action handed out on the way.
    ///
    /// The trace shows the teardown guarantee: whatever the two outcomes,
    /// exactly one VPN disconnect is emitted, no further VPN connect, and
    /// at most one launch of each kind over the whole attempt; and when
    /// every spawn succeeds, the attempt ends in success.
    pub fn run_to_end(&mut self, pending: Action, ping_ok: bool, launch_ok: bool) -> (trace: Vec<
        Action,
    >)
        requires
            old(self).inv(),
            old(self).active(),
            pending == Self::awaited_action(*old(self)),
        ensures
            final(self).inv(),
            final(self).phase is Finished,
            count_actions(trace@, Action::DisconnectVpn) == 1,
            count_actions(trace@, Action::ConnectVpn) == 0,
            count_actions(trace@, Action::LaunchRdp) + old(self).rdp_launches <= 1,
            count_actions(trace@, Action::LaunchSsh) + old(self).ssh_launches <= 1,
            launch_ok ==> final(self).outcome is None,
    {
        let ghost s0 = *old(self);
        let mut trace: Vec<Action> = Vec::new();
        let mut current = pending;
        loop
            invariant
                self.inv(),
                !(self.phase is Idle),
                current == Self::awaited_action(*self),
                self.vpn_disconnects as int == s0.vpn_disconnects + count_actions(
                    trace@,
                    Action::DisconnectVpn,
                ),
                self.vpn_connects == s0.vpn_connects,
                self.rdp_launches as int == s0.rdp_launches + count_actions(
                    trace@,
                    Action::LaunchRdp,
                ),
                self.ssh_launches as int == s0.ssh_launches + count_actions(
                    trace@,
                    Action::LaunchSsh,
                ),
                s0.active(),
                s0.inv(),
                count_actions(trace@, Action::ConnectVpn) == 0,
                self.outcome is None || self.outcome == Some(ConnectError::LaunchError),
                launch_ok ==> self.outcome is None,
                current is Finished ==> self.phase is Finished,
            ensures
                self.inv(),
                self.phase is Finished,
                self.vpn_disconnects as int == s0.vpn_disconnects + count_actions(
                    trace@,
                    Action::DisconnectVpn,
                ),
                self.rdp_launches as int == s0.rdp_launches + count_actions(
                    trace@,
                    Action::LaunchRdp,
                ),
                self.ssh_launches as int == s0.ssh_launches + count_actions(
                    trace@,
                    Action::LaunchSsh,
                ),
                count_actions(trace@, Action::ConnectVpn) == 0,
                launch_ok ==> self.outcome is None,
            decreases
                    Self::phase_rank(self.phase),
                    Self::phase_slack(*self),
                    Self::phase_probing(self.phase),
        {
            match current {
                Action::Finished => {
                    break ;
                },
                _ => {},
            }
            let ok = match current {
                Action::PingRdp => ping_ok,
                Action::PingSsh => ping_ok,
                Action::LaunchRdp => launch_ok,
                Action::LaunchSsh => launch_ok,
                _ => true,
            };
            proof {
                Self::lemma_counters_track_actions(*self, false, ok);
                Self::lemma_action_matches_phase(*self, false, ok);
                Self::lemma_next_progress(*self, false, ok);
            }
            let ghost t0 = trace@;
            let next_action = self.step(false, ok);
            trace.push(next_action);
            proof {
                assert(trace@.drop_last() =~= t0);
            }
            current = next_action;
        }
        proof {
            assert(self.phase is Finished);
            Self::lemma_teardown_once(*self);
        }
        trace
    }

    /// Capability law: a target without SSH capability has no SSH host, so
    /// `connect` refuses every mode that asks for SSH on it with
    /// `ConfigError`, before any action is emitted.
    pub proof fn lemma_ssh_mode_needs_capability(s: Server, m: ConnectionType)
        requires
            needs_ssh(m),
            !s.has_ssh_spec(),
        ensures
            s.ssh_host_spec() is None,
    {
    }

    /// Teardown law: every finished attempt has emitted the VPN disconnect
    /// exactly once and the VPN connect at most once, whatever its outcome.
    pub proof fn lemma_teardown_once(s: ConnectionManager)
        requires
            s.inv(),
            s.phase is Finished,
        ensures
            s.vpn_disconnects == 1,
            s.vpn_connects <= 1,
    {
    }

    /// Counter law: one transition of a started attempt bumps each emission
    /// counter exactly when it emits the matching action, and never emits
    /// the VPN connect.
    pub proof fn lemma_counters_track_actions(s: ConnectionManager, cancelled: bool, ok: bool)
        requires
            s.inv(),
            !(s.phase is Idle),
        ensures
            ({
                let (s2, a) = Self::next(s, cancelled, ok);
                &&& s2.vpn_disconnects as int == s.vpn_disconnects + (if a is DisconnectVpn {
                    1int
                } else {
                    0int
                })
                &&& s2.vpn_connects == s.vpn_connects
                &&& !(a is ConnectVpn)
                &&& s2.rdp_launches as int == s.rdp_launches + (if a is LaunchRdp {
                    1int
                } else {
                    0int
                })
                &&& s2.ssh_launches as int == s.ssh_launches + (if a is LaunchSsh {
                    1int
                } else {
                    0int
                })
            }),
    {
    }

    /// Cancellation before any platform call: an attempt started with the
    /// flag already set stands in teardown with outcome `Cancelled` and no
    /// launch emitted; its one further transition finishes it so, still
    /// without any launch, with the VPN disconnect emitted exactly once and
    /// the VPN connect never.
    pub proof fn lemma_cancel_before_start(s: ConnectionManager, cancelled: bool, ok: bool)
        requires
            s.inv(),
            s.phase is Disconnecting,
            s.outcome == Some(ConnectError::Cancelled),
            s.vpn_connects == 0,
            s.rdp_launches == 0,
            s.ssh_launches == 0,
        ensures
            ({
                let (s2, a) = Self::next(s, cancelled, ok);
                &&& s2.phase is Finished
                &&& s2.outcome == Some(ConnectError::Cancelled)
                &&& s2.rdp_launches == 0
                &&& s2.ssh_launches == 0
                &&& s2.vpn_connects == 0
                &&& s2.vpn_disconnects == 1
                &&& a == Action::Finished
            }),
    {
    }

    /// Tunnel wait law: the total time slept while waiting for the tunnel
    /// never exceeds the VPN timeout; any sleep emitted keeps it so; and a
    /// failed probe at or past the timeout proceeds to the launch part
    /// rather than waiting on.
    pub proof fn lemma_vpn_wait_bounded(s: ConnectionManager, cancelled: bool, ok: bool)
        requires
            s.inv(),
            s.phase is WaitingForVpn || s.phase is VpnSleep,
        ensures
            s.waited_ms <= s.vpn_timeout_ms(),
            ({
                let (s2, a) = Self::next(s, cancelled, ok);
                &&& (a matches Action::Sleep(d) ==> s.waited_ms + d <= s.vpn_timeout_ms())
                &&& (s2.phase is WaitingForVpn || s2.phase is VpnSleep
                    ==> s2.waited_ms <= s2.vpn_timeout_ms())
            }),
            !cancelled && !ok && s.phase is WaitingForVpn && s.waited_ms >= s.vpn_timeout_ms()
                ==> {
                let (s2, a) = Self::next(s, cancelled, ok);
                s2.phase is CheckingRdp || s2.phase is CheckingSsh
            },
    {
    }

    /// Backoff law: a failed probe before the last allowed attempt sleeps
    /// `backoff_ms(attempt)` (one second, doubling each retry) and the
    /// following transition probes again with the attempt count one higher;
    /// the last failed attempt sleeps nothing and leaves the probe sequence
    /// at once.
    pub proof fn lemma_retry_backoff(s: ConnectionManager, ok: bool)
        requires
            s.inv(),
            s.phase is CheckingRdp || s.phase is CheckingSsh,
            !ok,
        ensures
            s.attempt < s.settings.ping_retries ==> {
                let (s2, a) = Self::next(s, false, ok);
                &&& a == Action::Sleep(backoff_ms(s.attempt as int) as u64)
                &&& s2.attempt == s.attempt
                &&& Self::next(s2, false, false).0.attempt == s.attempt + 1
                &&& (s.phase is CheckingRdp ==> Self::next(s2, false, false).1
                    == Action::PingRdp && Self::next(s2, false, false).0.phase is CheckingRdp)
                &&& (s.phase is CheckingSsh ==> Self::next(s2, false, false).1
                    == Action::PingSsh && Self::next(s2, false, false).0.phase is CheckingSsh)
            },
            s.attempt >= s.settings.ping_retries ==> {
                let (s2, a) = Self::next(s, false, ok);
                &&& !(a is Sleep)
                &&& (s.phase is CheckingRdp ==> !(s2.phase is CheckingRdp) && !(s2.phase
                    is RdpBackoff))
                &&& (s.phase is CheckingSsh ==> !(s2.phase is CheckingSsh) && !(s2.phase
                    is SshBackoff))
            },
    {
    }

    /// Degraded `BOTH` mode law: when the RDP host is found unreachable on
    /// the last probe, the attempt does not fail but moves on to the SSH
    /// sequence; a reachable SSH host then still launches the SSH session;
    /// and the SSH outcome decides the outcome of the whole attempt.
    pub proof fn lemma_both_ssh_after_rdp_unreachable(s: ConnectionManager)
        requires
            s.inv(),
            s.phase is CheckingRdp,
            s.mode is Both,
            s.attempt >= s.settings.ping_retries,
        ensures
            ({
                let (s2, a) = Self::next(s, false, false);
                &&& s2.phase is CheckingSsh
                &&& a == Action::PingSsh
                &&& s2.outcome is None
                &&& ({
                    let (s3, a3) = Self::next(s2, false, true);
                    &&& s3.phase is LaunchingSsh
                    &&& a3 == Action::LaunchSsh
                    &&& s3.ssh_launches == s.ssh_launches + 1
                })
            }),
    {
    }

    /// The outcome of the SSH session decides the outcome of the attempt:
    /// once the SSH session ends the attempt tears down and finishes with
    /// success when the session ran, `LaunchError` when its spawn failed.
    pub proof fn lemma_ssh_outcome_decides(s: ConnectionManager, ok: bool)
        requires
            s.inv(),
            s.phase is LaunchingSsh,
            !s.rdp_running,
        ensures
            ({
                let (s2, a) = Self::next(s, false, ok);
                &&& s2.phase is Disconnecting
                &&& a == Action::DisconnectVpn
                &&& (ok ==> s2.outcome is None)
                &&& (!ok ==> s2.outcome == Some(ConnectError::LaunchError))
            }),
    {
    }
}

} // verus!
