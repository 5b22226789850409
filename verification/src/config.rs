//! Server catalog data model: connection targets and timing settings.

use vstd::prelude::*;
use vstd::string::StrSliceExecFns;
use vstd::string::StringExecFns;

use crate::textutil::find_char;
use crate::textutil::first_index_of;

verus! {

/// Global timing settings for one connection attempt.
///
/// The orchestrator reads these and never changes them.
pub struct Settings {
    /// Timeout in seconds for the VPN to become routable.
    pub vpn_timeout_secs: u64,
    /// Timeout in milliseconds for a single reachability probe.
    pub ping_timeout_ms: u32,
    /// Number of reachability probes before a host counts as unreachable.
    pub ping_retries: u32,
}

pub fn default_vpn_timeout() -> (r: u64)
    ensures
        r == 30,
{
    30
}

pub fn default_ping_timeout() -> (r: u32)
    ensures
        r == 3000,
{
    3000
}

pub fn default_ping_retries() -> (r: u32)
    ensures
        r == 3,
{
    3
}

impl Settings {
    /// Bounds that keep every duration computed from these settings inside `u64`
    /// milliseconds, and honour the rule that at least one probe is made.
    pub open spec fn wf(&self) -> bool {
        &&& 1 <= self.ping_retries <= 40
        &&& self.vpn_timeout_secs <= 1_000_000_000
    }
}

impl Clone for Settings {
    fn clone(&self) -> (r: Self)
        ensures
            r == *self,
    {
        Settings {
            vpn_timeout_secs: self.vpn_timeout_secs,
            ping_timeout_ms: self.ping_timeout_ms,
            ping_retries: self.ping_retries,
        }
    }
}

impl Default for Settings {
    fn default() -> (r: Self)
        ensures
            r.vpn_timeout_secs == 30,
            r.ping_timeout_ms == 3000,
            r.ping_retries == 3,
            r.wf(),
    {
        Settings {
            vpn_timeout_secs: default_vpn_timeout(),
            ping_timeout_ms: default_ping_timeout(),
            ping_retries: default_ping_retries(),
        }
    }
}

/// One connection target: a VPN tunnel, an RDP address and an optional SSH
/// target string of the shape `user@host`.
pub struct Server {
    /// Display name of the server.
    pub name: String,
    /// SSH connection string; `None` or empty when SSH is not available.
    pub ssh: Option<String>,
    /// RDP address (IP or hostname).
    pub rdp: String,
    /// VPN connection name as configured in the system.
    pub vpn: String,
}

impl Server {
    /// Whether this target offers SSH: an SSH string is present and non-empty.
    pub open spec fn has_ssh_spec(&self) -> bool {
        match self.ssh {
            Some(s) => s@.len() > 0,
            None => false,
        }
    }

    /// The host part of the SSH string: everything after the first `'@'`.
    /// `None` when SSH is not offered or the string holds no `'@'`.
    pub open spec fn ssh_host_spec(&self) -> Option<Seq<char>> {
        if self.has_ssh_spec() {
            let s = self.ssh->0@;
            let i = first_index_of(s, '@');
            if i >= 0 {
                Some(s.subrange(i + 1, s.len() as int))
            } else {
                None
            }
        } else {
            None
        }
    }

    /// Check if SSH is available for this server.
    pub fn has_ssh(&self) -> (r: bool)
        ensures
            r == self.has_ssh_spec(),
    {
        match &self.ssh {
            Some(s) => !s.as_str().is_empty(),
            None => false,
        }
    }

    /// Get the SSH connection string if available.
    pub fn ssh_string(&self) -> (r: Option<&str>)
        ensures
            match r {
                Some(s) => self.has_ssh_spec() && s@ == self.ssh->0@,
                None => !self.has_ssh_spec(),
            },
    {
        match &self.ssh {
            Some(s) => {
                if s.as_str().is_empty() {
                    None
                } else {
                    Some(s.as_str())
                }
            },
            None => None,
        }
    }

    /// Extract the host part from the SSH connection string.
    pub fn ssh_ip(&self) -> (r: Option<String>)
        ensures
            match r {
                Some(h) => self.ssh_host_spec() == Some(h@),
                None => self.ssh_host_spec() is None,
            },
    {
        match self.ssh_string() {
            Some(s) => {
                match find_char(s, '@') {
                    Some(i) => {
                        let n = s.unicode_len();
                        proof {
                            crate::textutil::lemma_first_index_of(s@, '@');
                        }
                        let host = s.substring_char(i + 1, n);
                        Some(host.to_owned())
                    },
                    None => None,
                }
            },
            None => None,
        }
    }
}

impl Clone for Server {
    fn clone(&self) -> (r: Self)
        ensures
            r == *self,
    {
        Server {
            name: self.name.clone(),
            ssh: match &self.ssh {
                Some(s) => Some(s.clone()),
                None => None,
            },
            rdp: self.rdp.clone(),
            vpn: self.vpn.clone(),
        }
    }
}

/// The server catalog together with the global settings.
pub struct Config {
    /// List of servers available for connection.
    pub servers: Vec<Server>,
    /// Global settings.
    pub settings: Settings,
}

impl Clone for Config {
    fn clone(&self) -> (r: Self)
        ensures
            r.servers@ == self.servers@,
            r.settings == self.settings,
    {
        let mut servers: Vec<Server> = Vec::new();
        let mut i: usize = 0;
        while i < self.servers.len()
            invariant
                0 <= i <= self.servers@.len(),
                servers@ == self.servers@.subrange(0, i as int),
            decreases self.servers@.len() - i,
        {
            servers.push(self.servers[i].clone());
            proof {
                assert(servers@ =~= self.servers@.subrange(0, i + 1));
            }
            i = i + 1;
        }
        proof {
            assert(servers@ =~= self.servers@);
        }
        Config { servers, settings: self.settings.clone() }
    }
}

impl Config {
    /// The built-in example catalog: four sample servers and the default
    /// settings.
    pub fn default_config() -> (r: Config)
        ensures
            r.servers@.len() == 4,
            r.servers@[0].name@ == "Ilmatex"@,
            r.servers@[0].ssh is Some && r.servers@[0].ssh->0@ == "root@192.168.0.98"@,
            r.servers@[0].rdp@ == "192.168.0.99"@,
            r.servers@[0].vpn@ == "ILMATEX"@,
            r.servers@[1].name@ == "Frodexim"@,
            r.servers@[1].ssh is None,
            r.servers@[1].rdp@ == "192.168.50.20"@,
            r.servers@[1].vpn@ == "FRODEXIM"@,
            r.servers@[2].name@ == "Industrial Technic"@,
            r.servers@[2].ssh is Some && r.servers@[2].ssh->0@ == "root@192.168.100.10"@,
            r.servers@[2].rdp@ == "192.168.100.20"@,
            r.servers@[2].vpn@ == "Industrial Technik"@,
            r.servers@[3].name@ == "BG Nova"@,
            r.servers@[3].ssh is None,
            r.servers@[3].rdp@ == "192.168.100.20"@,
            r.servers@[3].vpn@ == "Industrial Technik"@,
            r.settings.vpn_timeout_secs == 30,
            r.settings.ping_timeout_ms == 3000,
            r.settings.ping_retries == 3,
    {
        let mut servers: Vec<Server> = Vec::new();
        servers.push(Server {
            name: String::from_str("Ilmatex"),
            ssh: Some(String::from_str("root@192.168.0.98")),
            rdp: String::from_str("192.168.0.99"),
            vpn: String::from_str("ILMATEX"),
        });
        servers.push(Server {
            name: String::from_str("Frodexim"),
            ssh: None,
            rdp: String::from_str("192.168.50.20"),
            vpn: String::from_str("FRODEXIM"),
        });
        servers.push(Server {
            name: String::from_str("Industrial Technic"),
            ssh: Some(String::from_str("root@192.168.100.10")),
            rdp: String::from_str("192.168.100.20"),
            vpn: String::from_str("Industrial Technik"),
        });
        servers.push(Server {
            name: String::from_str("BG Nova"),
            ssh: None,
            rdp: String::from_str("192.168.100.20"),
            vpn: String::from_str("Industrial Technik"),
        });
        Config { servers, settings: Settings::default() }
    }
}

} // verus!
