//! Configuration model.
//!
//! The typed view of the daemon's configuration: global options, one
//! entry per virtual router, and optional static routes. Reading and
//! decoding the configuration file is the surrounding application's
//! job; it hands these structures over as plain values. Addresses
//! arrive here already split into their four octets. Invalid settings
//! are reported as [`ConfigError`] values, never as aborts.

use vstd::prelude::*;

verus! {

/// Configuration file formats the application can decode.
#[derive(Debug, Clone, Copy, PartialEq, Eq, Structural)]
pub enum CfgType {
    Toml,
    Json,
}

/// A fatal configuration fault, detected at startup.
#[derive(Debug, Clone, Copy, PartialEq, Eq, Structural)]
pub enum ConfigError {
    /// Virtual router id 0 is not valid.
    BadVrid,
    /// Priority outside the configurable range.
    BadPriority,
    /// Advertisement interval of zero.
    BadAdvertInt,
    /// No IPv4 address available on the router's interface.
    NoIpOnInterface,
    /// Authentication type not 0, 1, P0 or P1.
    UnsupportedAuthType,
    /// Priority 255 claims address ownership, but the VIP is not among
    /// the interface's addresses.
    OwnerWithoutVip,
    /// Priority below 255, yet the VIP is a real interface address.
    NonOwnerWithVip,
    /// No virtual IP configured.
    MissingVip,
}

/// Main configuration: global options and the virtual-router list.
pub struct CConfig {
    pub verbose: Option<u8>,
    pub debug: Option<u8>,
    pub pid: Option<String>,
    pub working_dir: Option<String>,
    pub main_log: Option<String>,
    pub error_log: Option<String>,
    pub vrouter: Option<Vec<VRConfig>>,
    pub protocols: Option<Protocols>,
}

impl CConfig {
    /// Configured verbosity, if any.
    pub fn _verbose(&self) -> (r: Option<u8>)
        ensures
            r == self.verbose,
    {
        self.verbose
    }

    /// Debugging level; silent when unset.
    pub fn debug(&self) -> (r: u8)
        ensures
            r == (match self.debug {
                Some(v) => v,
                None => 0u8,
            }),
    {
        match self.debug {
            Some(v) => v,
            None => 0,
        }
    }

    /// PID file path, with its default.
    pub fn pid(&self) -> (r: String)
        ensures
            self.pid matches Some(v) ==> r@ == v@,
            self.pid is None ==> r@ == "/var/run/rvrrpd.pid"@,
    {
        match &self.pid {
            Some(v) => v.clone(),
            None => "/var/run/rvrrpd.pid".to_owned(),
        }
    }

    /// Working directory, with its default.
    pub fn working_dir(&self) -> (r: String)
        ensures
            self.working_dir matches Some(v) ==> r@ == v@,
            self.working_dir is None ==> r@ == "/tmp"@,
    {
        match &self.working_dir {
            Some(v) => v.clone(),
            None => "/tmp".to_owned(),
        }
    }

    /// Main log file path, with its default.
    pub fn main_log(&self) -> (r: String)
        ensures
            self.main_log matches Some(v) ==> r@ == v@,
            self.main_log is None ==> r@ == "/var/log/rvrrpd.log"@,
    {
        match &self.main_log {
            Some(v) => v.clone(),
            None => "/var/log/rvrrpd.log".to_owned(),
        }
    }

    /// Error log file path, with its default.
    pub fn error_log(&self) -> (r: String)
        ensures
            self.error_log matches Some(v) ==> r@ == v@,
            self.error_log is None ==> r@ == "/var/log/rvrrpd-error.log"@,
    {
        match &self.error_log {
            Some(v) => v.clone(),
            None => "/var/log/rvrrpd-error.log".to_owned(),
        }
    }
}

/// Configuration of one virtual router.
pub struct VRConfig {
    pub group: u8,
    pub interface: String,
    pub vip: Option<[u8; 4]>,
    pub priority: Option<u8>,
    pub preemption: Option<bool>,
    pub auth_type: Option<u8>,
    pub auth_secret: Option<String>,
    pub timers: Option<Timers>,
    pub rfc3768: Option<bool>,
}

impl VRConfig {
    /// The virtual router id; ids start at 1.
    pub fn group(&self) -> (r: Result<u8, ConfigError>)
        ensures
            self.group >= 1 ==> r == Ok::<u8, ConfigError>(self.group),
            self.group == 0 ==> r == Err::<u8, ConfigError>(ConfigError::BadVrid),
    {
        if self.group < 1 {
            Err(ConfigError::BadVrid)
        } else {
            Ok(self.group)
        }
    }

    /// The interface this virtual router runs on.
    pub fn interface(&self) -> (r: &String)
        ensures
            r == &self.interface,
    {
        &self.interface
    }

    /// The virtual IP address, required.
    pub fn vip(&self) -> (r: Result<[u8; 4], ConfigError>)
        ensures
            self.vip matches Some(v) ==> r == Ok::<[u8; 4], ConfigError>(v),
            self.vip is None ==> r == Err::<[u8; 4], ConfigError>(ConfigError::MissingVip),
    {
        match self.vip {
            Some(v) => Ok(v),
            None => Err(ConfigError::MissingVip),
        }
    }

    /// Advertisement interval in seconds; one second when unset.
    pub fn timer_advert(&self) -> (r: u8)
        ensures
            r == (match self.timers {
                Some(t) => t.advert,
                None => 1u8,
            }),
    {
        match &self.timers {
            Some(t) => t.advert,
            None => 1,
        }
    }

    /// Configured priority: 1..=254 for an ordinary speaker, 255 for
    /// the address owner; 100 when unset. Only 0 is invalid.
    pub fn priority(&self) -> (r: Result<u8, ConfigError>)
        ensures
            self.priority is None ==> r == Ok::<u8, ConfigError>(100u8),
            self.priority matches Some(v) ==> r == (if v >= 1 {
                Ok::<u8, ConfigError>(v)
            } else {
                Err::<u8, ConfigError>(ConfigError::BadPriority)
            }),
    {
        match self.priority {
            Some(v) => {
                if v < 1 {
                    Err(ConfigError::BadPriority)
                } else {
                    Ok(v)
                }
            },
            None => Ok(100),
        }
    }

    /// Whether a higher-priority Backup preempts; off when unset.
    pub fn preemption(&self) -> (r: bool)
        ensures
            r == (match self.preemption {
                Some(b) => b,
                None => false,
            }),
    {
        match self.preemption {
            Some(b) => b,
            None => false,
        }
    }

    /// Authentication type: 0, 1, P0 or P1; none when unset.
    pub fn auth_type(&self) -> (r: Result<u8, ConfigError>)
        ensures
            self.auth_type is None ==> r == Ok::<u8, ConfigError>(0u8),
            self.auth_type matches Some(v) ==> r == (if v == 0 || v == 1 || v == 250 || v == 251 {
                Ok::<u8, ConfigError>(v)
            } else {
                Err::<u8, ConfigError>(ConfigError::UnsupportedAuthType)
            }),
    {
        match self.auth_type {
            Some(v) => {
                if v == 0 || v == 1 || v == 250 || v == 251 {
                    Ok(v)
                } else {
                    Err(ConfigError::UnsupportedAuthType)
                }
            },
            None => Ok(0),
        }
    }

    /// The shared secret, if one is configured.
    pub fn auth_secret(&self) -> (r: &Option<String>)
        ensures
            r == &self.auth_secret,
    {
        &self.auth_secret
    }

    /// Strict RFC 3768 mode; on when unset.
    pub fn rfc3768(&self) -> (r: bool)
        ensures
            r == (match self.rfc3768 {
                Some(b) => b,
                None => true,
            }),
    {
        match self.rfc3768 {
            Some(b) => b,
            None => true,
        }
    }
}

/// Timer options of one virtual router.
#[derive(Debug, Clone, Copy, PartialEq, Eq, Structural)]
pub struct Timers {
    /// Advertisement interval in seconds.
    pub advert: u8,
}

impl Default for Timers {
    /// One-second advertisements by default.
    fn default() -> (r: Self)
        ensures
            r.advert == 1,
    {
        Timers { advert: 1 }
    }
}

/// Optional protocol configuration.
pub struct Protocols {
    pub static_routes: Option<Vec<Static>>,
}

/// One static route to install while Master.
#[derive(Debug, Clone, Copy, PartialEq, Eq)]
pub struct Static {
    pub route: [u8; 4],
    pub mask: [u8; 4],
    pub nh: [u8; 4],
    pub metric: Option<u16>,
    pub mtu: Option<u16>,
}

impl Static {
    /// Destination network.
    pub fn route(&self) -> (r: [u8; 4])
        ensures
            r == self.route,
    {
        self.route
    }

    /// Destination netmask.
    pub fn mask(&self) -> (r: [u8; 4])
        ensures
            r == self.mask,
    {
        self.mask
    }

    /// Next hop.
    pub fn nh(&self) -> (r: [u8; 4])
        ensures
            r == self.nh,
    {
        self.nh
    }

    /// Route metric; zero when unset.
    pub fn metric(&self) -> (r: i16)
        ensures
            r == (match self.metric {
                Some(v) => v as i16,
                None => 0i16,
            }),
    {
        match self.metric {
            Some(v) =>
            #[verifier::truncate]
            (v as i16),
            None => 0,
        }
    }

    /// Route MTU; zero when unset.
    pub fn mtu(&self) -> (r: u64)
        ensures
            r == (match self.mtu {
                Some(v) => v as u64,
                None => 0u64,
            }),
    {
        match self.mtu {
            Some(v) => v as u64,
            None => 0,
        }
    }
}

} // verus!
