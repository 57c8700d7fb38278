//! Consumer-side configuration: the flags loaded before a capture reader is
//! constructed, and the connection parameters remembered between runs.
//!
//! Reading and writing the configuration file is plain storage glue and
//! happens outside this crate; this module owns the values and the decisions
//! over them.
use vstd::prelude::*;

verus! {

/// Default for a flag absent from a stored configuration.
pub fn default_as_false() -> (b: bool)
    ensures
        b == false,
{
    false
}

/// Default for a flag absent from a stored configuration. Note that it, too,
/// yields `false`: an absent flag never switches a feature on by itself.
pub fn default_as_true() -> (b: bool)
    ensures
        b == false,
{
    false
}

/// The consumer's persisted settings.
#[derive(Debug, PartialEq, Eq)]
pub struct MirrorConfig {
    pub multithreading: bool,
    pub obs_capture: bool,
    pub connect_on_startup: bool,
    pub last_connector: Option<String>,
    pub last_connector_args: Option<String>,
    pub last_os: Option<String>,
    pub last_os_args: Option<String>,
}

impl Default for MirrorConfig {
    fn default() -> (c: MirrorConfig)
        ensures
            c.multithreading == true,
            c.obs_capture == true,
            c.connect_on_startup == false,
            c.last_connector is None,
            c.last_connector_args is None,
            c.last_os is None,
            c.last_os_args is None,
    {
        MirrorConfig {
            multithreading: true,
            obs_capture: true,
            connect_on_startup: false,
            last_connector: None,
            last_connector_args: None,
            last_os: None,
            last_os_args: None,
        }
    }
}

impl MirrorConfig {
    /// Adopts a loaded configuration, or falls back to the defaults when the
    /// store held none that could be read. The caller hands in what its
    /// storage produced and persists the fallback if it wants to.
    pub fn load_or_default(loaded: Option<MirrorConfig>) -> (c: MirrorConfig)
        ensures
            match loaded {
                Some(l) => c == l,
                None => {
                    &&& c.multithreading == true
                    &&& c.obs_capture == true
                    &&& c.connect_on_startup == false
                    &&& c.last_connector is None
                    &&& c.last_connector_args is None
                    &&& c.last_os is None
                    &&& c.last_os_args is None
                },
            },
    {
        match loaded {
            Some(l) => l,
            None => MirrorConfig::default(),
        }
    }

    /// Whether the stored settings ask for — and suffice for — connecting
    /// without user interaction: the flag is set and both a connector and an
    /// operating-system plugin are remembered.
    pub fn can_connect_on_startup(&self) -> (r: bool)
        ensures
            r == (self.connect_on_startup && self.last_connector is Some && self.last_os is Some),
    {
        self.connect_on_startup && self.last_connector.is_some() && self.last_os.is_some()
    }
}

} // verus!
