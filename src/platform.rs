//! Which collector serves a host.
use vstd::prelude::*;
use vstd::string::*;
use crate::model::Connection;

verus! {

/// The operating system a snapshot is taken on.
#[derive(Debug, Clone, Copy, PartialEq, Eq, Structural)]
pub enum Platform {
    Windows,
    Linux,
    MacOs,
    Other,
}

pub open spec fn linux_message() -> Seq<char> {
    "Linux connection collection not implemented yet. Planned implementation using 'ss' or 'netstat' commands."@
}

pub open spec fn macos_message() -> Seq<char> {
    "macOS connection collection not implemented yet. Planned implementation using 'lsof' or 'netstat' commands."@
}

pub open spec fn unsupported_message() -> Seq<char> {
    "Unsupported operating system"@
}

/// The collector for Linux hosts, which has no data source yet.
pub struct LinuxConnectionCollector;

impl LinuxConnectionCollector {
    pub fn new() -> Self {
        LinuxConnectionCollector
    }

    /// Always fails, naming the tools a future collector will use.
    pub fn get_connections(&self) -> (r: Result<Vec<Connection>, String>)
        ensures
            r is Err && r->Err_0@ == linux_message(),
    {
        Err(
            String::from_str(
                "Linux connection collection not implemented yet. Planned implementation using 'ss' or 'netstat' commands.",
            ),
        )
    }
}

/// The collector for macOS hosts, which has no data source yet.
pub struct MacOsConnectionCollector;

impl MacOsConnectionCollector {
    pub fn new() -> Self {
        MacOsConnectionCollector
    }

    /// Always fails, naming the tools a future collector will use.
    pub fn get_connections(&self) -> (r: Result<Vec<Connection>, String>)
        ensures
            r is Err && r->Err_0@ == macos_message(),
    {
        Err(
            String::from_str(
                "macOS connection collection not implemented yet. Planned implementation using 'lsof' or 'netstat' commands.",
            ),
        )
    }
}

/// Chooses the collector for the host.
pub struct ConnectionCollector;

impl ConnectionCollector {
    pub fn new() -> Self {
        ConnectionCollector
    }

    /// The error a snapshot on `platform` ends in before any command runs; `None` where the
    /// platform has a working collector (Windows).
    pub fn platform_error(&self, platform: Platform) -> (r: Option<String>)
        ensures
            match platform {
                Platform::Windows => r is None,
                Platform::Linux => r is Some && r->Some_0@ == linux_message(),
                Platform::MacOs => r is Some && r->Some_0@ == macos_message(),
                Platform::Other => r is Some && r->Some_0@ == unsupported_message(),
            },
    {
        match platform {
            Platform::Windows => None,
            Platform::Linux => match LinuxConnectionCollector::new().get_connections() {
                Err(e) => Some(e),
                Ok(_) => None,
            },
            Platform::MacOs => match MacOsConnectionCollector::new().get_connections() {
                Err(e) => Some(e),
                Ok(_) => None,
            },
            Platform::Other => Some(String::from_str("Unsupported operating system")),
        }
    }
}

} // verus!
