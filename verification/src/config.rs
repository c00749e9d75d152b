//! Connection parameters that the orchestrator reads.

use vstd::prelude::*;
use std::path::PathBuf;

verus! {

#[verifier::external_type_specification]
#[verifier::external_body]
pub struct ExPathBuf(std::path::PathBuf);

/// `PathBuf::clone` gives a path equal to the one it is called on.
pub assume_specification[ <PathBuf as Clone>::clone ](path: &PathBuf) -> (copy: PathBuf)
    ensures
        copy == *path,
;

/// A host to connect to.
#[derive(Clone, Debug, PartialEq, Eq)]
pub enum Host {
    /// A TCP hostname.
    Tcp(String),
    /// The directory of a Unix domain socket.
    Unix(PathBuf),
}

/// Properties required of a session.
#[derive(Clone, Copy, Debug, PartialEq, Eq, Structural)]
pub enum TargetSessionAttrs {
    /// No special properties are required.
    Any,
    /// The session must allow writes.
    ReadWrite,
}

/// Why a configuration cannot be used to connect.
#[derive(Clone, Copy, Debug, PartialEq, Eq, Structural)]
pub enum ConfigError {
    /// The host list is empty.
    HostMissing,
    /// More than one port is configured, but not one per host.
    InvalidPortCount,
}

/// The connection parameters the orchestrator reads. It never changes them.
#[derive(Clone, Debug, PartialEq, Eq)]
pub struct Config {
    pub host: Vec<Host>,
    pub port: Vec<u16>,
    pub target_session_attrs: TargetSessionAttrs,
}

impl Host {
    /// The name that transport security is negotiated for: the hostname of a
    /// TCP host, and the empty string for a Unix socket.
    pub open spec fn spec_hostname(self) -> Seq<char> {
        match self {
            Host::Tcp(name) => name@,
            Host::Unix(_) => Seq::empty(),
        }
    }

    pub fn hostname(&self) -> (name: String)
        ensures
            name@ == self.spec_hostname(),
    {
        match self {
            Host::Tcp(name) => name.clone(),
            Host::Unix(_) => String::new(),
        }
    }
}

impl Config {
    /// The first reason, if any, for which the configuration is refused.
    pub open spec fn spec_validate(self) -> Result<(), ConfigError> {
        if self.host.len() == 0 {
            Err(ConfigError::HostMissing)
        } else if self.port.len() > 1 && self.port.len() != self.host.len() {
            Err(ConfigError::InvalidPortCount)
        } else {
            Ok(())
        }
    }

    pub fn validate(&self) -> (r: Result<(), ConfigError>)
        ensures
            r == self.spec_validate(),
    {
        if self.host.len() == 0 {
            Err(ConfigError::HostMissing)
        } else if self.port.len() > 1 && self.port.len() != self.host.len() {
            Err(ConfigError::InvalidPortCount)
        } else {
            Ok(())
        }
    }
}

} // verus!
