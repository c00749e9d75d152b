//! The one error type that every failure of a connection attempt is turned
//! into.

use vstd::prelude::*;
use vstd::string::StringExecFns;
use crate::config::ConfigError;

verus! {

/// The kinds of failure that `connect` tells apart.
#[derive(Clone, Copy, Debug, PartialEq, Eq, Structural)]
pub enum ErrorKind {
    /// The configuration cannot be used.
    Config,
    /// The factory made no connector for the host.
    SecurityFactory,
    /// No socket to the host could be had.
    Transport,
    /// The security handshake failed.
    Handshake,
    /// The protocol handshake failed, or a message was not the expected one.
    Protocol,
    /// The server does not allow the writes that the configuration asks for.
    Permission,
}

/// A failure to connect. `E` is the cause as the stage that failed reported
/// it; the orchestrator carries it and never looks inside.
#[derive(Debug, PartialEq, Eq)]
pub enum ConnectError<E> {
    /// The configuration was refused before anything was tried.
    Config(ConfigError),
    /// The factory could not make a connector for the host's name.
    SecurityFactory(E),
    /// The socket could not be connected.
    Transport(E),
    /// The security handshake failed.
    Handshake(E),
    /// The protocol handshake, or the stream of messages after it, failed.
    Protocol(E),
    /// The messages ended, or went on, in a way the protocol does not allow.
    UnexpectedMessage,
    /// The session is read-only, and one that allows writes was asked for.
    PermissionDenied,
}

impl ConfigError {
    /// The text that describes the error.
    pub open spec fn spec_message(self) -> Seq<char> {
        match self {
            ConfigError::HostMissing => "host missing"@,
            ConfigError::InvalidPortCount => "invalid number of ports"@,
        }
    }

    pub fn message(&self) -> (text: String)
        ensures
            text@ == self.spec_message(),
    {
        match self {
            ConfigError::HostMissing => String::from_str("host missing"),
            ConfigError::InvalidPortCount => String::from_str("invalid number of ports"),
        }
    }
}

impl<E> ConnectError<E> {
    /// The kind under which the error is reported.
    pub open spec fn spec_kind(self) -> ErrorKind {
        match self {
            ConnectError::Config(_) => ErrorKind::Config,
            ConnectError::SecurityFactory(_) => ErrorKind::SecurityFactory,
            ConnectError::Transport(_) => ErrorKind::Transport,
            ConnectError::Handshake(_) => ErrorKind::Handshake,
            ConnectError::Protocol(_) => ErrorKind::Protocol,
            ConnectError::UnexpectedMessage => ErrorKind::Protocol,
            ConnectError::PermissionDenied => ErrorKind::Permission,
        }
    }

    pub fn kind(&self) -> (kind: ErrorKind)
        ensures
            kind == self.spec_kind(),
    {
        match self {
            ConnectError::Config(_) => ErrorKind::Config,
            ConnectError::SecurityFactory(_) => ErrorKind::SecurityFactory,
            ConnectError::Transport(_) => ErrorKind::Transport,
            ConnectError::Handshake(_) => ErrorKind::Handshake,
            ConnectError::Protocol(_) => ErrorKind::Protocol,
            ConnectError::UnexpectedMessage => ErrorKind::Protocol,
            ConnectError::PermissionDenied => ErrorKind::Permission,
        }
    }

    /// The cause, where a stage reported one.
    pub open spec fn spec_cause(self) -> Option<E> {
        match self {
            ConnectError::SecurityFactory(cause) => Some(cause),
            ConnectError::Transport(cause) => Some(cause),
            ConnectError::Handshake(cause) => Some(cause),
            ConnectError::Protocol(cause) => Some(cause),
            _ => None,
        }
    }

    pub fn into_cause(self) -> (cause: Option<E>)
        ensures
            cause == self.spec_cause(),
    {
        match self {
            ConnectError::SecurityFactory(cause) => Some(cause),
            ConnectError::Transport(cause) => Some(cause),
            ConnectError::Handshake(cause) => Some(cause),
            ConnectError::Protocol(cause) => Some(cause),
            _ => None,
        }
    }
}

} // verus!
