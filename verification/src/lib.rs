//! Connection establishment for a PostgreSQL client.
//!
//! The crate decides; it performs no I/O.
//!
//! * [`connect`](connect()) and [`step`] are the orchestrator. It goes
//!   through the hosts of a [`Config`] in order. For each it asks, one
//!   [`Action`] at a time, for a connector bound to the host's name, a
//!   socket, the security handshake, the protocol handshake and, where the
//!   session must allow writes, the answer to `SHOW transaction_read_only`.
//!   The caller performs the action and reports an [`Event`]. The first host
//!   that is accepted ends the run; a host that fails at any stage is given
//!   up for the next; after the last host the run fails with that host's
//!   error. [`failover`] states this of whole runs.
//! * [`MakeTlsConnector`] and [`TlsConnector`] are the transport-security
//!   capability over OpenSSL, and [`channel_binding`] derives the
//!   `tls-server-end-point` binding of an established session from the
//!   peer's certificate.

pub mod binding;
pub mod config;
pub mod connect;
pub mod error;
pub mod failover;
pub mod openssl_tls;
pub mod tls;

pub use crate::binding::{binding_of, channel_binding, tls_server_end_point};
pub use crate::config::{Config, ConfigError, Host, TargetSessionAttrs};
pub use crate::connect::{connect, connect_once, step, Action, Event, Progress, Stage, State, Verdict};
pub use crate::error::{ConnectError, ErrorKind};
pub use crate::openssl_tls::{MakeTlsConnector, TlsConnector};
pub use crate::tls::{ChannelBinding, MakeTlsConnect};
