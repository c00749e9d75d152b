//! The orchestrator: which host is tried, what is asked of the outside world
//! next, and when the attempt to connect is over.
//!
//! Nothing here performs I/O. A caller starts with [`connect`], performs the
//! [`Action`] it is handed, reports what happened as an [`Event`] to [`step`],
//! and goes on until the [`Progress`] is `Connected` or `Failed`.

use vstd::prelude::*;
use vstd::string::StringExecFns;
use crate::config::{Config, ConfigError, TargetSessionAttrs};
use crate::error::{ConnectError, ErrorKind};
use crate::tls::ChannelBinding;

verus! {

/// The query that tells whether a session is read-only.
pub const READ_ONLY_QUERY: &'static str = "SHOW transaction_read_only";

/// What an attempt at one host is waiting for.
#[derive(Clone, Copy, Debug, PartialEq, Eq, Structural)]
pub enum Stage {
    /// A connector bound to the host's name.
    Factory,
    /// A socket to the host.
    Socket,
    /// The security handshake over the socket.
    Security,
    /// The protocol handshake over the secured stream.
    Protocol,
    /// The next message in answer to [`READ_ONLY_QUERY`].
    Session,
}

/// Where the orchestrator stands: the host it is trying, by its index in the
/// configuration, and the stage of the attempt.
#[derive(Clone, Copy, Debug, PartialEq, Eq, Structural)]
pub struct State {
    pub host: usize,
    pub stage: Stage,
}

/// What the caller reports after it has performed an action.
#[derive(Debug, PartialEq, Eq)]
pub enum Event<E> {
    /// The factory made a connector.
    ConnectorMade,
    /// The socket is connected.
    SocketConnected,
    /// The connector secured the stream, and offers this channel binding.
    StreamSecured(ChannelBinding),
    /// The protocol handshake is complete: there is a client.
    HandshakeCompleted,
    /// The query answered with a row; this is the row's first column.
    Row(Option<String>),
    /// The query answered with a message that is not a row.
    Message,
    /// The query's answer ended.
    EndOfMessages,
    /// The action failed, for this cause.
    Failed(E),
}

/// What the caller is asked to do next, always for the host being tried.
#[derive(Debug, PartialEq, Eq)]
pub enum Action {
    /// Ask the factory for a connector bound to `hostname`.
    MakeConnector { host: usize, hostname: String },
    /// Connect a socket to the host.
    ConnectSocket { host: usize },
    /// Hand the socket to the connector made for this host.
    SecureStream { host: usize },
    /// Perform the protocol handshake over the secured stream, with this
    /// channel binding.
    Handshake { host: usize, channel_binding: ChannelBinding },
    /// Send [`READ_ONLY_QUERY`] to the new client and report its first
    /// message.
    CheckSession { host: usize },
    /// Report the query's next message.
    NextMessage { host: usize },
}

/// An [`Action`] as contracts see it.
pub ghost enum ActionView {
    MakeConnector { host: usize, hostname: Seq<char> },
    ConnectSocket { host: usize },
    SecureStream { host: usize },
    Handshake { host: usize, channel_binding: Option<Seq<u8>> },
    CheckSession { host: usize },
    NextMessage { host: usize },
}

impl View for Action {
    type V = ActionView;

    open spec fn view(&self) -> ActionView {
        match *self {
            Action::MakeConnector { host, hostname } => ActionView::MakeConnector {
                host,
                hostname: hostname@,
            },
            Action::ConnectSocket { host } => ActionView::ConnectSocket { host },
            Action::SecureStream { host } => ActionView::SecureStream { host },
            Action::Handshake { host, channel_binding } => ActionView::Handshake {
                host,
                channel_binding: channel_binding@,
            },
            Action::CheckSession { host } => ActionView::CheckSession { host },
            Action::NextMessage { host } => ActionView::NextMessage { host },
        }
    }
}

/// What one event does to the attempt it belongs to.
#[derive(Debug, PartialEq, Eq)]
pub enum Verdict<E> {
    /// The attempt goes on.
    Continue { state: State, action: Action },
    /// The host is accepted.
    Accepted,
    /// The host is given up, for this reason.
    Rejected(ConnectError<E>),
}

/// A [`Verdict`] as contracts see it.
pub ghost enum VerdictView<E> {
    Continue { state: State, action: ActionView },
    Accepted,
    Rejected(ConnectError<E>),
}

impl<E> View for Verdict<E> {
    type V = VerdictView<E>;

    open spec fn view(&self) -> VerdictView<E> {
        match *self {
            Verdict::Continue { state, action } => VerdictView::Continue { state, action: action@ },
            Verdict::Accepted => VerdictView::Accepted,
            Verdict::Rejected(error) => VerdictView::Rejected(error),
        }
    }
}

/// How far the attempt to connect has come.
#[derive(Debug, PartialEq, Eq)]
pub enum Progress<E> {
    /// The caller is to perform `action` and report to [`step`] with `state`.
    Pending { state: State, action: Action },
    /// The host with this index was accepted. Nothing more is to be done.
    Connected { host: usize },
    /// No host was accepted. Nothing more is to be done.
    Failed { error: ConnectError<E> },
}

/// A [`Progress`] as contracts see it.
pub ghost enum ProgressView<E> {
    Pending { state: State, action: ActionView },
    Connected { host: usize },
    Failed { error: ConnectError<E> },
}

impl<E> View for Progress<E> {
    type V = ProgressView<E>;

    open spec fn view(&self) -> ProgressView<E> {
        match *self {
            Progress::Pending { state, action } => ProgressView::Pending { state, action: action@ },
            Progress::Connected { host } => ProgressView::Connected { host },
            Progress::Failed { error } => ProgressView::Failed { error },
        }
    }
}

/// Whether the first column of the answer to [`READ_ONLY_QUERY`] says that
/// the session is read-only.
pub open spec fn is_read_only(first_column: Option<String>) -> bool {
    first_column matches Some(value) && value@ == "on"@
}

/// The error that a failure at `stage` is reported as.
pub open spec fn stage_error<E>(stage: Stage, cause: E) -> ConnectError<E> {
    match stage {
        Stage::Factory => ConnectError::SecurityFactory(cause),
        Stage::Socket => ConnectError::Transport(cause),
        Stage::Security => ConnectError::Handshake(cause),
        Stage::Protocol => ConnectError::Protocol(cause),
        Stage::Session => ConnectError::Protocol(cause),
    }
}

/// The attempt's next stage, with what is asked for it.
pub open spec fn proceed<E>(host: usize, stage: Stage, action: ActionView) -> VerdictView<E> {
    VerdictView::Continue { state: State { host, stage }, action }
}

/// What `event` does to the attempt in `state`.
///
/// A failure ends the attempt with the error of its stage. The event that
/// the stage waits for takes the attempt to the next stage; after the
/// protocol handshake that is the session check where the configuration asks
/// for a session that allows writes, and acceptance where it does not. The
/// session check skips messages that are no rows, accepts the host on the
/// first row unless its first column is `on`, and rejects it where the
/// messages end without a row. Any other event does not answer what was
/// asked, and ends the attempt as an unexpected message.
pub open spec fn attempt_step<E>(config: Config, state: State, event: Event<E>) -> VerdictView<E> {
    let host = state.host;
    match (state.stage, event) {
        (stage, Event::Failed(cause)) => VerdictView::Rejected(stage_error(stage, cause)),
        (Stage::Factory, Event::ConnectorMade) => proceed(
            host,
            Stage::Socket,
            ActionView::ConnectSocket { host },
        ),
        (Stage::Socket, Event::SocketConnected) => proceed(
            host,
            Stage::Security,
            ActionView::SecureStream { host },
        ),
        (Stage::Security, Event::StreamSecured(binding)) => proceed(
            host,
            Stage::Protocol,
            ActionView::Handshake { host, channel_binding: binding@ },
        ),
        (Stage::Protocol, Event::HandshakeCompleted) => {
            if config.target_session_attrs == TargetSessionAttrs::ReadWrite {
                proceed(host, Stage::Session, ActionView::CheckSession { host })
            } else {
                VerdictView::Accepted
            }
        },
        (Stage::Session, Event::Row(first_column)) => {
            if is_read_only(first_column) {
                VerdictView::Rejected(ConnectError::PermissionDenied)
            } else {
                VerdictView::Accepted
            }
        },
        (Stage::Session, Event::Message) => proceed(
            host,
            Stage::Session,
            ActionView::NextMessage { host },
        ),
        _ => VerdictView::Rejected(ConnectError::UnexpectedMessage),
    }
}

/// The start of the attempt at `host`: its connector is asked for, bound to
/// the host's name.
pub open spec fn begin_attempt<E>(config: Config, host: usize) -> ProgressView<E> {
    ProgressView::Pending {
        state: State { host, stage: Stage::Factory },
        action: ActionView::MakeConnector {
            host,
            hostname: config.host@[host as int].spec_hostname(),
        },
    }
}

/// What follows when the attempt at `host` is given up with `error`: the
/// next host where there is one, and otherwise the end, with that error.
pub open spec fn give_up<E>(config: Config, host: usize, error: ConnectError<E>) -> ProgressView<E> {
    if host + 1 < config.host.len() {
        begin_attempt(config, (host + 1) as usize)
    } else {
        ProgressView::Failed { error }
    }
}

/// The end that the acceptance of `host` brings.
pub open spec fn accepted<E>(host: usize) -> ProgressView<E> {
    ProgressView::Connected { host }
}

/// The end that a refused configuration comes to.
pub open spec fn refused<E>(error: ConfigError) -> ProgressView<E> {
    ProgressView::Failed { error: ConnectError::Config(error) }
}

/// Whether `progress` is the end that a refused configuration comes to.
pub open spec fn is_refused<E>(progress: ProgressView<E>) -> bool {
    progress matches ProgressView::Failed { error } && error.spec_kind() == ErrorKind::Config
}

/// Where `connect` starts: with the error of a configuration that is
/// refused, and otherwise with the attempt at the first host.
pub open spec fn connect_spec<E>(config: Config) -> ProgressView<E> {
    match config.spec_validate() {
        Err(error) => refused(error),
        Ok(_) => begin_attempt(config, 0),
    }
}

/// Where `event` takes the orchestrator from `state`.
pub open spec fn step_spec<E>(config: Config, state: State, event: Event<E>) -> ProgressView<E> {
    match attempt_step(config, state, event) {
        VerdictView::Continue { state: next, action } => ProgressView::Pending {
            state: next,
            action,
        },
        VerdictView::Accepted => accepted(state.host),
        VerdictView::Rejected(error) => give_up(config, state.host, error),
    }
}

/// Tells whether the first column of the answer to [`READ_ONLY_QUERY`] says
/// that the session is read-only.
pub fn read_only(first_column: &Option<String>) -> (r: bool)
    ensures
        r == is_read_only(*first_column),
{
    match first_column {
        Some(value) => {
            let on = String::from_str("on");
            *value == on
        },
        None => false,
    }
}

/// Turns the cause of a failure at `stage` into the error it is reported as.
pub fn error_at<E>(stage: Stage, cause: E) -> (error: ConnectError<E>)
    ensures
        error == stage_error(stage, cause),
{
    match stage {
        Stage::Factory => ConnectError::SecurityFactory(cause),
        Stage::Socket => ConnectError::Transport(cause),
        Stage::Security => ConnectError::Handshake(cause),
        Stage::Protocol => ConnectError::Protocol(cause),
        Stage::Session => ConnectError::Protocol(cause),
    }
}

/// Decides what one event does to the attempt at one host.
pub fn connect_once<E>(config: &Config, state: State, event: Event<E>) -> (verdict: Verdict<E>)
    ensures
        verdict@ == attempt_step(*config, state, event),
{
    let host = state.host;
    match (state.stage, event) {
        (stage, Event::Failed(cause)) => Verdict::Rejected(error_at(stage, cause)),
        (Stage::Factory, Event::ConnectorMade) => Verdict::Continue {
            state: State { host, stage: Stage::Socket },
            action: Action::ConnectSocket { host },
        },
        (Stage::Socket, Event::SocketConnected) => Verdict::Continue {
            state: State { host, stage: Stage::Security },
            action: Action::SecureStream { host },
        },
        (Stage::Security, Event::StreamSecured(binding)) => Verdict::Continue {
            state: State { host, stage: Stage::Protocol },
            action: Action::Handshake { host, channel_binding: binding },
        },
        (Stage::Protocol, Event::HandshakeCompleted) => {
            match config.target_session_attrs {
                TargetSessionAttrs::ReadWrite => Verdict::Continue {
                    state: State { host, stage: Stage::Session },
                    action: Action::CheckSession { host },
                },
                TargetSessionAttrs::Any => Verdict::Accepted,
            }
        },
        (Stage::Session, Event::Row(first_column)) => {
            if read_only(&first_column) {
                Verdict::Rejected(ConnectError::PermissionDenied)
            } else {
                Verdict::Accepted
            }
        },
        (Stage::Session, Event::Message) => Verdict::Continue {
            state: State { host, stage: Stage::Session },
            action: Action::NextMessage { host },
        },
        _ => Verdict::Rejected(ConnectError::UnexpectedMessage),
    }
}

/// Starts the attempt at `host`.
fn begin<E>(config: &Config, host: usize) -> (progress: Progress<E>)
    requires
        host < config.host.len(),
    ensures
        progress@ == begin_attempt::<E>(*config, host),
{
    Progress::Pending {
        state: State { host, stage: Stage::Factory },
        action: Action::MakeConnector { host, hostname: config.host[host].hostname() },
    }
}

/// Gives the attempt at `host` up: goes on to the next host, or ends with
/// `error` after the last one.
pub fn next_host<E>(config: &Config, host: usize, error: ConnectError<E>) -> (progress: Progress<E>)
    ensures
        progress@ == give_up(*config, host, error),
{
    if host < config.host.len() && host + 1 < config.host.len() {
        begin(config, host + 1)
    } else {
        Progress::Failed { error }
    }
}

/// Begins to connect: refuses a configuration without hosts, or with more
/// than one port but not one for each host, and otherwise asks for the first
/// host's connector. No action has been asked for when it refuses.
pub fn connect<E>(config: &Config) -> (progress: Progress<E>)
    ensures
        progress@ == connect_spec::<E>(*config),
        config.host.len() == 0 ==> progress@ == refused::<E>(ConfigError::HostMissing),
        config.port.len() > 1 && config.port.len() != config.host.len() ==> is_refused(
            progress@,
        ),
{
    match config.validate() {
        Err(error) => Progress::Failed { error: ConnectError::Config(error) },
        Ok(_) => begin(config, 0),
    }
}

/// Takes the report of the action that was asked for in `state`, and says
/// how the attempt to connect goes on.
pub fn step<E>(config: &Config, state: State, event: Event<E>) -> (progress: Progress<E>)
    ensures
        progress@ == step_spec(*config, state, event),
        (state.stage == Stage::Session && event is Row && is_read_only(event->Row_0))
            ==> progress@ == give_up(*config, state.host, ConnectError::<E>::PermissionDenied),
        (state.stage == Stage::Session && event is Row && !is_read_only(event->Row_0))
            ==> progress@ == accepted::<E>(state.host),
{
    match connect_once(config, state, event) {
        Verdict::Continue { state: next, action } => Progress::Pending { state: next, action },
        Verdict::Accepted => Progress::Connected { host: state.host },
        Verdict::Rejected(error) => next_host(config, state.host, error),
    }
}

} // verus!
