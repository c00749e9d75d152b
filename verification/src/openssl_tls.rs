//! Transport security backed by OpenSSL: a factory that configures one TLS
//! session for each host, and the connector that holds the session until a
//! stream is handed to it.

use vstd::prelude::*;
use std::sync::Arc;
use openssl::error::ErrorStack;
use openssl::ssl::{ConnectConfiguration, SslConnector};
use crate::tls::MakeTlsConnect;

verus! {

#[verifier::external_type_specification]
#[verifier::external_body]
pub struct ExSslConnector(openssl::ssl::SslConnector);

#[verifier::external_type_specification]
#[verifier::external_body]
pub struct ExConnectConfiguration(openssl::ssl::ConnectConfiguration);

#[verifier::external_type_specification]
#[verifier::external_body]
pub struct ExErrorStack(openssl::error::ErrorStack);

/// `SslConnector::clone` hands back a connector over the same context.
/// Nothing is claimed of it.
pub assume_specification[ <SslConnector as Clone>::clone ](connector: &SslConnector) -> SslConnector;

/// Whether `f` may be called with every session and every name.
pub open spec fn callable<F>(f: F) -> bool where
    F: Fn(&mut ConnectConfiguration, &str) -> Result<(), ErrorStack>,
{
    forall|ssl: &mut ConnectConfiguration, domain: &str| call_requires(f, (ssl, domain))
}

/// Whether calling `f` with `ssl` and `domain` may return `result`, as far
/// as the contract of `f` says. The reference `ssl` stands for the session
/// as it is handed over and as `f` leaves it.
pub open spec fn may_return<F>(
    f: F,
    ssl: &mut ConnectConfiguration,
    domain: &str,
    result: Result<(), ErrorStack>,
) -> bool where F: Fn(&mut ConnectConfiguration, &str) -> Result<(), ErrorStack> {
    call_ensures(f, (ssl, domain), result)
}

/// What is done to the configuration of each session before it is used.
trait SessionCallback: Sync + Send {
    /// Whether the callback may be called with every session and name.
    spec fn ready(&self) -> bool;

    /// Whether the callback, handed `ssl` and `domain`, may return `result`.
    spec fn applied(
        &self,
        ssl: &mut ConnectConfiguration,
        domain: &str,
        result: Result<(), ErrorStack>,
    ) -> bool;

    fn apply(&self, ssl: &mut ConnectConfiguration, domain: &str) -> (r: Result<(), ErrorStack>)
        requires
            self.ready(),
        ensures
            exists|session: &mut ConnectConfiguration|
                *session == *old(ssl) && *final(session) == *final(ssl) && #[trigger] self.applied(
                    session,
                    domain,
                    r,
                ),
    ;
}

impl<F> SessionCallback for F where
    F: Fn(&mut ConnectConfiguration, &str) -> Result<(), ErrorStack> + Sync + Send,
{
    spec fn ready(&self) -> bool {
        callable(*self)
    }

    spec fn applied(
        &self,
        ssl: &mut ConnectConfiguration,
        domain: &str,
        result: Result<(), ErrorStack>,
    ) -> bool {
        may_return(*self, ssl, domain, result)
    }

    /// Hands the session and the name to the callback, and returns what the
    /// callback returns.
    fn apply(&self, ssl: &mut ConnectConfiguration, domain: &str) -> (r: Result<(), ErrorStack>) {
        let r = self(ssl, domain);
        proof {
            let session = choose|session: &mut ConnectConfiguration|
                *session == *old(ssl) && *final(session) == *final(ssl) && #[trigger] call_ensures(
                    *self,
                    (session, domain),
                    r,
                );
            assert(self.applied(session, domain, r));
        }
        r
    }
}

/// The callback of a factory that was given none: it leaves the session as
/// it is, and never fails.
fn leave_alone(ssl: &mut ConnectConfiguration, domain: &str) -> (r: Result<(), ErrorStack>)
    ensures
        r is Ok,
        *final(ssl) == *old(ssl),
{
    Ok(())
}

/// A factory of [`TlsConnector`]s.
pub struct MakeTlsConnector {
    connector: SslConnector,
    config: Arc<Box<dyn SessionCallback>>,
}

/// A TLS session configured for one host, not yet connected. Handing it a
/// stream uses it up.
pub struct TlsConnector {
    ssl: ConnectConfiguration,
    domain: String,
}

/// Calls `Arc::clone`, which gives another pointer to the same callback.
#[verifier::external_body]
fn share(callback: &Arc<Box<dyn SessionCallback>>) -> (shared: Arc<Box<dyn SessionCallback>>)
    ensures
        shared == *callback,
{
    callback.clone()
}

/// Calls `SslConnector::configure`, which makes a new session from the
/// connector's context, or fails with OpenSSL's error.
#[verifier::external_body]
fn configure(connector: &SslConnector) -> Result<ConnectConfiguration, ErrorStack> {
    connector.configure()
}

impl MakeTlsConnector {
    /// The callback of a factory may be called with every session and name.
    #[verifier::type_invariant]
    spec fn callback_is_callable(self) -> bool {
        self.config.ready()
    }

    /// The connector that sessions are made from.
    pub closed spec fn connector(self) -> SslConnector {
        self.connector
    }

    /// Whether the factory's callback, handed `ssl` and `domain`, may return
    /// `result`. The reference `ssl` stands for the session as the callback
    /// is handed it and as the callback leaves it.
    pub closed spec fn configures(
        self,
        ssl: &mut ConnectConfiguration,
        domain: &str,
        result: Result<(), ErrorStack>,
    ) -> bool {
        self.config.applied(ssl, domain, result)
    }

    /// Creates a factory that makes its sessions from `connector` and applies
    /// `f` to each.
    fn with_callback<F>(connector: SslConnector, f: F) -> (factory: MakeTlsConnector) where
        F: Fn(&mut ConnectConfiguration, &str) -> Result<(), ErrorStack> + 'static + Sync + Send,
        requires
            callable(f),
        ensures
            factory.connector() == connector,
            forall|ssl: &mut ConnectConfiguration, domain: &str, result: Result<(), ErrorStack>|
                #[trigger] factory.configures(ssl, domain, result) <==> may_return(
                    f,
                    ssl,
                    domain,
                    result,
                ),
    {
        MakeTlsConnector { connector, config: Arc::new(Box::new(f)) }
    }

    /// Creates a factory that makes its sessions from `connector` and leaves
    /// them as `connector` configures them: whatever its callback is handed,
    /// it returns `Ok` and leaves the session as it was.
    pub fn new(connector: SslConnector) -> (factory: MakeTlsConnector)
        ensures
            factory.connector() == connector,
            forall|ssl: &mut ConnectConfiguration, domain: &str, result: Result<(), ErrorStack>|
                #[trigger] factory.configures(ssl, domain, result) ==> (result is Ok && *final(ssl)
                    == *ssl),
    {
        MakeTlsConnector::with_callback(connector, leave_alone)
    }

    /// Sets the callback that is applied to each session, with the name of
    /// the host that the session is for, before the session is handed out.
    /// From then on the factory's callback is `f`, and the one before it is
    /// gone. The factory calls `f` with whatever session it makes and
    /// whatever name it is asked for, so `f` must accept them all.
    pub fn set_callback<F>(&mut self, f: F) where
        F: Fn(&mut ConnectConfiguration, &str) -> Result<(), ErrorStack> + 'static + Sync + Send,
        requires
            callable(f),
        ensures
            final(self).connector() == old(self).connector(),
            forall|ssl: &mut ConnectConfiguration, domain: &str, result: Result<(), ErrorStack>|
                #[trigger] final(self).configures(ssl, domain, result) <==> may_return(
                    f,
                    ssl,
                    domain,
                    result,
                ),
    {
        self.config = Arc::new(Box::new(f));
    }
}

impl Clone for MakeTlsConnector {
    /// A factory over a clone of the connector, with the same callback.
    fn clone(&self) -> (copy: MakeTlsConnector)
        ensures
            forall|ssl: &mut ConnectConfiguration, domain: &str, result: Result<(), ErrorStack>|
                #[trigger] copy.configures(ssl, domain, result) <==> self.configures(
                    ssl,
                    domain,
                    result,
                ),
    {
        proof {
            use_type_invariant(self);
        }
        MakeTlsConnector { connector: self.connector.clone(), config: share(&self.config) }
    }
}

impl MakeTlsConnect for MakeTlsConnector {
    type TlsConnect = TlsConnector;

    type Error = ErrorStack;

    /// Makes a session from the connector, applies the callback to it with
    /// `domain`, and binds it to `domain`. Fails with OpenSSL's error where
    /// the session cannot be made, and with the callback's where that fails.
    /// A connector that is handed out holds a session as the callback left
    /// it when it returned `Ok` for `domain`.
    fn make_tls_connect(&mut self, domain: &str) -> (r: Result<TlsConnector, ErrorStack>)
        ensures
            *final(self) == *old(self),
            r matches Ok(bound) ==> bound.domain() == domain@,
            r matches Ok(bound) ==> (exists|ssl: &mut ConnectConfiguration|
                #[trigger] old(self).configures(ssl, domain, Ok(())) && *final(ssl) == bound.ssl()),
    {
        let mut ssl = configure(&self.connector)?;
        proof {
            use_type_invariant(&*self);
        }
        let applied = self.config.apply(&mut ssl, domain);
        proof {
            let session = choose|session: &mut ConnectConfiguration|
                *final(session) == ssl && #[trigger] self.config.applied(session, domain, applied);
            assert(self.configures(session, domain, applied));
            assert(applied is Ok ==> applied->Ok_0 == ());
        }
        TlsConnector::bind(ssl, applied, domain)
    }
}

impl TlsConnector {
    /// The name of the host that the session is bound to.
    pub closed spec fn domain(self) -> Seq<char> {
        self.domain@
    }

    /// The session.
    pub closed spec fn ssl(self) -> ConnectConfiguration {
        self.ssl
    }

    /// Creates a connector that will connect the session `ssl` to `domain`.
    pub fn new(ssl: ConnectConfiguration, domain: &str) -> (bound: TlsConnector)
        ensures
            bound.ssl() == ssl,
            bound.domain() == domain@,
    {
        TlsConnector { ssl, domain: domain.to_owned() }
    }

    /// Makes of a session what the callback's outcome on it calls for: the
    /// connector that will connect `ssl` to `domain` where the callback
    /// returned `Ok`, and the callback's error where it failed.
    pub fn bind(ssl: ConnectConfiguration, applied: Result<(), ErrorStack>, domain: &str) -> (r:
        Result<TlsConnector, ErrorStack>)
        ensures
            applied is Ok ==> (r matches Ok(bound) && bound.ssl() == ssl && bound.domain()
                == domain@),
            applied matches Err(error) ==> r == Err::<TlsConnector, ErrorStack>(error),
    {
        match applied {
            Ok(_) => Ok(TlsConnector::new(ssl, domain)),
            Err(error) => Err(error),
        }
    }

    /// Gives up the connector for its session and the name it is bound to:
    /// what the handshake over a stream is started with.
    pub fn into_parts(self) -> (parts: (ConnectConfiguration, String))
        ensures
            parts.0 == self.ssl(),
            parts.1@ == self.domain(),
    {
        (self.ssl, self.domain)
    }
}

} // verus!
