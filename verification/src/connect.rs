//! The establishment pipeline: strategy selection, handshake, EHLO,
//! optional STARTTLS upgrade with mandatory re-EHLO, authentication, and
//! cleanup on a rejected authentication.

use vstd::prelude::*;

use crate::commands::{starttls_capability_bytes, Ehlo, StartTls};
use crate::common::{ClientIdentity, DefaultTlsSetup, Domain, SetupTls, TlsConfig};
use crate::connection::{Cmd, Connection};
use crate::response::{ConnectingFailed, LogicError, ScriptItem, TransportError};
use crate::steps::{
    establish_outcome, exchange, plain_handshake, read_step, starttls_establish, SecurityModel,
    StepOut,
};
use crate::transport::{events_of, fresh_transport, Transport, TransportModel};

verus! {

/// What kind of transport security is negotiated.
pub enum Security<S: SetupTls> {
    /// A plain, unencrypted connection.  Strongly discouraged wherever
    /// credentials or private data travel; kept only so that callers can
    /// opt into legacy peers deliberately.
    Insecure,
    /// TLS is negotiated before any SMTP exchange.
    DirectTls(TlsConfig<S>),
    /// A full plaintext handshake and EHLO first, then an in-place upgrade
    /// through the STARTTLS command.
    StartTls(TlsConfig<S>),
}

/// What the model observes of a strategy choice.
pub open spec fn security_model<S: SetupTls>(s: Security<S>) -> SecurityModel {
    match s {
        Security::Insecure => SecurityModel::Insecure,
        Security::DirectTls(tc) => SecurityModel::Direct(tc.setup.succeeds()),
        Security::StartTls(tc) => SecurityModel::Upgrade(tc.setup.succeeds()),
    }
}

/// Immutable input to the pipeline: where to connect, how to secure the
/// transport, whom to announce, and how to authenticate.
pub struct ConnectionConfig<A: Cmd, S: SetupTls> {
    /// The address of the server, as the transport collaborator takes it.
    pub addr: Vec<u8>,
    /// The command sent for authentication ([`crate::commands::Noop`]
    /// when no authentication is desired).
    pub auth_cmd: A,
    /// The security strategy.
    pub security: Security<S>,
    /// The client identity announced in every EHLO.
    pub client_id: ClientIdentity,
}

impl<A: Cmd> ConnectionConfig<A, DefaultTlsSetup> {
    /// A configuration that negotiates TLS directly, with the default TLS
    /// setup; `domain` is the domain expected in the server certificate.
    pub fn with_direct_tls(
        addr: Vec<u8>,
        domain: Domain,
        clid: ClientIdentity,
        auth_cmd: A,
    ) -> (r: Self)
        ensures
            r.addr@ == addr@,
            r.auth_cmd == auth_cmd,
            r.client_id == clid,
            security_model(r.security) == SecurityModel::Direct(true),
            r.security matches Security::DirectTls(tc) && tc.domain@ == domain@,
    {
        ConnectionConfig {
            addr,
            auth_cmd,
            security: Security::DirectTls(TlsConfig { domain, setup: DefaultTlsSetup }),
            client_id: clid,
        }
    }

    /// A configuration that upgrades through STARTTLS, with the default
    /// TLS setup; `domain` is the domain expected in the server
    /// certificate.
    pub fn with_starttls(
        addr: Vec<u8>,
        domain: Domain,
        clid: ClientIdentity,
        auth_cmd: A,
    ) -> (r: Self)
        ensures
            r.addr@ == addr@,
            r.auth_cmd == auth_cmd,
            r.client_id == clid,
            security_model(r.security) == SecurityModel::Upgrade(true),
            r.security matches Security::StartTls(tc) && tc.domain@ == domain@,
    {
        ConnectionConfig {
            addr,
            auth_cmd,
            security: Security::StartTls(TlsConfig { domain, setup: DefaultTlsSetup }),
            client_id: clid,
        }
    }
}

/// How an establishment step's outcome is classified for the caller:
/// a lost transport is `Io`, a rejection is `Setup` with the server's
/// detail, and a positive outcome hands over the connection unchanged.
pub open spec fn establish_classified(out: StepOut, r: Result<Connection, ConnectingFailed>) -> bool {
    match out {
        StepOut::Dead => r matches Err(ConnectingFailed::Io(_)),
        StepOut::Rejected(_, e) => match r {
            Err(ConnectingFailed::Setup(le)) => le@ == e,
            _ => false,
        },
        StepOut::Advanced(m, _) => match r {
            Ok(c) => c@ == m,
            _ => false,
        },
    }
}

/// How the authentication stage is classified: a lost transport is `Io`,
/// a rejection is `Auth`, and a positive reply yields the connection with
/// the authentication command's effect.
pub open spec fn auth_classified<A: Cmd>(
    auth: A,
    m: TransportModel,
    r: Result<Connection, ConnectingFailed>,
) -> bool {
    match exchange(m, auth.wire()) {
        StepOut::Dead => r matches Err(ConnectingFailed::Io(_)),
        StepOut::Rejected(_, e) => match r {
            Err(ConnectingFailed::Auth(le)) => le@ == e,
            _ => false,
        },
        StepOut::Advanced(m2, resp) => if auth.aborts_after(resp) {
            r matches Err(ConnectingFailed::Io(_))
        } else {
            match r {
                Ok(c) => c@ == auth.apply_positive(m2, resp),
                _ => false,
            }
        },
    }
}

/// The whole entry point's contract: establishment classified as `Io` or
/// `Setup`, then the authentication stage on the established transport.
pub open spec fn connect_classified<A: Cmd>(
    out: StepOut,
    auth: A,
    r: Result<Connection, ConnectingFailed>,
) -> bool {
    match out {
        StepOut::Dead => r matches Err(ConnectingFailed::Io(_)),
        StepOut::Rejected(_, e) => match r {
            Err(ConnectingFailed::Setup(le)) => le@ == e,
            _ => false,
        },
        StepOut::Advanced(m, _) => auth_classified(auth, m, r),
    }
}

impl Connection {
    /// Opens a plaintext transport and reads the greeting; no EHLO is
    /// sent, so the connection comes back without a ledger.
    pub fn connect_insecure_no_ehlo(addr: &[u8], script: Vec<ScriptItem>) -> (r: Result<
        Connection,
        ConnectingFailed,
    >)
        ensures
            establish_classified(read_step(fresh_transport(events_of(script@), false)), r),
    {
        let ghost evs = events_of(script@);
        let mut t = Transport::connect_insecure(addr, script);
        match t.recv_smtp() {
            Err(_) => Err(ConnectingFailed::Io(TransportError)),
            Ok(Err(le)) => Err(ConnectingFailed::Setup(le)),
            Ok(Ok(_resp)) => {
                let c = Connection::from(t);
                proof {
                    match read_step(fresh_transport(evs, false)) {
                        StepOut::Advanced(m, _) => {
                            assert(c@ =~~= m);
                        },
                        _ => {},
                    }
                }
                Ok(c)
            },
        }
    }

    /// Opens the transport and negotiates TLS before any SMTP exchange,
    /// then reads the greeting; no EHLO is sent.
    pub fn connect_direct_tls_no_ehlo<S: SetupTls>(
        addr: &[u8],
        config: TlsConfig<S>,
        script: Vec<ScriptItem>,
    ) -> (r: Result<Connection, ConnectingFailed>)
        ensures
            config.setup.succeeds() ==> establish_classified(
                read_step(fresh_transport(events_of(script@), true)),
                r,
            ),
            !config.setup.succeeds() ==> r matches Err(ConnectingFailed::Io(_)),
    {
        let ghost evs = events_of(script@);
        let t = Transport::connect_insecure(addr, script);
        let TlsConfig { domain, setup } = config;
        match setup.establish(t, &domain) {
            Err(_) => Err(ConnectingFailed::Io(TransportError)),
            Ok(mut t2) => {
                proof {
                    assert(t2@ =~~= fresh_transport(evs, true));
                }
                match t2.recv_smtp() {
                    Err(_) => Err(ConnectingFailed::Io(TransportError)),
                    Ok(Err(le)) => Err(ConnectingFailed::Setup(le)),
                    Ok(Ok(_resp)) => {
                        let c = Connection::from(t2);
                        proof {
                            match read_step(fresh_transport(evs, true)) {
                                StepOut::Advanced(m, _) => {
                                    assert(c@ =~~= m);
                                },
                                _ => {},
                            }
                        }
                        Ok(c)
                    },
                }
            },
        }
    }

    /// Plaintext handshake with EHLO: greeting, then the EHLO exchange
    /// that populates the ledger.
    pub fn connect_insecure(addr: &[u8], clid: ClientIdentity, script: Vec<ScriptItem>) -> (r:
        Result<Connection, ConnectingFailed>)
        ensures
            establish_classified(
                plain_handshake(fresh_transport(events_of(script@), false), clid@),
                r,
            ),
    {
        match Self::connect_insecure_no_ehlo(addr, script) {
            Err(e) => Err(e),
            Ok(con) => match con.send(Ehlo { identity: clid }) {
                Err(_) => Err(ConnectingFailed::Io(TransportError)),
                Ok((c2, Ok(_resp))) => Ok(c2),
                Ok((_c2, Err(le))) => Err(ConnectingFailed::Setup(le)),
            },
        }
    }

    /// Direct-TLS handshake with EHLO.
    pub fn connect_direct_tls<S: SetupTls>(
        addr: &[u8],
        clid: ClientIdentity,
        config: TlsConfig<S>,
        script: Vec<ScriptItem>,
    ) -> (r: Result<Connection, ConnectingFailed>)
        ensures
            config.setup.succeeds() ==> establish_classified(
                plain_handshake(fresh_transport(events_of(script@), true), clid@),
                r,
            ),
            !config.setup.succeeds() ==> r matches Err(ConnectingFailed::Io(_)),
    {
        match Self::connect_direct_tls_no_ehlo(addr, config, script) {
            Err(e) => Err(e),
            Ok(con) => match con.send(Ehlo { identity: clid }) {
                Err(_) => Err(ConnectingFailed::Io(TransportError)),
                Ok((c2, Ok(_resp))) => Ok(c2),
                Ok((_c2, Err(le))) => Err(ConnectingFailed::Setup(le)),
            },
        }
    }

    /// The STARTTLS composite: full plaintext handshake and EHLO, then —
    /// only if the pre-upgrade ledger advertises STARTTLS — the upgrade
    /// and the mandatory EHLO re-negotiation on the encrypted transport.
    ///
    /// Policy: when the server never advertised STARTTLS the pipeline
    /// fails fast with `Setup(MissingStartTls)` instead of attempting the
    /// upgrade and surfacing the server's rejection.
    pub fn connect_starttls<S: SetupTls>(
        addr: &[u8],
        clid: ClientIdentity,
        config: TlsConfig<S>,
        script: Vec<ScriptItem>,
    ) -> (r: Result<Connection, ConnectingFailed>)
        ensures
            establish_classified(
                starttls_establish(events_of(script@), clid@, config.setup.succeeds()),
                r,
            ),
    {
        let clid2 = clid.duplicate();
        let TlsConfig { domain, setup } = config;
        match Self::connect_insecure(addr, clid, script) {
            Err(e) => Err(e),
            Ok(con) => {
                let cap = starttls_capability_bytes();
                if !con.has_capability(cap.as_slice()) {
                    Err(ConnectingFailed::Setup(LogicError::MissingStartTls))
                } else {
                    match con.send(StartTls { setup_tls: setup, sni_domain: domain }) {
                        Err(_) => Err(ConnectingFailed::Io(TransportError)),
                        Ok((_con, Err(le))) => Err(ConnectingFailed::Setup(le)),
                        Ok((c2, Ok(_resp))) => match c2.send(Ehlo { identity: clid2 }) {
                            Err(_) => Err(ConnectingFailed::Io(TransportError)),
                            Ok((_c3, Err(le))) => Err(ConnectingFailed::Setup(le)),
                            Ok((c3, Ok(_r2))) => Ok(c3),
                        },
                    }
                }
            },
        }
    }

    /// The single entry point: establishes according to the configured
    /// security strategy, then sends the configured authentication
    /// command.  A rejected authentication triggers cleanup — QUIT is
    /// sent and the transport shut down — before the `Auth` error is
    /// surfaced; an error never leaves an open transport behind.
    pub fn connect<A: Cmd, S: SetupTls>(
        config: ConnectionConfig<A, S>,
        script: Vec<ScriptItem>,
    ) -> (r: Result<Connection, ConnectingFailed>)
        requires
            config.auth_cmd.valid(),
        ensures
            connect_classified(
                establish_outcome(
                    security_model(config.security),
                    events_of(script@),
                    config.client_id@,
                ),
                config.auth_cmd,
                r,
            ),
    {
        let ConnectionConfig { addr, auth_cmd, security, client_id } = config;
        let est = match security {
            Security::Insecure => Self::connect_insecure(addr.as_slice(), client_id, script),
            Security::DirectTls(tc) => Self::connect_direct_tls(
                addr.as_slice(),
                client_id,
                tc,
                script,
            ),
            Security::StartTls(tc) => Self::connect_starttls(
                addr.as_slice(),
                client_id,
                tc,
                script,
            ),
        };
        match est {
            Err(e) => Err(e),
            Ok(con) => match con.send(auth_cmd) {
                Err(_) => Err(ConnectingFailed::Io(TransportError)),
                Ok((c2, Ok(_resp))) => Ok(c2),
                Ok((c2, Err(le))) => {
                    let _ = c2.quit();
                    Err(ConnectingFailed::Auth(le))
                },
            },
        }
    }
}

} // verus!
