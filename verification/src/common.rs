//! Shared configuration values: client identity, target domain, and the
//! pluggable TLS-setup strategy.

use vstd::prelude::*;

use crate::transport::{Transport, TransportModel};
use crate::response::TransportError;

verus! {

/// The identity the client announces in EHLO.  It must be supplied
/// identically before and after a STARTTLS upgrade, since the post-upgrade
/// EHLO is a fully independent exchange.
pub struct ClientIdentity {
    pub name: Vec<u8>,
}

impl View for ClientIdentity {
    type V = Seq<u8>;

    open spec fn view(&self) -> Seq<u8> {
        self.name@
    }
}

impl ClientIdentity {
    /// A second copy, for the EHLO that follows a STARTTLS upgrade.
    pub fn duplicate(&self) -> (r: ClientIdentity)
        ensures
            r@ == self@,
    {
        let mut name: Vec<u8> = Vec::new();
        let mut i: usize = 0;
        while i < self.name.len()
            invariant
                i <= self.name.len(),
                name@ =~= self.name@.take(i as int),
            decreases self.name.len() - i,
        {
            name.push(self.name[i]);
            i = i + 1;
        }
        proof {
            assert(name@ =~= self.name@);
        }
        ClientIdentity { name }
    }
}

/// The domain expected in the server certificate during TLS negotiation.
pub struct Domain {
    pub name: Vec<u8>,
}

impl View for Domain {
    type V = Seq<u8>;

    open spec fn view(&self) -> Seq<u8> {
        self.name@
    }
}

/// The strategy that performs a TLS handshake over an open transport.
/// The handshake mechanics live outside this core; an implementation only
/// promises what the upgraded handle looks like when it succeeds.
pub trait SetupTls: Sized + 'static {
    /// Whether this strategy's handshake comes out successful.
    spec fn succeeds(&self) -> bool;

    /// Negotiates TLS over `t` for `domain`.  On success the same exchange
    /// continues on the now-encrypted transport.
    fn establish(&self, t: Transport, domain: &Domain) -> (r: Result<Transport, TransportError>)
        ensures
            r is Ok <==> self.succeeds(),
            r matches Ok(t2) ==> t2@ == (TransportModel { secure: true, ..t@ }),
    ;
}

/// The default TLS setup: it accepts the transport as it stands and marks
/// it encrypted; the cipher work itself is the transport collaborator's.
pub struct DefaultTlsSetup;

impl SetupTls for DefaultTlsSetup {
    open spec fn succeeds(&self) -> bool {
        true
    }

    fn establish(&self, t: Transport, _domain: &Domain) -> (r: Result<Transport, TransportError>)
    {
        let mut t2 = t;
        t2.secure = true;
        proof {
            assert(t2@ =~~= (TransportModel { secure: true, ..t@ }));
        }
        Ok(t2)
    }
}

/// Per-strategy TLS configuration: the certificate domain and the setup
/// strategy that performs the handshake.
pub struct TlsConfig<S: SetupTls> {
    pub domain: Domain,
    pub setup: S,
}

} // verus!
