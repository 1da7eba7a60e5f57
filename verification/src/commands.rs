//! The concrete protocol commands the establishment pipeline sends.
//!
//! Each implements the command contract; STARTTLS additionally owns the
//! in-place transport upgrade and the discarding of the stale ledger.

use vstd::prelude::*;

use crate::common::{ClientIdentity, Domain, SetupTls};
use crate::connection::{Cmd, CmdOutcome, Connection, SimpleCmd};
use crate::ehlo::{ehlo_model_of, EhloData};
use crate::response::ResponseModel;
use crate::transport::TransportModel;

verus! {

/// The bytes of `EHLO` followed by one space.
pub open spec fn ehlo_prefix() -> Seq<u8> {
    seq![69u8, 72u8, 76u8, 79u8, 32u8]  // "EHLO "
}

/// The EHLO command line for a client identity.
pub open spec fn ehlo_wire(id: Seq<u8>) -> Seq<u8> {
    ehlo_prefix() + id
}

/// The STARTTLS command line.
pub open spec fn starttls_wire() -> Seq<u8> {
    seq![83u8, 84u8, 65u8, 82u8, 84u8, 84u8, 76u8, 83u8] // "STARTTLS"
}

/// The capability keyword under which the server advertises STARTTLS.
pub open spec fn starttls_capability() -> Seq<u8> {
    seq![83u8, 84u8, 65u8, 82u8, 84u8, 84u8, 76u8, 83u8] // "STARTTLS"
}

/// The QUIT command line.
pub open spec fn quit_wire() -> Seq<u8> {
    seq![81u8, 85u8, 73u8, 84u8] // "QUIT"
}

/// The NOOP command line.
pub open spec fn noop_wire() -> Seq<u8> {
    seq![78u8, 79u8, 79u8, 80u8] // "NOOP"
}

/// Builds the EHLO command line for `id`.
pub fn ehlo_line(id: &ClientIdentity) -> (r: Vec<u8>)
    ensures
        r@ == ehlo_wire(id@),
{
    let mut v: Vec<u8> = Vec::new();
    v.push(69u8);
    v.push(72u8);
    v.push(76u8);
    v.push(79u8);
    v.push(32u8);
    proof {
        assert(v@ =~= ehlo_prefix());
    }
    let mut i: usize = 0;
    while i < id.name.len()
        invariant
            i <= id.name.len(),
            v@ =~= ehlo_prefix() + id@.take(i as int),
        decreases id.name.len() - i,
    {
        v.push(id.name[i]);
        proof {
            assert(v@ =~= ehlo_prefix() + id@.take(i as int + 1));
        }
        i = i + 1;
    }
    proof {
        assert(v@ =~= ehlo_wire(id@));
    }
    v
}

/// Builds the STARTTLS command line.
pub fn starttls_line() -> (r: Vec<u8>)
    ensures
        r@ == starttls_wire(),
{
    let mut v: Vec<u8> = Vec::new();
    v.push(83u8);
    v.push(84u8);
    v.push(65u8);
    v.push(82u8);
    v.push(84u8);
    v.push(84u8);
    v.push(76u8);
    v.push(83u8);
    proof {
        assert(v@ =~= starttls_wire());
    }
    v
}

/// Builds the STARTTLS capability keyword.
pub fn starttls_capability_bytes() -> (r: Vec<u8>)
    ensures
        r@ == starttls_capability(),
{
    starttls_line()
}

/// Builds the QUIT command line.
pub fn quit_line() -> (r: Vec<u8>)
    ensures
        r@ == quit_wire(),
{
    let mut v: Vec<u8> = Vec::new();
    v.push(81u8);
    v.push(85u8);
    v.push(73u8);
    v.push(84u8);
    proof {
        assert(v@ =~= quit_wire());
    }
    v
}

/// Builds the NOOP command line.
pub fn noop_line() -> (r: Vec<u8>)
    ensures
        r@ == noop_wire(),
{
    let mut v: Vec<u8> = Vec::new();
    v.push(78u8);
    v.push(79u8);
    v.push(79u8);
    v.push(80u8);
    proof {
        assert(v@ =~= noop_wire());
    }
    v
}

/// The EHLO command: announces the client identity and, on a positive
/// reply, replaces the ledger with what that reply advertised.
pub struct Ehlo {
    pub identity: ClientIdentity,
}

impl Cmd for Ehlo {
    open spec fn valid(&self) -> bool {
        true
    }

    open spec fn wire(&self) -> Seq<u8> {
        ehlo_wire(self.identity@)
    }

    open spec fn aborts_after(&self, resp: ResponseModel) -> bool {
        false
    }

    open spec fn apply_positive(&self, m: TransportModel, resp: ResponseModel) -> TransportModel {
        TransportModel { ehlo: Some(ehlo_model_of(resp)), ..m }
    }

    fn exec(self, con: Connection) -> (r: CmdOutcome) {
        let ghost pre = con@;
        let mut io = con.into_inner();
        let line = ehlo_line(&self.identity);
        io.send_line(&line);
        match io.recv_smtp() {
            Err(e) => Err(e),
            Ok(Err(le)) => {
                let c2 = Connection::from(io);
                proof {
                    match crate::steps::exchange(pre, self.wire()) {
                        crate::steps::StepOut::Rejected(m, _) => {
                            assert(c2@ =~~= m);
                        },
                        _ => {},
                    }
                }
                Ok((c2, Err(le)))
            },
            Ok(Ok(resp)) => {
                let data = EhloData::from_response(&resp);
                io.ehlo = Some(data);
                let c2 = Connection::from(io);
                proof {
                    match crate::steps::exchange(pre, self.wire()) {
                        crate::steps::StepOut::Advanced(m, h) => {
                            assert(c2@ =~~= self.apply_positive(m, h));
                        },
                        _ => {},
                    }
                }
                Ok((c2, Ok(resp)))
            },
        }
    }
}

/// The STARTTLS command: asks for the upgrade and, on a positive reply,
/// runs the configured TLS setup in place, discarding the stale ledger.
pub struct StartTls<S: SetupTls> {
    pub setup_tls: S,
    pub sni_domain: Domain,
}

impl<S: SetupTls> Cmd for StartTls<S> {
    open spec fn valid(&self) -> bool {
        true
    }

    open spec fn wire(&self) -> Seq<u8> {
        starttls_wire()
    }

    open spec fn aborts_after(&self, resp: ResponseModel) -> bool {
        !self.setup_tls.succeeds()
    }

    open spec fn apply_positive(&self, m: TransportModel, resp: ResponseModel) -> TransportModel {
        TransportModel { secure: true, ehlo: None, ..m }
    }

    fn exec(self, con: Connection) -> (r: CmdOutcome) {
        let ghost pre = con@;
        let mut io = con.into_inner();
        let line = starttls_line();
        io.send_line(&line);
        match io.recv_smtp() {
            Err(e) => Err(e),
            Ok(Err(le)) => {
                let c2 = Connection::from(io);
                proof {
                    match crate::steps::exchange(pre, self.wire()) {
                        crate::steps::StepOut::Rejected(m, _) => {
                            assert(c2@ =~~= m);
                        },
                        _ => {},
                    }
                }
                Ok((c2, Err(le)))
            },
            Ok(Ok(resp)) => {
                io.ehlo = None;
                match self.setup_tls.establish(io, &self.sni_domain) {
                    Err(e) => Err(e),
                    Ok(t2) => {
                        let c2 = Connection::from(t2);
                        proof {
                            match crate::steps::exchange(pre, self.wire()) {
                                crate::steps::StepOut::Advanced(m, h) => {
                                    assert(c2@ =~~= self.apply_positive(m, h));
                                },
                                _ => {},
                            }
                        }
                        Ok((c2, Ok(resp)))
                    },
                }
            },
        }
    }
}

/// The QUIT command.
pub struct Quit;

impl Cmd for Quit {
    open spec fn valid(&self) -> bool {
        true
    }

    open spec fn wire(&self) -> Seq<u8> {
        quit_wire()
    }

    open spec fn aborts_after(&self, resp: ResponseModel) -> bool {
        false
    }

    open spec fn apply_positive(&self, m: TransportModel, resp: ResponseModel) -> TransportModel {
        m
    }

    fn exec(self, con: Connection) -> (r: CmdOutcome) {
        con.send_simple_cmd(self)
    }
}

impl SimpleCmd for Quit {
    open spec fn text(&self) -> Seq<u8> {
        quit_wire()
    }

    fn write_cmd(&self, buf: &mut bytes::BytesMut) {
        let line = quit_line();
        crate::transport::buffer_put(buf, line.as_slice());
    }
}

/// The NOOP command: the no-op authentication command, for callers that do
/// not authenticate.
pub struct Noop;

impl Cmd for Noop {
    open spec fn valid(&self) -> bool {
        true
    }

    open spec fn wire(&self) -> Seq<u8> {
        noop_wire()
    }

    open spec fn aborts_after(&self, resp: ResponseModel) -> bool {
        false
    }

    open spec fn apply_positive(&self, m: TransportModel, resp: ResponseModel) -> TransportModel {
        m
    }

    fn exec(self, con: Connection) -> (r: CmdOutcome) {
        con.send_simple_cmd(self)
    }
}

impl SimpleCmd for Noop {
    open spec fn text(&self) -> Seq<u8> {
        noop_wire()
    }

    fn write_cmd(&self, buf: &mut bytes::BytesMut) {
        let line = noop_line();
        crate::transport::buffer_put(buf, line.as_slice());
    }
}

} // verus!
