//! The connection: exclusive owner of one transport handle.
//!
//! Ownership is linear.  Every operation consumes the connection and either
//! hands back a new one (same or upgraded transport) or destroys it
//! (shutdown), so there is never more than one live handle per transport.

use vstd::prelude::*;
use vstd::pervasive::unreached;

use crate::commands::{quit_wire, Quit};
use crate::ehlo::EhloData;
use crate::response::{ResponseModel, SmtpResult, TransportError};
use crate::steps::{exchange, StepOut};
use crate::transport::{
    buffer_bytes, buffer_put, buffer_with_capacity, crlf_vec, spec_has_capability, Transport,
    TransportModel,
};

verus! {

/// What executing one command yields: the surviving connection and the
/// classified reply, or the loss of the transport.
pub type CmdOutcome = Result<(Connection, SmtpResult), TransportError>;

/// Exclusive owner of one transport handle.
pub struct Connection {
    pub io: Transport,
}

impl View for Connection {
    type V = TransportModel;

    open spec fn view(&self) -> TransportModel {
        self.io@
    }
}

/// The uniform contract of one command execution: the command line goes
/// out, one reply comes back, and the command's effect applies exactly on
/// a positive reply.
pub open spec fn cmd_post<C: Cmd>(cmd: C, pre: TransportModel, r: CmdOutcome) -> bool {
    match exchange(pre, cmd.wire()) {
        StepOut::Dead => r is Err,
        StepOut::Rejected(m, e) => match r {
            Ok((c2, res)) => c2@ == m && (match res {
                Err(le) => le@ == e,
                Ok(_) => false,
            }),
            Err(_) => false,
        },
        StepOut::Advanced(m, resp) => if cmd.aborts_after(resp) {
            r is Err
        } else {
            match r {
                Ok((c2, res)) => c2@ == cmd.apply_positive(m, resp) && (match res {
                    Ok(rr) => rr@ == resp,
                    Err(_) => false,
                }),
                Err(_) => false,
            }
        },
    }
}

/// The command contract: a command consumes a connection by value and
/// yields the surviving connection together with the classified reply.
pub trait Cmd: Sized + 'static {
    /// Whether the command may still be executed (a type-erased slot whose
    /// command was consumed no longer may).
    spec fn valid(&self) -> bool;

    /// The command line placed on the wire, without the terminator.
    spec fn wire(&self) -> Seq<u8>;

    /// Whether the command itself fails after the positive reply `resp`
    /// even though the transport survived (a failing TLS setup does).
    spec fn aborts_after(&self, resp: ResponseModel) -> bool;

    /// The transport after a positive reply, with the command's effect.
    spec fn apply_positive(&self, m: TransportModel, resp: ResponseModel) -> TransportModel;

    /// Type-erases the command into a single-use slot behind the uniform
    /// interface.  The slot's exactly-once behaviour is the contract of
    /// [`TypeErasableCmd::_only_once_exec`].
    fn boxed(self) -> BoxedCmd {
        Box::new(Some(self))
    }

    /// Executes the command on `con`.
    fn exec(self, con: Connection) -> (r: CmdOutcome)
        requires
            self.valid(),
        ensures
            match exchange(con@, self.wire()) {
                StepOut::Dead => r is Err,
                StepOut::Rejected(m, e) => match r {
                    Ok((c2, res)) => c2@ == m && (match res {
                        Err(le) => le@ == e,
                        Ok(_) => false,
                    }),
                    Err(_) => false,
                },
                StepOut::Advanced(m, resp) => if self.aborts_after(resp) {
                    r is Err
                } else {
                    match r {
                        Ok((c2, res)) => c2@ == self.apply_positive(m, resp) && (match res {
                            Ok(rr) => rr@ == resp,
                            Err(_) => false,
                        }),
                        Err(_) => false,
                    }
                },
            },
    ;
}

/// The narrower contract for one-line commands that only serialize raw
/// bytes; the connection writes the terminator and reads the reply.
pub trait SimpleCmd: Sized {
    /// The command line, without the terminator.
    spec fn text(&self) -> Seq<u8>;

    /// Writes the command line into the outbound buffer.
    fn write_cmd(&self, buf: &mut bytes::BytesMut)
        ensures
            buffer_bytes(*final(buf)) == buffer_bytes(*old(buf)) + self.text(),
    ;
}

/// The object-safe face of a single-use command: a clearable slot whose
/// invocation consumes the stored command.  Invoking a consumed slot is a
/// usage fault, excluded here by precondition and answered at run time
/// with an abort, never with an error value.
pub trait TypeErasableCmd {
    /// Whether the slot still holds its command.
    spec fn armed(&self) -> bool;

    /// The stored command's line.
    spec fn erased_wire(&self) -> Seq<u8>;

    /// Whether the stored command fails after the positive reply `resp`.
    spec fn erased_aborts_after(&self, resp: ResponseModel) -> bool;

    /// The stored command's effect on a positive reply.
    spec fn erased_apply_positive(&self, m: TransportModel, resp: ResponseModel) -> TransportModel;

    /// Extracts and clears the slot, then executes the command.
    fn _only_once_exec(&mut self, con: Connection) -> (r: CmdOutcome)
        requires
            old(self).armed(),
        ensures
            !final(self).armed(),
            match exchange(con@, old(self).erased_wire()) {
                StepOut::Dead => r is Err,
                StepOut::Rejected(m, e) => match r {
                    Ok((c2, res)) => c2@ == m && (match res {
                        Err(le) => le@ == e,
                        Ok(_) => false,
                    }),
                    Err(_) => false,
                },
                StepOut::Advanced(m, resp) => if old(self).erased_aborts_after(resp) {
                    r is Err
                } else {
                    match r {
                        Ok((c2, res)) => c2@ == old(self).erased_apply_positive(m, resp) && (
                        match res {
                            Ok(rr) => rr@ == resp,
                            Err(_) => false,
                        }),
                        Err(_) => false,
                    }
                },
            },
    ;
}

impl<C: Cmd> TypeErasableCmd for Option<C> {
    open spec fn armed(&self) -> bool {
        match self {
            Some(c) => c.valid(),
            None => false,
        }
    }

    open spec fn erased_wire(&self) -> Seq<u8> {
        match self {
            Some(c) => c.wire(),
            None => Seq::empty(),
        }
    }

    open spec fn erased_aborts_after(&self, resp: ResponseModel) -> bool {
        match self {
            Some(c) => c.aborts_after(resp),
            None => false,
        }
    }

    open spec fn erased_apply_positive(
        &self,
        m: TransportModel,
        resp: ResponseModel,
    ) -> TransportModel {
        match self {
            Some(c) => c.apply_positive(m, resp),
            None => m,
        }
    }

    fn _only_once_exec(&mut self, con: Connection) -> (r: CmdOutcome) {
        let me = self.take();
        match me {
            Some(cmd) => cmd.exec(con),
            None => unreached(),
        }
    }
}

/// A single-use command behind one uniform interface, whatever its
/// concrete type.
pub type BoxedCmd = Box<dyn TypeErasableCmd>;

impl Cmd for Box<dyn TypeErasableCmd> {
    open spec fn valid(&self) -> bool {
        (**self).armed()
    }

    open spec fn wire(&self) -> Seq<u8> {
        (**self).erased_wire()
    }

    open spec fn aborts_after(&self, resp: ResponseModel) -> bool {
        (**self).erased_aborts_after(resp)
    }

    open spec fn apply_positive(&self, m: TransportModel, resp: ResponseModel) -> TransportModel {
        (**self).erased_apply_positive(m, resp)
    }

    fn exec(self, con: Connection) -> (r: CmdOutcome) {
        let mut me = self;
        me._only_once_exec(con)
    }
}

/// The outcome a `quit` call owes: whatever the reply was — negative,
/// garbled, anything — a surviving transport comes back shut down.
pub open spec fn quit_post(pre: TransportModel, r: Result<Transport, TransportError>) -> bool {
    match exchange(pre, quit_wire()) {
        StepOut::Dead => r is Err,
        StepOut::Rejected(m, _) => match r {
            Ok(t) => t@ == (TransportModel { shut_down: true, ..m }),
            Err(_) => false,
        },
        StepOut::Advanced(m, _) => match r {
            Ok(t) => t@ == (TransportModel { shut_down: true, ..m }),
            Err(_) => false,
        },
    }
}

impl Connection {
    /// Executes `cmd` on this connection; the returned connection replaces
    /// this one for every further operation.
    pub fn send<C: Cmd>(self, cmd: C) -> (r: CmdOutcome)
        requires
            cmd.valid(),
        ensures
            cmd_post(cmd, self@, r),
    {
        cmd.exec(self)
    }

    /// Narrower path for one-line commands: writes the command line and
    /// the terminator into the outbound buffer, flushes, and reads the
    /// next reply.  No command effect applies.
    pub fn send_simple_cmd<C: SimpleCmd>(self, cmd: C) -> (r: CmdOutcome)
        ensures
            match exchange(self@, cmd.text()) {
                StepOut::Dead => r is Err,
                StepOut::Rejected(m, e) => match r {
                    Ok((c2, res)) => c2@ == m && (match res {
                        Err(le) => le@ == e,
                        Ok(_) => false,
                    }),
                    Err(_) => false,
                },
                StepOut::Advanced(m, resp) => match r {
                    Ok((c2, res)) => c2@ == m && (match res {
                        Ok(rr) => rr@ == resp,
                        Err(_) => false,
                    }),
                    Err(_) => false,
                },
            },
    {
        let ghost pre = self@;
        let mut io = self.into_inner();
        let mut buf = buffer_with_capacity(1024);
        cmd.write_cmd(&mut buf);
        let terminator = crlf_vec();
        buffer_put(&mut buf, terminator.as_slice());
        proof {
            assert(buffer_bytes(buf) =~= cmd.text() + crate::transport::crlf());
        }
        io.flush_buffer(buf);
        proof {
            assert(io@ =~~= (TransportModel {
                sent: pre.sent + cmd.text() + crate::transport::crlf(),
                ..pre
            }));
        }
        match io.recv_smtp() {
            Err(e) => Err(e),
            Ok(res) => {
                let c2 = Connection::from(io);
                proof {
                    match exchange(pre, cmd.text()) {
                        StepOut::Rejected(m, _) => {
                            assert(c2@ =~~= m);
                        },
                        StepOut::Advanced(m, _) => {
                            assert(c2@ =~~= m);
                        },
                        StepOut::Dead => {},
                    }
                }
                Ok((c2, res))
            },
        }
    }

    /// True only if a ledger is present and contains `cap`; false when no
    /// EHLO has completed on the current transport generation.  No EHLO is
    /// triggered implicitly.
    pub fn has_capability(&self, cap: &[u8]) -> (r: bool)
        ensures
            r == spec_has_capability(self@, cap@),
    {
        self.io.has_capability(cap)
    }

    /// The current ledger, if an EHLO has completed.
    pub fn ehlo_data(&self) -> (r: Option<&EhloData>)
        ensures
            match r {
                Some(e) => self@.ehlo == Some(e@),
                None => self@.ehlo is None,
            },
    {
        self.io.ehlo_data()
    }

    /// Surrenders the transport handle.
    pub fn into_inner(self) -> (r: Transport)
        ensures
            r@ == self@,
    {
        let Connection { io } = self;
        io
    }

    /// Terminates the transport.
    pub fn shutdown(self) -> (r: Transport)
        ensures
            r@ == (TransportModel { shut_down: true, ..self@ }),
    {
        let mut io = self.into_inner();
        io.shut_down = true;
        proof {
            assert(io@ =~~= (TransportModel { shut_down: true, ..self@ }));
        }
        io
    }

    /// Sends QUIT and then shuts the transport down, whatever the QUIT
    /// reply was — a negative or unparseable answer must not skip the
    /// shutdown.
    pub fn quit(self) -> (r: Result<Transport, TransportError>)
        ensures
            quit_post(self@, r),
            r matches Ok(t) ==> t@.shut_down,
    {
        match self.send(Quit) {
            Err(e) => Err(e),
            Ok((con, _res)) => Ok(con.shutdown()),
        }
    }
}

impl From<Transport> for Connection {
    /// Wraps a transport handle into a fresh connection.
    fn from(io: Transport) -> (r: Self) {
        Connection { io }
    }
}

impl vstd::std_specs::convert::FromSpecImpl<Transport> for Connection {
    open spec fn obeys_from_spec() -> bool {
        true
    }

    open spec fn from_spec(io: Transport) -> Self {
        Connection { io }
    }
}

} // verus!
