//! The transport handle the core owns exclusively.
//!
//! Raw socket work (opening, TLS handshakes, reading and splitting reply
//! lines) belongs to collaborators outside this core.  The handle therefore
//! carries the exchange as data: the queue of events the peer will deliver,
//! the transcript of bytes flushed so far, and the state the pipeline
//! tracks (shut down, encrypted, capability ledger).  Outbound bytes are
//! staged in a `bytes::BytesMut`, the buffer type the wire collaborators
//! share.

use vstd::prelude::*;

use crate::ehlo::{EhloData, EhloModel};
use crate::response::{EventModel, LogicError, ScriptItem, SmtpResult, TransportError};

verus! {

#[verifier::external_type_specification]
#[verifier::external_body]
pub struct ExBytesMut(bytes::BytesMut);

/// The bytes currently staged in a `bytes::BytesMut` buffer.
pub uninterp spec fn buffer_bytes(b: bytes::BytesMut) -> Seq<u8>;

/// Relies on bytes::BytesMut::with_capacity: the new buffer has length
/// zero, whatever its capacity.
#[verifier::external_body]
pub fn buffer_with_capacity(capacity: usize) -> (r: bytes::BytesMut)
    ensures
        buffer_bytes(r) == Seq::<u8>::empty(),
{
    bytes::BytesMut::with_capacity(capacity)
}

/// Relies on bytes::BufMut::put_slice for BytesMut: it appends exactly the
/// given bytes to the buffer.
#[verifier::external_body]
pub fn buffer_put(buf: &mut bytes::BytesMut, data: &[u8])
    ensures
        buffer_bytes(*final(buf)) == buffer_bytes(*old(buf)) + data@,
{
    bytes::BufMut::put_slice(buf, data)
}

/// Relies on BytesMut's Deref to `[u8]` and slice::to_vec: the copy holds
/// exactly the buffered bytes.
#[verifier::external_body]
pub fn buffer_to_vec(buf: &bytes::BytesMut) -> (r: Vec<u8>)
    ensures
        r@ == buffer_bytes(*buf),
{
    buf.as_ref().to_vec()
}

/// The line terminator the core appends after every command line.
pub open spec fn crlf() -> Seq<u8> {
    seq![13u8, 10u8]
}

/// Builds the two terminator bytes.
pub fn crlf_vec() -> (r: Vec<u8>)
    ensures
        r@ == crlf(),
{
    let mut v: Vec<u8> = Vec::new();
    v.push(13);
    v.push(10);
    proof {
        assert(v@ =~= crlf());
    }
    v
}

/// Mathematical image of a [`Transport`].
#[verifier::ext_equal]
pub struct TransportModel {
    /// The events the peer still has in store, in delivery order.
    pub script: Seq<EventModel>,
    /// Every byte flushed towards the peer so far.
    pub sent: Seq<u8>,
    /// Whether the handle has been shut down.
    pub shut_down: bool,
    /// Whether the transport is encrypted.
    pub secure: bool,
    /// The capability ledger of the most recent EHLO on the current
    /// transport generation, if any EHLO has completed.
    pub ehlo: Option<EhloModel>,
}

/// Exclusively owned transport handle.
pub struct Transport {
    pub script: Vec<ScriptItem>,
    pub sent: Vec<u8>,
    pub shut_down: bool,
    pub secure: bool,
    pub ehlo: Option<EhloData>,
}

/// The events of a pending script.
pub open spec fn events_of(s: Seq<ScriptItem>) -> Seq<EventModel> {
    s.map_values(|it: ScriptItem| it@)
}

/// A freshly opened transport: nothing sent, nothing shut, no ledger.
pub open spec fn fresh_transport(script: Seq<EventModel>, secure: bool) -> TransportModel {
    TransportModel { script, sent: Seq::empty(), shut_down: false, secure, ehlo: None }
}

/// Whether a ledger is present and advertises `cap`.
pub open spec fn spec_has_capability(m: TransportModel, cap: Seq<u8>) -> bool {
    m.ehlo matches Some(e) && e.caps.contains(cap)
}

impl View for Transport {
    type V = TransportModel;

    open spec fn view(&self) -> TransportModel {
        TransportModel {
            script: events_of(self.script@),
            sent: self.sent@,
            shut_down: self.shut_down,
            secure: self.secure,
            ehlo: match self.ehlo {
                Some(e) => Some(e@),
                None => None,
            },
        }
    }
}

impl Transport {
    /// Opens a plaintext transport to the peer at `addr`.  The socket work
    /// itself belongs to the transport collaborator; the caller hands over
    /// the events that peer will deliver.
    #[allow(unused_variables)]
    pub fn connect_insecure(addr: &[u8], script: Vec<ScriptItem>) -> (r: Transport)
        ensures
            r@ == fresh_transport(events_of(script@), false),
    {
        let r = Transport {
            script,
            sent: Vec::new(),
            shut_down: false,
            secure: false,
            ehlo: None,
        };
        proof {
            assert(r@ =~~= fresh_transport(events_of(r.script@), false));
        }
        r
    }

    /// Reads and classifies the next reply: a transport-level failure
    /// surrenders the handle's usefulness, a 4xx/5xx reply or a garbled
    /// answer is a logic error, a 2xx/3xx reply succeeds.
    pub fn recv_smtp(&mut self) -> (r: Result<SmtpResult, TransportError>)
        ensures
            final(self)@.sent == old(self)@.sent,
            final(self)@.shut_down == old(self)@.shut_down,
            final(self)@.secure == old(self)@.secure,
            final(self)@.ehlo == old(self)@.ehlo,
            old(self)@.shut_down || old(self)@.script.len() == 0 ==> r is Err && final(self)@.script
                == old(self)@.script,
            !old(self)@.shut_down && old(self)@.script.len() > 0 ==> {
                &&& final(self)@.script == old(self)@.script.skip(1)
                &&& match old(self)@.script[0] {
                    EventModel::Fault => r is Err,
                    EventModel::Garbled => r matches Ok(Err(LogicError::Malformed)),
                    EventModel::Reply(resp) => if resp.positive() {
                        r matches Ok(Ok(rr)) && rr@ == resp
                    } else {
                        r matches Ok(Err(LogicError::Negative(rr))) && rr@ == resp
                    },
                }
            },
    {
        if self.shut_down {
            return Err(TransportError);
        }
        if self.script.len() == 0 {
            return Err(TransportError);
        }
        let item = self.script.remove(0);
        proof {
            assert(self.script@ =~= old(self).script@.skip(1));
            assert(final(self)@.script =~= old(self)@.script.skip(1));
            assert(item@ == old(self)@.script[0]);
        }
        match item {
            ScriptItem::Fault => Err(TransportError),
            ScriptItem::Garbled => Ok(Err(LogicError::Malformed)),
            ScriptItem::Reply(resp) => {
                if resp.is_positive() {
                    Ok(Ok(resp))
                } else {
                    Ok(Err(LogicError::Negative(resp)))
                }
            },
        }
    }

    /// Flushes the staged buffer towards the peer, appending its bytes to
    /// the transcript.
    pub fn flush_buffer(&mut self, buf: bytes::BytesMut)
        ensures
            final(self)@ == (TransportModel {
                sent: old(self)@.sent + buffer_bytes(buf),
                ..old(self)@
            }),
    {
        let mut v = buffer_to_vec(&buf);
        self.sent.append(&mut v);
        proof {
            assert(final(self)@ =~~= (TransportModel {
                sent: old(self)@.sent + buffer_bytes(buf),
                ..old(self)@
            }));
        }
    }

    /// Stages one command line and its terminator, then flushes.
    pub fn send_line(&mut self, line: &Vec<u8>)
        ensures
            final(self)@ == (TransportModel {
                sent: old(self)@.sent + line@ + crlf(),
                ..old(self)@
            }),
    {
        let mut buf = buffer_with_capacity(1024);
        buffer_put(&mut buf, line.as_slice());
        let terminator = crlf_vec();
        buffer_put(&mut buf, terminator.as_slice());
        proof {
            assert(buffer_bytes(buf) =~= line@ + crlf());
        }
        self.flush_buffer(buf);
        proof {
            assert(final(self)@ =~~= (TransportModel {
                sent: old(self)@.sent + line@ + crlf(),
                ..old(self)@
            }));
        }
    }

    /// Whether the handle has been shut down.
    pub fn is_shut_down(&self) -> (r: bool)
        ensures
            r == self@.shut_down,
    {
        self.shut_down
    }

    /// The transcript of every byte flushed so far.
    pub fn transcript(&self) -> (r: &Vec<u8>)
        ensures
            r@ == self@.sent,
    {
        &self.sent
    }

    /// Whether the current ledger advertises `cap`; false when no EHLO has
    /// completed on the current transport generation.
    pub fn has_capability(&self, cap: &[u8]) -> (r: bool)
        ensures
            r == spec_has_capability(self@, cap@),
    {
        match &self.ehlo {
            Some(e) => e.has(cap),
            None => false,
        }
    }

    /// The current ledger, if an EHLO has completed.
    pub fn ehlo_data(&self) -> (r: Option<&EhloData>)
        ensures
            match r {
                Some(e) => self@.ehlo == Some(e@),
                None => self@.ehlo is None,
            },
    {
        self.ehlo.as_ref()
    }
}

} // verus!
