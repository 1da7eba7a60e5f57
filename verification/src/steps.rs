//! The mathematical meaning of each protocol step.
//!
//! Every contract in the crate is stated against these functions: one
//! command exchange ([`exchange`]), the greeting read ([`read_step`]), the
//! EHLO and STARTTLS exchanges with their effects on the transport, and
//! the three establishment strategies composed from them.

use vstd::prelude::*;

use crate::commands::{ehlo_wire, starttls_capability, starttls_wire};
use crate::ehlo::ehlo_model_of;
use crate::response::{EventModel, LogicModel, ResponseModel};
use crate::transport::{crlf, fresh_transport, spec_has_capability, TransportModel};

verus! {

/// Outcome of one protocol step.
#[verifier::ext_equal]
pub enum StepOut {
    /// The transport failed (or was already down): the handle is lost.
    Dead,
    /// The server answered, but negatively or unparseably; the exchange
    /// survives on the carried transport.
    Rejected(TransportModel, LogicModel),
    /// A positive reply; the transport carries any effect of the step.
    Advanced(TransportModel, ResponseModel),
}

/// One full command exchange: the command line and terminator go out, one
/// event comes back, and the reply is classified.  Effects specific to a
/// command (ledger, upgrade) are layered on top by the per-command steps.
pub open spec fn exchange(pre: TransportModel, wire: Seq<u8>) -> StepOut {
    if pre.shut_down || pre.script.len() == 0 {
        StepOut::Dead
    } else {
        let rest = TransportModel {
            script: pre.script.skip(1),
            sent: pre.sent + wire + crlf(),
            ..pre
        };
        match pre.script[0] {
            EventModel::Fault => StepOut::Dead,
            EventModel::Garbled => StepOut::Rejected(rest, LogicModel::Malformed),
            EventModel::Reply(resp) => if resp.positive() {
                StepOut::Advanced(rest, resp)
            } else {
                StepOut::Rejected(rest, LogicModel::Negative(resp))
            },
        }
    }
}

/// Reading the server greeting: like an exchange, but nothing is sent.
pub open spec fn read_step(pre: TransportModel) -> StepOut {
    if pre.shut_down || pre.script.len() == 0 {
        StepOut::Dead
    } else {
        let rest = TransportModel { script: pre.script.skip(1), ..pre };
        match pre.script[0] {
            EventModel::Fault => StepOut::Dead,
            EventModel::Garbled => StepOut::Rejected(rest, LogicModel::Malformed),
            EventModel::Reply(resp) => if resp.positive() {
                StepOut::Advanced(rest, resp)
            } else {
                StepOut::Rejected(rest, LogicModel::Negative(resp))
            },
        }
    }
}

/// The EHLO exchange: on success the ledger is replaced by what this very
/// reply advertised.
pub open spec fn ehlo_step(pre: TransportModel, id: Seq<u8>) -> StepOut {
    match exchange(pre, ehlo_wire(id)) {
        StepOut::Advanced(m, resp) => StepOut::Advanced(
            TransportModel { ehlo: Some(ehlo_model_of(resp)), ..m },
            resp,
        ),
        out => out,
    }
}

/// The STARTTLS exchange: on a positive reply the configured TLS setup
/// runs; if it succeeds the transport is encrypted and the pre-upgrade
/// ledger is discarded, and if it fails the handle is lost.
pub open spec fn starttls_step(pre: TransportModel, setup_ok: bool) -> StepOut {
    match exchange(pre, starttls_wire()) {
        StepOut::Advanced(m, resp) => if setup_ok {
            StepOut::Advanced(TransportModel { secure: true, ehlo: None, ..m }, resp)
        } else {
            StepOut::Dead
        },
        out => out,
    }
}

/// Greeting followed by EHLO, the handshake shared by every strategy.
pub open spec fn plain_handshake(t0: TransportModel, id: Seq<u8>) -> StepOut {
    match read_step(t0) {
        StepOut::Advanced(t1, _) => ehlo_step(t1, id),
        out => out,
    }
}

/// The STARTTLS strategy: full plaintext handshake, a ledger check for the
/// STARTTLS capability (the upgrade is refused outright when the server
/// never offered it), the upgrade, and the mandatory EHLO re-negotiation.
pub open spec fn starttls_establish(
    events: Seq<EventModel>,
    id: Seq<u8>,
    setup_ok: bool,
) -> StepOut {
    match plain_handshake(fresh_transport(events, false), id) {
        StepOut::Advanced(m, _) => if !spec_has_capability(m, starttls_capability()) {
            StepOut::Rejected(m, LogicModel::MissingStartTls)
        } else {
            match starttls_step(m, setup_ok) {
                StepOut::Advanced(m2, _) => ehlo_step(m2, id),
                out => out,
            }
        },
        out => out,
    }
}

/// The three security strategies, reduced to what the model can observe:
/// whether TLS is negotiated before the exchange, in its middle, or never,
/// and whether the configured setup strategy succeeds.
#[verifier::ext_equal]
pub enum SecurityModel {
    Insecure,
    Direct(bool),
    Upgrade(bool),
}

/// What establishment (greeting, EHLO, optional upgrade — everything
/// before authentication) yields for a given strategy and event sequence.
pub open spec fn establish_outcome(
    sec: SecurityModel,
    events: Seq<EventModel>,
    id: Seq<u8>,
) -> StepOut {
    match sec {
        SecurityModel::Insecure => plain_handshake(fresh_transport(events, false), id),
        SecurityModel::Direct(setup_ok) => if setup_ok {
            plain_handshake(fresh_transport(events, true), id)
        } else {
            StepOut::Dead
        },
        SecurityModel::Upgrade(setup_ok) => starttls_establish(events, id, setup_ok),
    }
}

} // verus!
