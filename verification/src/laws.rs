//! The crate-level laws: properties that relate several operations,
//! stated over the same spec functions the operations' own contracts use.

use vstd::prelude::*;

use crate::connect::connect_classified;
use crate::connection::{quit_post, Cmd, Connection};
use crate::ehlo::ehlo_model_of;
use crate::response::{ConnectingFailed, EventModel, ResponseModel, TransportError};
use crate::steps::{
    establish_outcome, exchange, read_step, starttls_establish, SecurityModel, StepOut,
};
use crate::transport::{fresh_transport, spec_has_capability, Transport, TransportModel};

verus! {

/// Every successful establishment — any strategy — hands over a transport
/// whose capability ledger is populated, because every strategy ends in
/// an EHLO exchange.
pub proof fn lemma_establish_populates_ledger(
    sec: SecurityModel,
    events: Seq<EventModel>,
    id: Seq<u8>,
)
    ensures
        establish_outcome(sec, events, id) matches StepOut::Advanced(m, _) ==> m.ehlo is Some,
{
}

/// Law: `connect` yields either a connection whose capability ledger is
/// populated or a stage-tagged error: `Setup` only for a rejection during
/// establishment, `Auth` only once establishment had succeeded.  The
/// ledger clause asks that the authentication command leave the ledger
/// alone, as authentication commands do.
pub proof fn lemma_connect_yields_ledger_or_tagged_error<A: Cmd>(
    sec: SecurityModel,
    events: Seq<EventModel>,
    id: Seq<u8>,
    auth: A,
    r: Result<Connection, ConnectingFailed>,
)
    requires
        connect_classified(establish_outcome(sec, events, id), auth, r),
        forall|m: TransportModel, resp: ResponseModel|
            (#[trigger] auth.apply_positive(m, resp)).ehlo == m.ehlo,
    ensures
        r matches Ok(c) ==> c@.ehlo is Some,
        r matches Err(ConnectingFailed::Auth(_)) ==> establish_outcome(sec, events, id)
            is Advanced,
        r matches Err(ConnectingFailed::Setup(_)) ==> establish_outcome(sec, events, id)
            is Rejected,
{
    lemma_establish_populates_ledger(sec, events, id);
}

/// Law: the ledger present after successful STARTTLS establishment
/// reflects only the post-upgrade EHLO (the fourth server event); a
/// capability that reply did not advertise is not reported, even when
/// the pre-upgrade EHLO had advertised it.
pub proof fn lemma_starttls_ledger_is_post_upgrade(
    events: Seq<EventModel>,
    id: Seq<u8>,
    setup_ok: bool,
    cap: Seq<u8>,
)
    ensures
        match starttls_establish(events, id, setup_ok) {
            StepOut::Advanced(m, _) => {
                &&& events.len() >= 4
                &&& events[3] matches EventModel::Reply(post) && m.ehlo == Some(
                    ehlo_model_of(post),
                ) && (!ehlo_model_of(post).caps.contains(cap) ==> !spec_has_capability(m, cap))
            },
            _ => true,
        },
{
    if starttls_establish(events, id, setup_ok) is Advanced {
        assert(events.skip(1).skip(1) =~= events.skip(2));
        assert(events.skip(2).skip(1) =~= events.skip(3));
    }
}

/// Law: once establishment has succeeded, a negative (or unparseable)
/// answer to the authentication command is surfaced as `Auth` carrying
/// the server's detail — never as `Setup`, never as success.  The
/// pipeline's cleanup on that path is `quit`, whose own contract
/// (`quit_post`) shuts the transport down first.
pub proof fn lemma_auth_rejection_is_tagged<A: Cmd>(
    out: StepOut,
    auth: A,
    r: Result<Connection, ConnectingFailed>,
)
    requires
        connect_classified(out, auth, r),
    ensures
        match out {
            StepOut::Advanced(m, _) => match exchange(m, auth.wire()) {
                StepOut::Rejected(_, e) => r matches Err(ConnectingFailed::Auth(le)) && le@ == e,
                _ => true,
            },
            _ => true,
        },
{
}

/// Law: `quit` performs the shutdown even when the QUIT reply is negative
/// or cannot be parsed; only a transport already lost (shut down, out of
/// events, or faulting on the read) leaves nothing to shut down.
pub proof fn lemma_quit_always_shuts_down(
    pre: TransportModel,
    r: Result<Transport, TransportError>,
)
    requires
        quit_post(pre, r),
        !pre.shut_down,
        pre.script.len() > 0,
        !(pre.script[0] is Fault),
    ensures
        r matches Ok(t) && t@.shut_down,
{
}

/// Law: `has_capability` is false for every capability name while no
/// EHLO has completed on the current transport generation.
pub proof fn lemma_no_ledger_no_capability(m: TransportModel, cap: Seq<u8>)
    requires
        m.ehlo is None,
    ensures
        !spec_has_capability(m, cap),
{
}

/// Law: a connection fresh from the greeting alone — no EHLO yet — has
/// no ledger, so it reports no capability at all.
pub proof fn lemma_greeting_leaves_no_ledger(
    events: Seq<EventModel>,
    secure: bool,
    cap: Seq<u8>,
)
    ensures
        read_step(fresh_transport(events, secure)) matches StepOut::Advanced(m, _)
            ==> !spec_has_capability(m, cap),
{
}

} // verus!
