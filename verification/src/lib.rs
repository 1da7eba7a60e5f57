//! Connection-establishment core of an SMTP client.
//!
//! The crate negotiates transport security, sequences the protocol
//! handshake (greeting, EHLO, optional STARTTLS upgrade with a mandatory
//! EHLO re-negotiation), tracks server-advertised capabilities, and chains
//! command execution with a stage-tagged failure taxonomy.

pub mod commands;
pub mod connect;
pub mod common;
pub mod connection;
pub mod ehlo;
pub mod laws;
pub mod response;
pub mod steps;
pub mod transport;

use vstd::prelude::*;

verus! {

/// True exactly for the reply codes SMTP counts as positive
/// (positive completion 2xx and positive intermediate 3xx).
pub open spec fn positive_code(code: u16) -> bool {
    200 <= code && code < 400
}

} // verus!
